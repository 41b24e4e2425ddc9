use vstd::prelude::*;

use crate::protocol::error::ProtocolError;
use crate::protocol::led;
use crate::protocol::{
    dpi_byte_active, spec_decode_dpi, spec_encode_dpi, spec_profile_dpi_byte, spec_profile_rgb,
    ConfigData, ACTIVE_COUNT_BIAS, ACTIVE_PROFILES_COUNT, LED_ARG1, LED_ARG2, LED_ARG3, LED_MODE,
    MAX_DPI, PROFILES_DPI, PROFILES_RGB, PROFILE_COUNT, REPORT_LEN,
};

verus! {

/// One of the five DPI/colour presets of the mouse.
#[derive(Clone, Copy, Debug)]
pub struct Profile {
    pub active: bool,
    /// Zero-based DPI index.
    pub dpi: u8,
    pub rgb: [u8; 3],
}

impl Default for Profile {
    fn default() -> (r: Self)
        ensures
            r == (Profile { active: false, dpi: 0, rgb: [0u8, 0u8, 0u8] }),
    {
        Profile { active: false, dpi: 0, rgb: [0u8, 0u8, 0u8] }
    }
}

/// Whether profile `p` is what slot `id` of the report bytes `raw` encodes.
pub open spec fn profile_matches(p: Profile, raw: Seq<u8>, id: int) -> bool {
    &&& spec_decode_dpi(spec_profile_dpi_byte(raw, id)) == Ok::<(bool, u8), ProtocolError>(
        (p.active, p.dpi),
    )
    &&& p.rgb == spec_profile_rgb(raw, id)
}

/// The LED configuration that the report bytes `raw` encode.
pub open spec fn spec_led_of(raw: Seq<u8>) -> Result<led::Config, ProtocolError> {
    led::Config::spec_from_raw(
        raw[LED_MODE as int],
        raw[LED_ARG1 as int],
        raw[LED_ARG2 as int],
        raw[LED_ARG3 as int],
    )
}

/// Number of active profiles in `ps`.
pub open spec fn active_count(ps: Seq<Profile>) -> nat
    decreases ps.len(),
{
    if ps.len() == 0 {
        0
    } else {
        active_count(ps.drop_last()) + if ps.last().active {
            1nat
        } else {
            0nat
        }
    }
}

/// The mouse's configuration: the raw report, which is what the device
/// stores, and the profiles and LED configuration decoded from it. Every
/// setter changes both.
#[derive(Clone, Debug)]
pub struct Config {
    raw_data: ConfigData,
    profiles: [Profile; 5],
    led_config: led::Config,
}

impl Config {
    /// The bytes of the raw report.
    pub closed spec fn raw(&self) -> Seq<u8> {
        self.raw_data@
    }

    /// The five profiles.
    pub closed spec fn spec_profiles(&self) -> Seq<Profile> {
        self.profiles@
    }

    /// The LED configuration.
    pub closed spec fn spec_led_config(&self) -> led::Config {
        self.led_config
    }

    /// The profiles and the LED configuration are those that the raw report
    /// encodes.
    pub open spec fn wf(&self) -> bool {
        &&& self.raw().len() == REPORT_LEN
        &&& self.spec_profiles().len() == PROFILE_COUNT
        &&& forall|id: int|
            0 <= id < PROFILE_COUNT ==> profile_matches(
                #[trigger] self.spec_profiles()[id],
                self.raw(),
                id,
            )
        &&& spec_led_of(self.raw()) == Ok::<led::Config, ProtocolError>(self.spec_led_config())
    }

    /// Decodes the profiles and the LED configuration of a report. A DPI byte
    /// with no level, or LED bytes that name no configuration, are
    /// `InvalidRawInput`.
    pub fn new(raw_data: ConfigData) -> (r: Result<Self, ProtocolError>)
        requires
            raw_data.wf(),
        ensures
            r is Ok <==> (forall|id: int|
                0 <= id < PROFILE_COUNT ==> spec_decode_dpi(
                    #[trigger] spec_profile_dpi_byte(raw_data@, id),
                ) is Ok) && spec_led_of(raw_data@) is Ok,
            r is Ok ==> r->Ok_0.wf() && r->Ok_0.raw() == raw_data@,
            r is Err ==> r == Err::<Config, ProtocolError>(ProtocolError::InvalidRawInput),
    {
        let rgb = raw_data.profiles_rgb();
        let dpi = match raw_data.profiles_dpi() {
            Ok(d) => d,
            Err(e) => return Err(e),
        };
        let led_config = match led::Config::from_raw(
            raw_data.led_mode(),
            raw_data.led_arg1(),
            raw_data.led_arg2(),
            raw_data.led_arg3(),
        ) {
            Ok(c) => c,
            Err(e) => {
                assert(forall|id: int|
                    0 <= id < PROFILE_COUNT ==> spec_decode_dpi(
                        #[trigger] spec_profile_dpi_byte(raw_data@, id),
                    ) is Ok);
                return Err(e);
            },
        };
        let profiles: [Profile; 5] = [
            Profile { active: dpi[0].0, dpi: dpi[0].1, rgb: rgb[0] },
            Profile { active: dpi[1].0, dpi: dpi[1].1, rgb: rgb[1] },
            Profile { active: dpi[2].0, dpi: dpi[2].1, rgb: rgb[2] },
            Profile { active: dpi[3].0, dpi: dpi[3].1, rgb: rgb[3] },
            Profile { active: dpi[4].0, dpi: dpi[4].1, rgb: rgb[4] },
        ];
        let c = Config { raw_data, profiles, led_config };
        assert(forall|id: int|
            0 <= id < PROFILE_COUNT ==> profile_matches(#[trigger] c.spec_profiles()[id], c.raw(), id))
            by {
            assert(spec_decode_dpi(spec_profile_dpi_byte(c.raw(), 0)) == Ok::<(bool, u8), ProtocolError>(dpi[0]));
            assert(spec_decode_dpi(spec_profile_dpi_byte(c.raw(), 1)) == Ok::<(bool, u8), ProtocolError>(dpi[1]));
            assert(spec_decode_dpi(spec_profile_dpi_byte(c.raw(), 2)) == Ok::<(bool, u8), ProtocolError>(dpi[2]));
            assert(spec_decode_dpi(spec_profile_dpi_byte(c.raw(), 3)) == Ok::<(bool, u8), ProtocolError>(dpi[3]));
            assert(spec_decode_dpi(spec_profile_dpi_byte(c.raw(), 4)) == Ok::<(bool, u8), ProtocolError>(dpi[4]));
            assert(rgb[0] == spec_profile_rgb(c.raw(), 0));
            assert(rgb[1] == spec_profile_rgb(c.raw(), 1));
            assert(rgb[2] == spec_profile_rgb(c.raw(), 2));
            assert(rgb[3] == spec_profile_rgb(c.raw(), 3));
            assert(rgb[4] == spec_profile_rgb(c.raw(), 4));
        }
        Ok(c)
    }

    /// Sets the DPI index of profile `id`. In the report only that profile's
    /// DPI byte changes, and it keeps the profile's active flag.
    pub fn set_profile_dpi(&mut self, id: usize, dpi: u8)
        requires
            old(self).wf(),
            id < PROFILE_COUNT,
            dpi <= MAX_DPI,
        ensures
            final(self).wf(),
            final(self).spec_profiles() == old(self).spec_profiles().update(
                id as int,
                Profile { dpi, ..old(self).spec_profiles()[id as int] },
            ),
            final(self).spec_led_config() == old(self).spec_led_config(),
            final(self).raw() == old(self).raw().update(
                PROFILES_DPI + id,
                spec_encode_dpi(old(self).spec_profiles()[id as int].active, dpi)->Ok_0,
            ),
            forall|i: int|
                0 <= i < REPORT_LEN && i != PROFILES_DPI + id ==> final(self).raw()[i] == old(
                    self,
                ).raw()[i],
    {
        let mut p = self.profiles[id];
        p.dpi = dpi;
        self.profiles[id] = p;
        self.raw_data.set_profile_dpi(id, dpi);
        proof {
            let b = spec_profile_dpi_byte(old(self).raw(), id as int);
            assert(dpi_byte_active(b) == old(self).spec_profiles()[id as int].active);
            crate::protocol::lemma_dpi_round_trip(dpi_byte_active(b), dpi);
            assert(forall|k: int|
                0 <= k < PROFILE_COUNT ==> profile_matches(
                    #[trigger] self.spec_profiles()[k],
                    self.raw(),
                    k,
                )) by {
                assert(forall|k: int|
                    0 <= k < PROFILE_COUNT && k != id ==> old(self).spec_profiles()[k]
                        == #[trigger] self.spec_profiles()[k]);
            }
        }
    }

    /// Sets the active flag of profile `id`. In the report that profile's DPI
    /// byte changes, and the active-profile count is stored anew as
    /// `0x20 + ` the number of active profiles; no other byte changes.
    pub fn set_profile_active(&mut self, id: usize, active: bool)
        requires
            old(self).wf(),
            id < PROFILE_COUNT,
        ensures
            final(self).wf(),
            final(self).spec_profiles() == old(self).spec_profiles().update(
                id as int,
                Profile { active, ..old(self).spec_profiles()[id as int] },
            ),
            final(self).spec_led_config() == old(self).spec_led_config(),
            final(self).raw() == old(self).raw().update(
                PROFILES_DPI + id,
                spec_encode_dpi(active, old(self).spec_profiles()[id as int].dpi)->Ok_0,
            ).update(
                ACTIVE_PROFILES_COUNT as int,
                (ACTIVE_COUNT_BIAS + active_count(final(self).spec_profiles())) as u8,
            ),
            final(self).raw()[ACTIVE_PROFILES_COUNT as int] - ACTIVE_COUNT_BIAS == active_count(
                final(self).spec_profiles(),
            ),
            forall|i: int|
                0 <= i < REPORT_LEN && i != PROFILES_DPI + id && i != ACTIVE_PROFILES_COUNT
                    ==> final(self).raw()[i] == old(self).raw()[i],
    {
        let mut p = self.profiles[id];
        p.active = active;
        self.profiles[id] = p;
        self.raw_data.set_profile_active(id, active);
        let ghost after_dpi = self.raw_data@;
        let count = self.active_profiles_count();
        self.raw_data.set_active_profiles_list_len(count);
        proof {
            let b = spec_profile_dpi_byte(old(self).raw(), id as int);
            let nb = spec_profile_dpi_byte(after_dpi, id as int);
            let d = old(self).spec_profiles()[id as int].dpi;
            assert(b & 0x7f <= 127) by (bit_vector);
            crate::protocol::lemma_dpi_round_trip(active, d);
            assert(nb == spec_encode_dpi(active, d)->Ok_0) by {
                assert(nb == if active { b & 0x7f } else { b | 0x80 });
                assert(1 <= b & 0x7f && (b & 0x7f) - 1 == d);
                let l = (d + 1) as u8;
                assert(b & 0x7f == l);
                assert((b & 0x7f == l && 1 <= l <= 127) ==> (b & 0x7f == l && (b | 0x80) == (l | 0x80)))
                    by (bit_vector);
            }
            assert(forall|k: int|
                0 <= k < PROFILE_COUNT ==> profile_matches(
                    #[trigger] self.spec_profiles()[k],
                    self.raw(),
                    k,
                )) by {
                assert(forall|k: int|
                    0 <= k < PROFILE_COUNT && k != id ==> old(self).spec_profiles()[k]
                        == #[trigger] self.spec_profiles()[k]);
            }
        }
    }

    /// Number of active profiles.
    fn active_profiles_count(&self) -> (r: u8)
        requires
            self.spec_profiles().len() == PROFILE_COUNT,
        ensures
            r == active_count(self.spec_profiles()),
            r <= PROFILE_COUNT,
    {
        let mut n: u8 = 0;
        let mut i: usize = 0;
        while i < PROFILE_COUNT
            invariant
                i <= PROFILE_COUNT,
                self.spec_profiles().len() == PROFILE_COUNT,
                n == active_count(self.spec_profiles().subrange(0, i as int)),
                n <= i,
            decreases PROFILE_COUNT - i,
        {
            proof {
                let ps = self.spec_profiles();
                assert(ps.subrange(0, i + 1).drop_last() =~= ps.subrange(0, i as int));
            }
            if self.profiles[i].active {
                n = n + 1;
            }
            i = i + 1;
        }
        proof {
            assert(self.spec_profiles().subrange(0, PROFILE_COUNT as int) =~= self.spec_profiles());
        }
        n
    }

    /// Sets the RGB colour of profile `id`. In the report only that profile's
    /// three colour bytes change.
    pub fn set_profile_rgb(&mut self, id: usize, rgb: [u8; 3])
        requires
            old(self).wf(),
            id < PROFILE_COUNT,
        ensures
            final(self).wf(),
            final(self).spec_profiles() == old(self).spec_profiles().update(
                id as int,
                Profile { rgb, ..old(self).spec_profiles()[id as int] },
            ),
            final(self).spec_led_config() == old(self).spec_led_config(),
            final(self).raw() == old(self).raw().update(PROFILES_RGB + 3 * id, rgb[0]).update(
                PROFILES_RGB + 3 * id + 1,
                rgb[1],
            ).update(PROFILES_RGB + 3 * id + 2, rgb[2]),
            forall|i: int|
                0 <= i < REPORT_LEN && !(PROFILES_RGB + 3 * id <= i < PROFILES_RGB + 3 * id + 3)
                    ==> final(self).raw()[i] == old(self).raw()[i],
    {
        let mut p = self.profiles[id];
        p.rgb = rgb;
        self.profiles[id] = p;
        self.raw_data.set_profile_rgb(id, rgb);
        proof {
            assert(forall|k: int|
                0 <= k < PROFILE_COUNT ==> profile_matches(
                    #[trigger] self.spec_profiles()[k],
                    self.raw(),
                    k,
                )) by {
                assert(forall|k: int|
                    0 <= k < PROFILE_COUNT && k != id ==> old(self).spec_profiles()[k]
                        == #[trigger] self.spec_profiles()[k]);
                assert(spec_profile_rgb(self.raw(), id as int) =~= rgb);
            }
        }
    }

    /// Sets the LED configuration. In the report only the LED mode byte and
    /// its three argument bytes change, to the encoding of `config`.
    pub fn set_led_effect(&mut self, config: led::Config)
        requires
            old(self).wf(),
        ensures
            final(self).wf(),
            final(self).spec_profiles() == old(self).spec_profiles(),
            final(self).spec_led_config() == config,
            final(self).raw() == old(self).raw().update(LED_MODE as int, config.spec_to_raw().0).update(
                LED_ARG1 as int,
                config.spec_to_raw().1,
            ).update(LED_ARG2 as int, config.spec_to_raw().2).update(
                LED_ARG3 as int,
                config.spec_to_raw().3,
            ),
            forall|i: int|
                0 <= i < REPORT_LEN && !(LED_MODE <= i <= LED_ARG3) ==> final(self).raw()[i] == old(
                    self,
                ).raw()[i],
    {
        self.led_config = config;
        let raw = self.led_config.to_raw();
        self.raw_data.set_led_config(raw.0, raw.1, raw.2, raw.3);
        proof {
            config.lemma_raw_round_trip();
        }
    }

    /// The five profiles.
    pub fn profiles(&self) -> (r: &[Profile; 5])
        ensures
            r@ == self.spec_profiles(),
    {
        &self.profiles
    }

    /// The LED configuration.
    pub fn led_config(&self) -> (r: &led::Config)
        ensures
            *r == self.spec_led_config(),
    {
        &self.led_config
    }

    /// The raw report, as it is to be written to the device.
    pub fn raw_report(&self) -> (r: &ConfigData)
        ensures
            r@ == self.raw(),
    {
        &self.raw_data
    }
}

impl Default for Config {
    /// The configuration of the factory-reset report.
    fn default() -> (r: Self)
        ensures
            r.wf(),
            r.raw() == crate::protocol::factory_report(),
    {
        let raw_data = ConfigData::default();
        proof {
            let f = crate::protocol::factory_report();
            assert(f[74] == 0x01u8 && f[75] == 0x04u8 && f[76] == 0x05u8 && f[77] == 0x07u8 && f[78] == 0x10u8);
            assert(0x01u8 & 0x7f != 0 && 0x04u8 & 0x7f != 0 && 0x05u8 & 0x7f != 0 && 0x07u8 & 0x7f != 0
                && 0x10u8 & 0x7f != 0) by (bit_vector);
            assert(forall|id: int|
                0 <= id < PROFILE_COUNT ==> spec_decode_dpi(
                    #[trigger] spec_profile_dpi_byte(raw_data@, id),
                ) is Ok);
            assert(f[93] == 0x22u8 && f[96] == 0x12u8);
            assert(spec_led_of(raw_data@) is Ok);
        }
        Config::new(raw_data).unwrap()
    }
}

} // verus!
