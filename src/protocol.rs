pub mod error;
pub mod led;

use vstd::prelude::*;

use crate::protocol::error::ProtocolError;

verus! {

/// Size in bytes of the configuration report.
pub const REPORT_LEN: usize = 154;

/// Offset of the polling-rate code.
pub const REPORT_RATE: usize = 8;

/// Offset of the active-profile count, stored as `count + 0x20`.
pub const ACTIVE_PROFILES_COUNT: usize = 71;

/// Offset of the first of the five DPI bytes, one per profile.
pub const PROFILES_DPI: usize = 74;

/// Offset of the LED mode byte; its three argument bytes follow it.
pub const LED_MODE: usize = 93;

/// Offset of the first LED argument byte.
pub const LED_ARG1: usize = 94;

/// Offset of the second LED argument byte.
pub const LED_ARG2: usize = 95;

/// Offset of the third LED argument byte.
pub const LED_ARG3: usize = 96;

/// Offset of the first of the five RGB triples, one per profile.
pub const PROFILES_RGB: usize = 100;

/// Number of profile slots.
pub const PROFILE_COUNT: usize = 5;

/// Bias added to the number of active profiles before it is stored.
pub const ACTIVE_COUNT_BIAS: u8 = 0x20;

/// Largest DPI index whose one-based form fits in the low seven bits.
pub const MAX_DPI: u8 = 126;

/// Whether a DPI byte marks its profile active: bit 7 is clear.
pub open spec fn dpi_byte_active(raw: u8) -> bool {
    raw & 0x80 == 0
}

/// The one-based DPI level held in the low seven bits of a DPI byte.
pub open spec fn dpi_byte_level(raw: u8) -> u8 {
    raw & 0x7f
}

/// The (active, zero-based DPI index) pair that a DPI byte encodes; a level of
/// zero has no index and is `InvalidRawInput`.
pub open spec fn spec_decode_dpi(raw: u8) -> Result<(bool, u8), ProtocolError> {
    if dpi_byte_level(raw) == 0 {
        Err(ProtocolError::InvalidRawInput)
    } else {
        Ok((dpi_byte_active(raw), (dpi_byte_level(raw) - 1) as u8))
    }
}

/// The DPI byte of a profile: `dpi + 1` in the low bits, bit 7 set when the
/// profile is inactive; an index above 126 does not fit and is `InvalidRawInput`.
pub open spec fn spec_encode_dpi(active: bool, dpi: u8) -> Result<u8, ProtocolError> {
    if dpi > MAX_DPI {
        Err(ProtocolError::InvalidRawInput)
    } else if active {
        Ok((dpi + 1) as u8)
    } else {
        Ok(((dpi + 1) as u8) | 0x80)
    }
}

/// A DPI byte with its profile marked active (bit 7 cleared) or inactive
/// (bit 7 set); the level is kept.
pub open spec fn spec_with_active(raw: u8, active: bool) -> u8 {
    if active {
        raw & 0x7f
    } else {
        raw | 0x80
    }
}

/// A DPI byte holding DPI index `dpi`, with the active flag of `raw` kept.
pub open spec fn spec_with_dpi(raw: u8, dpi: u8) -> u8 {
    spec_encode_dpi(dpi_byte_active(raw), dpi)->Ok_0
}

/// Decodes a profile's DPI byte into its active flag and zero-based DPI index.
pub fn decode_dpi(raw: u8) -> (r: Result<(bool, u8), ProtocolError>)
    ensures
        r == spec_decode_dpi(raw),
{
    let level: u8 = raw & 0x7f;
    let active: bool = (raw >> 7u8) & 1 == 0;
    assert(((raw >> 7u8) & 1 == 0) == (raw & 0x80 == 0)) by (bit_vector);
    if level == 0 {
        Err(ProtocolError::InvalidRawInput)
    } else {
        Ok((active, level - 1))
    }
}

/// Encodes a profile's active flag and zero-based DPI index as its DPI byte.
pub fn encode_dpi(active: bool, dpi: u8) -> (r: Result<u8, ProtocolError>)
    ensures
        r == spec_encode_dpi(active, dpi),
{
    if dpi > MAX_DPI {
        Err(ProtocolError::InvalidRawInput)
    } else if active {
        Ok(dpi + 1)
    } else {
        Ok((dpi + 1) | 0x80)
    }
}

/// Decoding the DPI byte of any active flag and DPI index up to 126 gives
/// them back.
pub proof fn lemma_dpi_round_trip(active: bool, dpi: u8)
    requires
        dpi <= MAX_DPI,
    ensures
        spec_encode_dpi(active, dpi) is Ok,
        spec_decode_dpi(spec_encode_dpi(active, dpi)->Ok_0) == Ok::<(bool, u8), ProtocolError>(
            (active, dpi),
        ),
{
    let l = (dpi + 1) as u8;
    assert(l & 0x80 == 0 && l & 0x7f == l) by (bit_vector)
        requires
            1 <= l <= 127,
    ;
    assert((l | 0x80) & 0x80 != 0 && (l | 0x80) & 0x7f == l) by (bit_vector)
        requires
            1 <= l <= 127,
    ;
}

/// Marking a profile active or inactive and storing its DPI index, in either
/// order, leaves a report whose DPI byte for that profile decodes to exactly
/// that flag and index; the other profiles' DPI bytes do not change.
pub proof fn lemma_profile_dpi_after_sets(raw: Seq<u8>, id: int, active: bool, dpi: u8)
    requires
        raw.len() == REPORT_LEN,
        0 <= id < PROFILE_COUNT,
        dpi <= MAX_DPI,
    ensures
        ({
            let a = raw.update(PROFILES_DPI + id, spec_with_active(spec_profile_dpi_byte(raw, id), active));
            let b = a.update(PROFILES_DPI + id, spec_with_dpi(spec_profile_dpi_byte(a, id), dpi));
            &&& spec_decode_dpi(spec_profile_dpi_byte(b, id)) == Ok::<(bool, u8), ProtocolError>((active, dpi))
            &&& forall|k: int| 0 <= k < PROFILE_COUNT && k != id ==> spec_profile_dpi_byte(b, k)
                == spec_profile_dpi_byte(raw, k)
        }),
        ({
            let a = raw.update(PROFILES_DPI + id, spec_with_dpi(spec_profile_dpi_byte(raw, id), dpi));
            let b = a.update(PROFILES_DPI + id, spec_with_active(spec_profile_dpi_byte(a, id), active));
            &&& spec_decode_dpi(spec_profile_dpi_byte(b, id)) == Ok::<(bool, u8), ProtocolError>((active, dpi))
            &&& forall|k: int| 0 <= k < PROFILE_COUNT && k != id ==> spec_profile_dpi_byte(b, k)
                == spec_profile_dpi_byte(raw, k)
        }),
{
    let r = spec_profile_dpi_byte(raw, id);
    let l = (dpi + 1) as u8;
    assert((r & 0x7f) & 0x80 == 0 && (r | 0x80) & 0x80 != 0) by (bit_vector);
    lemma_dpi_round_trip(active, dpi);
    assert(l & 0x7f == l && (l | 0x80) & 0x7f == l && (l | 0x80) | 0x80 == l | 0x80) by (bit_vector)
        requires
            1 <= l <= 127,
    ;
}

/// The device's configuration report: 154 bytes at fixed offsets. The named
/// fields are read and written through accessors; every other byte is carried
/// through unchanged.
#[derive(Clone, Debug)]
pub struct ConfigData {
    bytes: Vec<u8>,
}

impl View for ConfigData {
    type V = Seq<u8>;

    closed spec fn view(&self) -> Seq<u8> {
        self.bytes@
    }
}

/// The RGB triple of profile `id` in the report bytes `raw`.
pub open spec fn spec_profile_rgb(raw: Seq<u8>, id: int) -> [u8; 3] {
    [
        raw[PROFILES_RGB + 3 * id],
        raw[PROFILES_RGB + 3 * id + 1],
        raw[PROFILES_RGB + 3 * id + 2],
    ]
}

/// The DPI byte of profile `id` in the report bytes `raw`.
pub open spec fn spec_profile_dpi_byte(raw: Seq<u8>, id: int) -> u8 {
    raw[PROFILES_DPI + id]
}

/// The report of a device after a factory reset.
pub open spec fn factory_report() -> Seq<u8> {
    seq![
        0x04, 0x00, 0x00, 0x00, 0x00, 0x00, 0x00, 0x00, 0x3c, 0x00, 0x00, 0x00, 0x00, 0x00,
        0x00, 0x00, 0x00, 0x00, 0x00, 0x00, 0x00, 0x00, 0x00, 0x00, 0x00, 0x00, 0x00, 0x00,
        0x00, 0x00, 0x00, 0x00, 0x00, 0x00, 0x00, 0x00, 0x00, 0x00, 0x00, 0x00, 0x00, 0x00,
        0x00, 0x00, 0x00, 0x00, 0x00, 0x00, 0x00, 0x00, 0x00, 0x00, 0x00, 0x00, 0x00, 0x00,
        0x00, 0x00, 0x00, 0x00, 0x00, 0x00, 0x00, 0x00, 0x00, 0x00, 0x00, 0x00, 0x00, 0x00,
        0x00, 0x35, 0x80, 0x00, 0x01, 0x04, 0x05, 0x07, 0x10, 0x80, 0x80, 0x80, 0x80, 0x80,
        0x80, 0x80, 0x80, 0x80, 0x80, 0x80, 0x00, 0x00, 0x00, 0x22, 0x00, 0x00, 0x12, 0x04,
        0x00, 0x00, 0xff, 0x00, 0x00, 0x00, 0x00, 0xff, 0x00, 0xff, 0x00, 0xff, 0x00, 0xff,
        0xff, 0xff, 0x00, 0xff, 0x03, 0x6a, 0xff, 0xff, 0xff, 0x00, 0x00, 0x00, 0xcb, 0x34,
        0x78, 0xff, 0xff, 0x00, 0x00, 0xff, 0x00, 0x00, 0xff, 0xff, 0x00, 0x00, 0xff, 0xff,
        0x00, 0xff, 0xff, 0xff, 0xff, 0x00, 0x00, 0x00, 0x00, 0x00, 0x00, 0x00, 0x00, 0x00
    ]
}

impl Default for ConfigData {
    /// The factory-reset report.
    fn default() -> (r: Self)
        ensures
            r@ == factory_report(),
    {
        let bytes: Vec<u8> = vec![
            0x04, 0x00, 0x00, 0x00, 0x00, 0x00, 0x00, 0x00, 0x3c, 0x00, 0x00, 0x00, 0x00, 0x00,
            0x00, 0x00, 0x00, 0x00, 0x00, 0x00, 0x00, 0x00, 0x00, 0x00, 0x00, 0x00, 0x00, 0x00,
            0x00, 0x00, 0x00, 0x00, 0x00, 0x00, 0x00, 0x00, 0x00, 0x00, 0x00, 0x00, 0x00, 0x00,
            0x00, 0x00, 0x00, 0x00, 0x00, 0x00, 0x00, 0x00, 0x00, 0x00, 0x00, 0x00, 0x00, 0x00,
            0x00, 0x00, 0x00, 0x00, 0x00, 0x00, 0x00, 0x00, 0x00, 0x00, 0x00, 0x00, 0x00, 0x00,
            0x00, 0x35, 0x80, 0x00, 0x01, 0x04, 0x05, 0x07, 0x10, 0x80, 0x80, 0x80, 0x80, 0x80,
            0x80, 0x80, 0x80, 0x80, 0x80, 0x80, 0x00, 0x00, 0x00, 0x22, 0x00, 0x00, 0x12, 0x04,
            0x00, 0x00, 0xff, 0x00, 0x00, 0x00, 0x00, 0xff, 0x00, 0xff, 0x00, 0xff, 0x00, 0xff,
            0xff, 0xff, 0x00, 0xff, 0x03, 0x6a, 0xff, 0xff, 0xff, 0x00, 0x00, 0x00, 0xcb, 0x34,
            0x78, 0xff, 0xff, 0x00, 0x00, 0xff, 0x00, 0x00, 0xff, 0xff, 0x00, 0x00, 0xff, 0xff,
            0x00, 0xff, 0xff, 0xff, 0xff, 0x00, 0x00, 0x00, 0x00, 0x00, 0x00, 0x00, 0x00, 0x00
        ];
        assert(bytes@ =~= factory_report());
        ConfigData { bytes }
    }
}

impl ConfigData {
    /// A report always holds exactly 154 bytes.
    pub open spec fn wf(&self) -> bool {
        self@.len() == REPORT_LEN
    }

    /// Takes a report read off the wire; any length but 154 is `InvalidRawInput`.
    pub fn from_bytes(bytes: &[u8]) -> (r: Result<ConfigData, ProtocolError>)
        ensures
            r is Ok <==> bytes@.len() == REPORT_LEN,
            r is Ok ==> r->Ok_0@ == bytes@,
            r is Err ==> r == Err::<ConfigData, ProtocolError>(ProtocolError::InvalidRawInput),
    {
        if bytes.len() != REPORT_LEN {
            return Err(ProtocolError::InvalidRawInput);
        }
        let mut v: Vec<u8> = Vec::new();
        let mut i: usize = 0;
        while i < bytes.len()
            invariant
                i <= bytes@.len(),
                v@ == bytes@.subrange(0, i as int),
            decreases bytes@.len() - i,
        {
            v.push(bytes[i]);
            i = i + 1;
        }
        assert(v@ == bytes@);
        Ok(ConfigData { bytes: v })
    }

    /// The report's bytes, as they are sent to the device.
    pub fn as_bytes(&self) -> (r: &[u8])
        ensures
            r@ == self@,
    {
        self.bytes.as_slice()
    }

    /// The polling-rate code.
    pub fn report_rate(&self) -> (r: u8)
        requires
            self.wf(),
        ensures
            r == self@[REPORT_RATE as int],
    {
        self.bytes[REPORT_RATE]
    }

    /// Stores the polling-rate code; no other byte changes.
    pub fn set_report_rate(&mut self, rate: u8)
        requires
            old(self).wf(),
        ensures
            final(self)@ == old(self)@.update(REPORT_RATE as int, rate),
    {
        self.bytes.set(REPORT_RATE, rate);
    }

    /// The stored active-profile byte, `count + 0x20`.
    pub fn active_profiles_list_len(&self) -> (r: u8)
        requires
            self.wf(),
        ensures
            r == self@[ACTIVE_PROFILES_COUNT as int],
    {
        self.bytes[ACTIVE_PROFILES_COUNT]
    }

    /// Stores the number of active profiles as `len + 0x20`; no other byte changes.
    pub fn set_active_profiles_list_len(&mut self, len: u8)
        requires
            old(self).wf(),
            len <= 0xff - ACTIVE_COUNT_BIAS,
        ensures
            final(self)@ == old(self)@.update(ACTIVE_PROFILES_COUNT as int, (len + ACTIVE_COUNT_BIAS) as u8),
    {
        self.bytes.set(ACTIVE_PROFILES_COUNT, len + ACTIVE_COUNT_BIAS);
    }

    /// The LED mode byte.
    pub fn led_mode(&self) -> (r: u8)
        requires
            self.wf(),
        ensures
            r == self@[LED_MODE as int],
    {
        self.bytes[LED_MODE]
    }

    /// The first LED argument byte.
    pub fn led_arg1(&self) -> (r: u8)
        requires
            self.wf(),
        ensures
            r == self@[LED_ARG1 as int],
    {
        self.bytes[LED_ARG1]
    }

    /// The second LED argument byte.
    pub fn led_arg2(&self) -> (r: u8)
        requires
            self.wf(),
        ensures
            r == self@[LED_ARG2 as int],
    {
        self.bytes[LED_ARG2]
    }

    /// The third LED argument byte.
    pub fn led_arg3(&self) -> (r: u8)
        requires
            self.wf(),
        ensures
            r == self@[LED_ARG3 as int],
    {
        self.bytes[LED_ARG3]
    }

    /// Stores the LED mode byte and its three arguments; no other byte changes.
    /// Returns the report itself, so that further setters can be chained.
    pub fn set_led_config(&mut self, led_mode: u8, led_arg1: u8, led_arg2: u8, led_arg3: u8) -> (r:
        &mut Self)
        requires
            old(self).wf(),
        ensures
            (*r)@ == old(self)@.update(LED_MODE as int, led_mode).update(
                LED_ARG1 as int,
                led_arg1,
            ).update(LED_ARG2 as int, led_arg2).update(LED_ARG3 as int, led_arg3),
            *final(self) == *final(r),
    {
        self.bytes.set(LED_MODE, led_mode);
        self.bytes.set(LED_ARG1, led_arg1);
        self.bytes.set(LED_ARG2, led_arg2);
        self.bytes.set(LED_ARG3, led_arg3);
        self
    }

    /// The RGB triples of the five profiles.
    pub fn profiles_rgb(&self) -> (r: [[u8; 3]; 5])
        requires
            self.wf(),
        ensures
            forall|id: int| 0 <= id < PROFILE_COUNT ==> r[id] == spec_profile_rgb(self@, id),
    {
        [self.profile_rgb(0), self.profile_rgb(1), self.profile_rgb(2), self.profile_rgb(3), self.profile_rgb(4)]
    }

    /// The RGB triple of profile `id`.
    pub fn profile_rgb(&self, id: usize) -> (r: [u8; 3])
        requires
            self.wf(),
            id < PROFILE_COUNT,
        ensures
            r == spec_profile_rgb(self@, id as int),
    {
        let at = PROFILES_RGB + 3 * id;
        [self.bytes[at], self.bytes[at + 1], self.bytes[at + 2]]
    }

    /// Stores the RGB triple of profile `id`; no other byte changes.
    pub fn set_profile_rgb(&mut self, id: usize, rgb: [u8; 3])
        requires
            old(self).wf(),
            id < PROFILE_COUNT,
        ensures
            final(self)@ == old(self)@.update(PROFILES_RGB + 3 * id, rgb[0]).update(
                PROFILES_RGB + 3 * id + 1,
                rgb[1],
            ).update(PROFILES_RGB + 3 * id + 2, rgb[2]),
    {
        let at = PROFILES_RGB + 3 * id;
        self.bytes.set(at, rgb[0]);
        self.bytes.set(at + 1, rgb[1]);
        self.bytes.set(at + 2, rgb[2]);
    }

    /// The active flag and DPI index of profile `id`.
    pub fn profile_dpi(&self, id: usize) -> (r: Result<(bool, u8), ProtocolError>)
        requires
            self.wf(),
            id < PROFILE_COUNT,
        ensures
            r == spec_decode_dpi(spec_profile_dpi_byte(self@, id as int)),
    {
        decode_dpi(self.bytes[PROFILES_DPI + id])
    }

    /// The active flags and DPI indices of the five profiles; a DPI byte whose
    /// low seven bits are zero is `InvalidRawInput`.
    pub fn profiles_dpi(&self) -> (r: Result<[(bool, u8); 5], ProtocolError>)
        requires
            self.wf(),
        ensures
            r is Ok <==> forall|id: int|
                0 <= id < PROFILE_COUNT ==> spec_decode_dpi(
                    #[trigger] spec_profile_dpi_byte(self@, id),
                ) is Ok,
            r is Ok ==> forall|id: int|
                0 <= id < PROFILE_COUNT ==> spec_decode_dpi(
                    #[trigger] spec_profile_dpi_byte(self@, id),
                ) == Ok::<(bool, u8), ProtocolError>(r->Ok_0[id]),
            r is Err ==> r == Err::<[(bool, u8); 5], ProtocolError>(ProtocolError::InvalidRawInput),
    {
        let d0 = self.profile_dpi(0);
        let d1 = self.profile_dpi(1);
        let d2 = self.profile_dpi(2);
        let d3 = self.profile_dpi(3);
        let d4 = self.profile_dpi(4);
        match (d0, d1, d2, d3, d4) {
            (Ok(p0), Ok(p1), Ok(p2), Ok(p3), Ok(p4)) => {
                let out = [p0, p1, p2, p3, p4];
                assert(forall|id: int| 0 <= id < PROFILE_COUNT ==> spec_decode_dpi(
                    #[trigger] spec_profile_dpi_byte(self@, id),
                ) == Ok::<(bool, u8), ProtocolError>(out[id])) by {
                    assert(out[0] == p0 && out[1] == p1 && out[2] == p2 && out[3] == p3 && out[4] == p4);
                }
                Ok(out)
            },
            _ => {
                assert(!(d0 is Ok && d1 is Ok && d2 is Ok && d3 is Ok && d4 is Ok));
                Err(ProtocolError::InvalidRawInput)
            },
        }
    }

    /// Stores the DPI index of profile `id`, keeping its active flag; no other
    /// byte changes.
    pub fn set_profile_dpi(&mut self, id: usize, dpi: u8)
        requires
            old(self).wf(),
            id < PROFILE_COUNT,
            dpi <= MAX_DPI,
        ensures
            final(self)@ == old(self)@.update(
                PROFILES_DPI + id,
                spec_with_dpi(spec_profile_dpi_byte(old(self)@, id as int), dpi),
            ),
    {
        let at = PROFILES_DPI + id;
        let level: u8 = dpi + 1;
        let active: bool = (self.bytes[at] >> 7u8) & 1 == 0;
        assert(forall|b: u8| ((b >> 7u8) & 1 == 0) == (b & 0x80 == 0)) by (bit_vector);
        let byte: u8 = if !active {
            level | 0x80
        } else {
            level
        };
        self.bytes.set(at, byte);
    }

    /// Marks profile `id` active (bit 7 cleared) or inactive (bit 7 set),
    /// keeping its DPI level; no other byte changes.
    pub fn set_profile_active(&mut self, id: usize, active: bool)
        requires
            old(self).wf(),
            id < PROFILE_COUNT,
        ensures
            final(self)@ == old(self)@.update(
                PROFILES_DPI + id,
                spec_with_active(spec_profile_dpi_byte(old(self)@, id as int), active),
            ),
            dpi_byte_active(spec_profile_dpi_byte(final(self)@, id as int)) == active,
            dpi_byte_level(spec_profile_dpi_byte(final(self)@, id as int)) == dpi_byte_level(
                spec_profile_dpi_byte(old(self)@, id as int),
            ),
    {
        let at = PROFILES_DPI + id;
        let cur: u8 = self.bytes[at];
        let byte: u8 = if active {
            cur & 0x7f
        } else {
            cur | 0x80
        };
        assert((cur & 0x7f) & 0x80 == 0 && (cur & 0x7f) & 0x7f == cur & 0x7f) by (bit_vector);
        assert((cur | 0x80) & 0x80 != 0 && (cur | 0x80) & 0x7f == cur & 0x7f) by (bit_vector);
        self.bytes.set(at, byte);
    }
}

} // verus!
