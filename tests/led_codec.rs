use gm4_core::protocol::error::ProtocolError;
use gm4_core::protocol::led::{blink, breathe, neon, steady, Config, Effect};
use gm4_core::protocol::ConfigData;
use steady::Brightnes;

#[test]
fn speed() {
    assert_eq!(0x12, breathe::Speed::S4.to_raw());
    assert_eq!(0x22, breathe::Speed::S5.to_raw());
    assert_eq!(0x32, breathe::Speed::S6.to_raw());
    assert_eq!(0x42, breathe::Speed::S7.to_raw());
    assert_eq!(0x52, breathe::Speed::S8.to_raw());
}

#[test]
fn brightnes() {
    assert_eq!(0x12, Brightnes::P5.to_raw());
    assert_eq!(0x22, Brightnes::P15.to_raw());
    assert_eq!(0x32, Brightnes::P25.to_raw());
    assert_eq!(0x42, Brightnes::P35.to_raw());
    assert_eq!(0x52, Brightnes::P45.to_raw());
    assert_eq!(0x62, Brightnes::P55.to_raw());
    assert_eq!(0x72, Brightnes::P65.to_raw());
    assert_eq!(0x82, Brightnes::P75.to_raw());
    assert_eq!(0x92, Brightnes::P85.to_raw());
    assert_eq!(0xa2, Brightnes::P100.to_raw());
}

#[test]
fn steady() {
    let mut data = ConfigData::default();

    let list = vec![
        (0x12, Brightnes::P5),
        (0x22, Brightnes::P15),
        (0x32, Brightnes::P25),
        (0x42, Brightnes::P35),
        (0x52, Brightnes::P45),
        (0x62, Brightnes::P55),
        (0x72, Brightnes::P65),
        (0x82, Brightnes::P75),
        (0x92, Brightnes::P85),
        (0xa2, Brightnes::P100),
    ];

    for (v, p) in list.into_iter() {
        let (lm, la1, la2, la3) = Config::Steady(p).to_raw();
        data.set_led_config(lm, la1, la2, la3);
        assert_eq!(v, data.led_arg3());
    }
}

#[test]
fn breathe() {
    let mut data = ConfigData::default();

    let (lm, la1, la2, la3) = Config::Breathe(breathe::Speed::S4).to_raw();
    data.set_led_config(lm, la1, la2, la3);
    assert_eq!(0x12, data.led_arg3());

    let (lm, la1, la2, la3) = Config::Breathe(breathe::Speed::S5).to_raw();
    data.set_led_config(lm, la1, la2, la3);
    assert_eq!(0x22, data.led_arg3());

    let (lm, la1, la2, la3) = Config::Breathe(breathe::Speed::S6).to_raw();
    data.set_led_config(lm, la1, la2, la3);
    assert_eq!(0x32, data.led_arg3());

    let (lm, la1, la2, la3) = Config::Breathe(breathe::Speed::S7).to_raw();
    data.set_led_config(lm, la1, la2, la3);
    assert_eq!(0x42, data.led_arg3());

    let (lm, la1, la2, la3) = Config::Breathe(breathe::Speed::S8).to_raw();
    data.set_led_config(lm, la1, la2, la3);
    assert_eq!(0x52, data.led_arg3());
}

#[test]
fn brightness_ids_encode_affinely() {
    assert_eq!(steady::Brightnes::from_id(1).unwrap().to_raw(), 0x12);
    assert_eq!(steady::Brightnes::from_id(10).unwrap().to_raw(), 0xa2);
    assert_eq!(steady::Brightnes::from_id(1).unwrap(), steady::Brightnes::P5);
    assert_eq!(steady::Brightnes::from_id(10).unwrap(), steady::Brightnes::P100);
}

#[test]
fn breathe_ids_encode_affinely() {
    assert_eq!(breathe::Speed::from_id(1).unwrap().to_raw(), 0x12);
    assert_eq!(breathe::Speed::from_id(5).unwrap().to_raw(), 0x52);
    assert_eq!(breathe::Speed::from_id(5).unwrap(), breathe::Speed::S8);
}

#[test]
fn neon_and_identity_scales_encode() {
    assert_eq!(neon::Speed::S0_5.to_raw(), 0x10);
    assert_eq!(neon::Speed::S7_5.to_raw(), 0xf0);
    assert_eq!(blink::Frequency::Hz5.to_raw(), 5);
    assert_eq!(blink::Times::T10.to_raw(), 10);
    assert_eq!(steady::EffectTime::S5.to_raw(), 10);
}

#[test]
fn ordinals_outside_their_scale_are_rejected() {
    assert_eq!(steady::Brightnes::from_id(0), Err(ProtocolError::InvalidRawInput));
    assert_eq!(steady::Brightnes::from_id(11), Err(ProtocolError::InvalidRawInput));
    assert_eq!(breathe::Speed::from_id(6), Err(ProtocolError::InvalidRawInput));
    assert_eq!(neon::Speed::from_id(16), Err(ProtocolError::InvalidRawInput));
    assert_eq!(blink::Frequency::from_id(0), Err(ProtocolError::InvalidRawInput));
    assert_eq!(blink::Times::from_id(11), Err(ProtocolError::InvalidRawInput));
    assert_eq!(steady::EffectTime::from_id(11), Err(ProtocolError::InvalidRawInput));
}

#[test]
fn raw_bytes_outside_their_scale_are_rejected() {
    assert_eq!(steady::Brightnes::from_raw(0x00), Err(ProtocolError::InvalidRawInput));
    assert_eq!(steady::Brightnes::from_raw(0x01), Err(ProtocolError::InvalidRawInput));
    assert_eq!(steady::Brightnes::from_raw(0x02), Err(ProtocolError::InvalidRawInput));
    assert_eq!(steady::Brightnes::from_raw(0xb2), Err(ProtocolError::InvalidRawInput));
    assert_eq!(breathe::Speed::from_raw(0x62), Err(ProtocolError::InvalidRawInput));
    assert_eq!(neon::Speed::from_raw(0x0f), Err(ProtocolError::InvalidRawInput));
    assert_eq!(blink::Frequency::from_raw(0), Err(ProtocolError::InvalidRawInput));
    assert_eq!(blink::Times::from_raw(11), Err(ProtocolError::InvalidRawInput));
}

#[test]
fn raw_bytes_decode_by_integer_division() {
    assert_eq!(steady::Brightnes::from_raw(0x12), Ok(steady::Brightnes::P5));
    assert_eq!(steady::Brightnes::from_raw(0x1f), Ok(steady::Brightnes::P5));
    assert_eq!(steady::Brightnes::from_raw(0xa2), Ok(steady::Brightnes::P100));
    assert_eq!(neon::Speed::from_raw(0xf0), Ok(neon::Speed::S7_5));
    assert_eq!(neon::Speed::from_raw(0x40), Ok(neon::Speed::S2));
}

#[test]
fn blink_with_respiration_decodes() {
    let arg3 = breathe::Speed::from_id(2).unwrap().to_raw();
    let c = Config::from_raw(0x42, 0x05, 0x03, arg3);
    assert_eq!(
        c,
        Ok(Config::BlinkEffect(
            blink::Frequency::Hz5,
            blink::Times::T3,
            Effect::Respiration(breathe::Speed::S5)
        ))
    );
}

#[test]
fn unknown_led_mode_is_rejected() {
    assert_eq!(Config::from_raw(0x99, 0, 0, 0x12), Err(ProtocolError::InvalidRawInput));
    assert_eq!(Config::from_raw(0x00, 0, 0, 0x12), Err(ProtocolError::InvalidRawInput));
    assert_eq!(Config::from_raw(0x41, 1, 1, 0x12), Err(ProtocolError::InvalidRawInput));
}

#[test]
fn composite_modes_select_the_nested_effect() {
    assert_eq!(
        Config::from_raw(0x48, 1, 2, 0x30),
        Ok(Config::BlinkEffect(blink::Frequency::Hz1, blink::Times::T2, Effect::Neon(neon::Speed::S1_5)))
    );
    assert_eq!(
        Config::from_raw(0x44, 10, 10, 0xa2),
        Ok(Config::BlinkEffect(
            blink::Frequency::Hz10,
            blink::Times::T10,
            Effect::Steady(steady::Brightnes::P100)
        ))
    );
    assert_eq!(
        Config::from_raw(0x82, 4, 0, 0x12),
        Ok(Config::SteadyEffect(steady::EffectTime::S2, Effect::Respiration(breathe::Speed::S4)))
    );
    assert_eq!(
        Config::from_raw(0x88, 1, 0, 0x10),
        Ok(Config::SteadyEffect(steady::EffectTime::S0_5, Effect::Neon(neon::Speed::S0_5)))
    );
    assert_eq!(
        Config::from_raw(0x84, 10, 0, 0x92),
        Ok(Config::SteadyEffect(steady::EffectTime::S5, Effect::Steady(steady::Brightnes::P85)))
    );
}

#[test]
fn middle_selector_reads_a_brightness_and_high_selector_a_neon_speed() {
    assert_eq!(
        Config::from_raw(0x44, 1, 1, 0x12),
        Ok(Config::BlinkEffect(blink::Frequency::Hz1, blink::Times::T1, Effect::Steady(steady::Brightnes::P5)))
    );
    assert_eq!(Config::from_raw(0x44, 1, 1, 0x10), Err(ProtocolError::InvalidRawInput));
    assert_eq!(
        Config::from_raw(0x48, 1, 1, 0x12),
        Ok(Config::BlinkEffect(blink::Frequency::Hz1, blink::Times::T1, Effect::Neon(neon::Speed::S0_5)))
    );
    assert_eq!(
        Config::from_raw(0x84, 2, 0, 0x22),
        Ok(Config::SteadyEffect(steady::EffectTime::S1, Effect::Steady(steady::Brightnes::P15)))
    );
    assert_eq!(Config::from_raw(0x84, 2, 0, 0x10), Err(ProtocolError::InvalidRawInput));
    assert_eq!(
        Config::from_raw(0x88, 2, 0, 0x10),
        Ok(Config::SteadyEffect(steady::EffectTime::S1, Effect::Neon(neon::Speed::S0_5)))
    );
    assert_eq!(
        Config::SteadyEffect(steady::EffectTime::S1, Effect::Neon(neon::Speed::S1)).to_raw(),
        (0x88, 2, 0, 0x20)
    );
    assert_eq!(
        Config::BlinkEffect(blink::Frequency::Hz1, blink::Times::T1, Effect::Steady(steady::Brightnes::P5)).to_raw(),
        (0x44, 1, 1, 0x12)
    );
}

#[test]
fn ordinals_of_levels() {
    assert_eq!(steady::Brightnes::P5.ordinal(), 1);
    assert_eq!(steady::Brightnes::P100.ordinal(), 10);
    assert_eq!(steady::EffectTime::S3.ordinal(), 6);
    assert_eq!(breathe::Speed::S8.ordinal(), 5);
    assert_eq!(neon::Speed::S7_5.ordinal(), 15);
    assert_eq!(blink::Frequency::Hz7.ordinal(), 7);
    assert_eq!(blink::Times::T2.ordinal(), 2);
    for id in 1..=15u8 {
        assert_eq!(neon::Speed::from_id(id).unwrap().ordinal(), id);
    }
}

#[test]
fn led_configs_encode_with_zeroed_unused_slots() {
    assert_eq!(Config::Steady(steady::Brightnes::P45).to_raw(), (0x28, 0, 0, 0x52));
    assert_eq!(Config::Breathe(breathe::Speed::S6).to_raw(), (0x22, 0, 0, 0x32));
    assert_eq!(
        Config::BlinkEffect(blink::Frequency::Hz2, blink::Times::T7, Effect::Neon(neon::Speed::S3)).to_raw(),
        (0x48, 2, 7, 0x60)
    );
    assert_eq!(
        Config::SteadyEffect(steady::EffectTime::S3_5, Effect::Steady(steady::Brightnes::P5)).to_raw(),
        (0x84, 7, 0, 0x12)
    );
}

#[test]
fn bad_argument_of_a_known_mode_is_rejected() {
    assert_eq!(Config::from_raw(0x28, 0, 0, 0x01), Err(ProtocolError::InvalidRawInput));
    assert_eq!(Config::from_raw(0x42, 0, 3, 0x12), Err(ProtocolError::InvalidRawInput));
    assert_eq!(Config::from_raw(0x42, 1, 0, 0x12), Err(ProtocolError::InvalidRawInput));
    assert_eq!(Config::from_raw(0x82, 11, 0, 0x12), Err(ProtocolError::InvalidRawInput));
}

fn all_effects() -> Vec<Effect> {
    let mut out = Vec::new();
    for id in 1..=5u8 {
        out.push(Effect::Respiration(breathe::Speed::from_id(id).unwrap()));
    }
    for id in 1..=10u8 {
        out.push(Effect::Steady(steady::Brightnes::from_id(id).unwrap()));
    }
    for id in 1..=15u8 {
        out.push(Effect::Neon(neon::Speed::from_id(id).unwrap()));
    }
    out
}

#[test]
fn every_led_config_round_trips() {
    let mut all = Vec::new();
    for id in 1..=10u8 {
        all.push(Config::Steady(steady::Brightnes::from_id(id).unwrap()));
    }
    for id in 1..=5u8 {
        all.push(Config::Breathe(breathe::Speed::from_id(id).unwrap()));
    }
    for f in 1..=10u8 {
        for t in 1..=10u8 {
            for e in all_effects() {
                all.push(Config::BlinkEffect(
                    blink::Frequency::from_id(f).unwrap(),
                    blink::Times::from_id(t).unwrap(),
                    e,
                ));
            }
        }
    }
    for t in 1..=10u8 {
        for e in all_effects() {
            all.push(Config::SteadyEffect(steady::EffectTime::from_id(t).unwrap(), e));
        }
    }
    assert_eq!(all.len(), 10 + 5 + 100 * 30 + 10 * 30);
    for c in all {
        let (m, a1, a2, a3) = c.to_raw();
        assert!([0x28, 0x22, 0x42, 0x44, 0x48, 0x82, 0x84, 0x88].contains(&m));
        assert_eq!(Config::from_raw(m, a1, a2, a3), Ok(c));
    }
}

#[test]
fn defaults_match_the_factory_levels() {
    assert_eq!(steady::Brightnes::default(), steady::Brightnes::P85);
    assert_eq!(breathe::Speed::default(), breathe::Speed::S4);
    assert_eq!(neon::Speed::default(), neon::Speed::S2);
    assert_eq!(blink::Frequency::default(), blink::Frequency::Hz1);
    assert_eq!(blink::Times::default(), blink::Times::T3);
    assert_eq!(Effect::default(), Effect::Respiration(breathe::Speed::S4));
    assert_eq!(Config::default(), Config::Breathe(breathe::Speed::S4));
    assert_eq!(ProtocolError::InvalidRawInput.message(), "InvalidRawInput");
}
