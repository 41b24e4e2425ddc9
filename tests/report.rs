use gm4_core::config::Config;
use gm4_core::protocol::error::ProtocolError;
use gm4_core::protocol::led::{blink, breathe, neon, steady, Effect};
use gm4_core::protocol::{decode_dpi, encode_dpi, ConfigData};
use gm4_core::usb::{find_target_device, is_target_device, PRODUCT_ID, VENDOR_ID};

fn factory_bytes() -> Vec<u8> {
    ConfigData::default().as_bytes().to_vec()
}

fn config_with(edit: impl Fn(&mut Vec<u8>)) -> Config {
    let mut bytes = factory_bytes();
    edit(&mut bytes);
    Config::new(ConfigData::from_bytes(&bytes).unwrap()).unwrap()
}

fn changed_offsets(before: &[u8], after: &[u8]) -> Vec<usize> {
    assert_eq!(before.len(), after.len());
    (0..before.len()).filter(|&i| before[i] != after[i]).collect()
}

#[test]
fn factory_report_has_the_documented_fields() {
    let data = ConfigData::default();
    assert_eq!(data.as_bytes().len(), 154);
    assert_eq!(data.as_bytes()[0], 0x04);
    assert_eq!(data.report_rate(), 0x3c);
    assert_eq!(data.active_profiles_list_len(), 0x35);
    assert_eq!(data.led_mode(), 0x22);
    assert_eq!(data.led_arg1(), 0x00);
    assert_eq!(data.led_arg2(), 0x00);
    assert_eq!(data.led_arg3(), 0x12);
    assert_eq!(
        data.profiles_dpi(),
        Ok([(true, 0), (true, 3), (true, 4), (true, 6), (true, 15)])
    );
    assert_eq!(
        data.profiles_rgb(),
        [[0xff, 0x00, 0x00], [0x00, 0x00, 0xff], [0x00, 0xff, 0x00], [0xff, 0x00, 0xff], [0xff, 0xff, 0x00]]
    );
}

#[test]
fn report_of_wrong_length_is_rejected() {
    let bytes = factory_bytes();
    assert_eq!(ConfigData::from_bytes(&bytes[..153]).unwrap_err(), ProtocolError::InvalidRawInput);
    assert_eq!(ConfigData::from_bytes(&[]).unwrap_err(), ProtocolError::InvalidRawInput);
    let mut longer = bytes.clone();
    longer.push(0);
    assert_eq!(ConfigData::from_bytes(&longer).unwrap_err(), ProtocolError::InvalidRawInput);
    let ok = ConfigData::from_bytes(&bytes).unwrap();
    assert_eq!(ok.as_bytes(), &bytes[..]);
}

#[test]
fn dpi_byte_polarity_and_offset() {
    assert_eq!(decode_dpi(0x01), Ok((true, 0)));
    assert_eq!(decode_dpi(0x81), Ok((false, 0)));
    assert_eq!(decode_dpi(0x7f), Ok((true, 126)));
    assert_eq!(decode_dpi(0xff), Ok((false, 126)));
    assert_eq!(decode_dpi(0x00), Err(ProtocolError::InvalidRawInput));
    assert_eq!(decode_dpi(0x80), Err(ProtocolError::InvalidRawInput));
    assert_eq!(encode_dpi(true, 3), Ok(0x04));
    assert_eq!(encode_dpi(false, 3), Ok(0x84));
    assert_eq!(encode_dpi(true, 127), Err(ProtocolError::InvalidRawInput));
    assert_eq!(encode_dpi(false, 255), Err(ProtocolError::InvalidRawInput));
}

#[test]
fn every_dpi_pair_round_trips() {
    for active in [true, false] {
        for dpi in 0..=126u8 {
            let raw = encode_dpi(active, dpi).unwrap();
            assert_eq!(decode_dpi(raw), Ok((active, dpi)));
        }
    }
}

#[test]
fn model_decodes_the_factory_report() {
    let config = Config::default();
    assert_eq!(*config.led_config(), gm4_core::protocol::led::Config::Breathe(breathe::Speed::S4));
    let p = config.profiles();
    assert!(p.iter().all(|p| p.active));
    assert_eq!(p[0].dpi, 0);
    assert_eq!(p[4].dpi, 15);
    assert_eq!(p[1].rgb, [0x00, 0x00, 0xff]);
    assert_eq!(config.raw_report().as_bytes(), &factory_bytes()[..]);
}

#[test]
fn model_rejects_undecodable_reports() {
    let mut bytes = factory_bytes();
    bytes[93] = 0x99;
    let r = Config::new(ConfigData::from_bytes(&bytes).unwrap());
    assert!(matches!(r, Err(ProtocolError::InvalidRawInput)));

    let mut bytes = factory_bytes();
    bytes[76] = 0x80;
    let r = Config::new(ConfigData::from_bytes(&bytes).unwrap());
    assert!(matches!(r, Err(ProtocolError::InvalidRawInput)));
}

#[test]
fn deactivating_a_profile_lowers_the_stored_count() {
    let mut config = config_with(|b| b[71] = 0x25);
    let before = config.raw_report().active_profiles_list_len();
    config.set_profile_active(2, false);
    assert!(!config.profiles()[2].active);
    assert_eq!(config.raw_report().active_profiles_list_len(), before - 1);
    assert_eq!(config.raw_report().as_bytes()[76], 0x85);
    assert_eq!(config.profiles()[2].dpi, 4);
}

#[test]
fn active_count_follows_every_change() {
    let mut config = Config::default();
    let steps = [(0, false), (1, false), (0, true), (4, false), (3, false), (2, false), (1, false), (0, false), (0, false), (2, true)];
    for (id, active) in steps {
        config.set_profile_active(id, active);
        let n = config.profiles().iter().filter(|p| p.active).count() as u8;
        assert_eq!(config.raw_report().active_profiles_list_len() - 0x20, n);
    }
    config.set_profile_active(2, false);
    assert_eq!(config.raw_report().active_profiles_list_len(), 0x20);
}

#[test]
fn set_profile_dpi_keeps_active_flag_and_other_bytes() {
    let mut config = Config::default();
    config.set_profile_active(1, false);
    let before = config.raw_report().as_bytes().to_vec();
    config.set_profile_dpi(1, 9);
    assert_eq!(config.profiles()[1].dpi, 9);
    assert!(!config.profiles()[1].active);
    let after = config.raw_report().as_bytes().to_vec();
    assert_eq!(after[75], 0x8a);
    assert_eq!(changed_offsets(&before, &after), vec![75]);
    config.set_profile_dpi(0, 126);
    assert_eq!(config.raw_report().as_bytes()[74], 0x7f);
}

#[test]
fn set_profile_rgb_touches_only_its_triple() {
    let mut config = Config::default();
    let before = config.raw_report().as_bytes().to_vec();
    config.set_profile_rgb(3, [0x12, 0x34, 0x56]);
    assert_eq!(config.profiles()[3].rgb, [0x12, 0x34, 0x56]);
    let after = config.raw_report().as_bytes().to_vec();
    assert_eq!(&after[109..112], &[0x12, 0x34, 0x56]);
    assert_eq!(changed_offsets(&before, &after), vec![109, 110, 111]);
    assert_eq!(config.raw_report().profiles_rgb()[3], [0x12, 0x34, 0x56]);
}

#[test]
fn set_led_effect_touches_only_led_bytes() {
    let mut config = Config::default();
    let before = config.raw_report().as_bytes().to_vec();
    let led = gm4_core::protocol::led::Config::BlinkEffect(
        blink::Frequency::Hz3,
        blink::Times::T4,
        Effect::Neon(neon::Speed::S1),
    );
    config.set_led_effect(led);
    assert_eq!(*config.led_config(), led);
    let after = config.raw_report().as_bytes().to_vec();
    assert_eq!(&after[93..97], &[0x48, 0x03, 0x04, 0x20]);
    assert_eq!(changed_offsets(&before, &after), vec![93, 94, 95, 96]);

    let led = gm4_core::protocol::led::Config::SteadyEffect(
        steady::EffectTime::S1,
        Effect::Steady(steady::Brightnes::P25),
    );
    config.set_led_effect(led);
    assert_eq!(&config.raw_report().as_bytes()[93..97], &[0x84, 0x02, 0x00, 0x32]);
    let reread = Config::new(ConfigData::from_bytes(config.raw_report().as_bytes()).unwrap()).unwrap();
    assert_eq!(*reread.led_config(), led);
}

#[test]
fn raw_setters_touch_only_their_fields() {
    let mut data = ConfigData::default();
    let before = data.as_bytes().to_vec();
    data.set_report_rate(0x01);
    data.set_active_profiles_list_len(3);
    data.set_profile_dpi(4, 0);
    data.set_profile_active(0, false);
    data.set_profile_rgb(0, [1, 2, 3]);
    let after = data.as_bytes().to_vec();
    assert_eq!(changed_offsets(&before, &after), vec![8, 71, 74, 78, 100, 101, 102]);
    assert_eq!(data.report_rate(), 0x01);
    assert_eq!(data.active_profiles_list_len(), 0x23);
    assert_eq!(data.profile_dpi(4), Ok((true, 0)));
    assert_eq!(data.profile_dpi(0), Ok((false, 0)));
    assert_eq!(data.profile_rgb(0), [1, 2, 3]);
    data.set_profile_active(0, true);
    assert_eq!(data.as_bytes()[74], 0x01);
}

#[test]
fn only_the_mouse_matches() {
    assert!(is_target_device(0x258a, 0x1007));
    assert!(is_target_device(VENDOR_ID, PRODUCT_ID));
    assert!(!is_target_device(0x258a, 0x1008));
    assert!(!is_target_device(0x046d, 0x1007));
}

#[test]
fn first_matching_device_is_found() {
    let ids = [None, Some((0x046d, 0xc077)), Some((0x258a, 0x1007)), Some((0x258a, 0x1007))];
    assert_eq!(find_target_device(&ids), Some(2));
    assert_eq!(find_target_device(&[None, Some((0x258a, 0x1008))]), None);
    assert_eq!(find_target_device(&[]), None);
}

#[test]
fn dpi_and_active_flag_read_back_in_either_order() {
    for (id, active, dpi) in [(0usize, false, 9u8), (2, true, 126), (4, false, 0)] {
        let mut data = ConfigData::default();
        data.set_profile_active(id, active);
        data.set_profile_dpi(id, dpi);
        assert_eq!(data.profiles_dpi().unwrap()[id], (active, dpi));

        let mut data = ConfigData::default();
        data.set_profile_dpi(id, dpi);
        data.set_profile_active(id, active);
        assert_eq!(data.profiles_dpi().unwrap()[id], (active, dpi));
    }
}

#[test]
fn error_message_names_the_error() {
    assert_eq!(ProtocolError::InvalidRawInput.message(), "InvalidRawInput");
}
