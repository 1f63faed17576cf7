use librarian::device_detection::{find_device_by_name, find_port, name_matches_pattern, MidiDeviceInfo};
use librarian::error::MidiError;
use librarian::identity::{identity_wait, parse_identity_reply, select_identity, DeviceIdentity, IdentityWait};
use librarian::pedals::microcosm::SubdivisionValue;
use librarian::pedals::chroma_console::{CharacterModule, TextureModule};
use librarian::pedals::gen_loss_mkii::TapeModel;
use librarian::pedals::microcosm::{EffectCategory, EffectType, EffectVariation, WaveformShape};

#[test]
fn banded_decode_round_trips_and_covers_all_bytes() {
    for v in [CharacterModule::Drive, CharacterModule::Swell, CharacterModule::Off] {
        assert_eq!(CharacterModule::from_cc_value(v.to_cc_value()), v);
    }
    for b in 0..=255u8 {
        let _ = TapeModel::from_cc_value(b);
        let _ = WaveformShape::from_cc_value(b);
    }
    assert_eq!(CharacterModule::from_cc_value(109), CharacterModule::Swell);
    assert_eq!(CharacterModule::from_cc_value(110), CharacterModule::Off);
    assert_eq!(TextureModule::from_cc_value(255), TextureModule::Off);
    assert_eq!(TapeModel::from_cc_value(119), TapeModel::AMU2);
    assert_eq!(TapeModel::from_cc_value(120), TapeModel::MPEX);
}

#[test]
fn program_numbers_round_trip() {
    assert_eq!(EffectType::Mosaic.program_number(EffectVariation::C), 22);
    assert_eq!(EffectType::from_program(22), Some((EffectType::Mosaic, EffectVariation::C)));
    assert_eq!(EffectType::from_program(0), Some((EffectType::Arp, EffectVariation::A)));
    assert_eq!(EffectType::from_program(43), Some((EffectType::Warp, EffectVariation::D)));
    assert_eq!(EffectType::from_program(44), None);
    assert_eq!(EffectType::Sequence.name(), "Seq");
    assert_eq!(EffectCategory::MultiPass.effects(), vec![EffectType::Pattern, EffectType::Warp]);
    assert_eq!(EffectCategory::MultiDelay.name(), "Glitch");
}

#[test]
fn identity_errors() {
    assert!(parse_identity_reply(&[0xF0, 0x7E]).is_err());
    let not_reply = [0xF0, 0x7E, 0x00, 0x06, 0x01, 0x41, 0, 1, 0, 2, 0xF7];
    assert!(parse_identity_reply(&not_reply).is_err());
    // extended manufacturer needs one more byte than the shortest reply
    let short_ext = [0xF0, 0x7E, 0x00, 0x06, 0x02, 0x00, 0x02, 0x4D, 1, 0, 2];
    assert!(parse_identity_reply(&short_ext).is_err());
    let ext = [0xF0, 0x7E, 0x00, 0x06, 0x02, 0x00, 0x02, 0x4D, 1, 0, 2, 0, 7, 9, 0xF7, 3];
    let id = parse_identity_reply(&ext).unwrap();
    assert_eq!(id.device_family, 1);
    assert_eq!(id.device_model, 2);
    assert_eq!(id.software_version, vec![7, 9]);
    assert_eq!(id.manufacturer_name(), Some("Hologram Electronics LLC"));
}

fn identity(mfg: Vec<u8>) -> DeviceIdentity {
    DeviceIdentity { manufacturer_id: mfg, device_family: 0, device_model: 0, software_version: vec![] }
}

#[test]
fn identity_prefers_pedal_over_bridge() {
    let bridge = identity(vec![0x00, 0x20, 0x63]);
    let pedal = identity(vec![0x00, 0x02, 0x4D]);
    assert_eq!(select_identity(&vec![bridge.clone(), pedal.clone()]), Some(1));
    assert_eq!(select_identity(&vec![bridge.clone(), bridge.clone()]), Some(0));
    assert_eq!(select_identity(&vec![]), None);
    assert!(bridge.is_interface());
    assert!(!pedal.matches_pedal("Microcosm"));
}

#[test]
fn port_matching_ignores_case() {
    assert!(name_matches_pattern("Hologram MICROCOSM Port 1", "microcosm"));
    assert!(!name_matches_pattern("Hologram", "microcosm"));
    let ports = vec!["a".to_string(), "Gen Loss MKII".to_string()];
    assert_eq!(find_port("GEN LOSS", &ports), Some(1));
    assert_eq!(find_port("chroma", &ports), None);
    let inputs = vec![MidiDeviceInfo { index: 0, name: "Other".to_string(), is_input: true }];
    let outputs = vec![MidiDeviceInfo { index: 4, name: "Gen Loss".to_string(), is_input: false }];
    let d = find_device_by_name("gen loss", &inputs, &outputs).unwrap();
    assert_eq!(d.index, 4);
    assert!(!d.is_input);
}

#[test]
fn identity_description_text() {
    let reply = [0xF0, 0x7E, 0x00, 0x06, 0x02, 0x41, 0x00, 0x01, 0x00, 0x02, 0x00, 0x00, 0xF7];
    let id = parse_identity_reply(&reply).unwrap();
    assert_eq!(id.description(), "Roland (alt) (ID: [41], Family: 0x80, Model: 0x100)");
    let other = DeviceIdentity {
        manufacturer_id: vec![0x00, 0x01, 0x02],
        device_family: 5,
        device_model: 0x3FFF,
        software_version: vec![],
    };
    assert_eq!(other.description(), "Unknown Manufacturer (ID: [00, 01, 02], Family: 0x05, Model: 0x3FFF)");
}

#[test]
fn identity_wait_steps() {
    assert_eq!(identity_wait(0, 500, 0), IdentityWait::Poll(50));
    assert_eq!(identity_wait(200, 500, 2), IdentityWait::Settle(100));
    assert_eq!(identity_wait(500, 500, 0), IdentityWait::Finish);
    assert_eq!(identity_wait(900, 500, 1), IdentityWait::Finish);
}

#[test]
fn subdivision_rejects_with_expected_range() {
    assert_eq!(
        SubdivisionValue::from_cc_value(6),
        Err(MidiError::InvalidValue { expected: "0-5".to_string(), actual: 6 })
    );
}
