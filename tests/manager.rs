use librarian::error::MidiError;
use librarian::manager::{
    chroma_console_save_steps, microcosm_save_steps, MidiManager, PedalParameter, PedalState, PedalType, SaveStep, RECALL_DELAY_MS,
};
use librarian::pedals::chroma_console::{BypassState, ChromaConsoleParameter, ChromaConsoleState};
use librarian::pedals::gen_loss_mkii::GenLossMkiiParameter;
use librarian::pedals::microcosm::{EffectType, EffectVariation, MicrocosmParameter, MicrocosmState};
use librarian::pedals::preamp_mk2::{PreampMk2State, CC_BYPASS, CC_EXPRESSION};

fn ports() -> Vec<String> {
    vec!["IAC Driver Bus 1".to_string(), "Hologram MICROCOSM".to_string(), "Chase Bliss Preamp".to_string()]
}

#[test]
fn connect_twice_fails_already_connected_and_keeps_first() {
    let mut m = MidiManager::new();
    assert_eq!(m.connect(PedalType::Microcosm, "Microcosm", 3, &ports()), Ok(1));
    let second = m.connect(PedalType::Microcosm, "Microcosm", 3, &ports());
    assert_eq!(second, Err(MidiError::AlreadyConnected("Microcosm".to_string())));
    assert!(m.is_connected("Microcosm"));
    let devices = m.connected_devices();
    assert_eq!(devices.len(), 1);
    assert_eq!(devices[0].midi_channel, 3);
    assert_eq!(devices[0].pedal_type, PedalType::Microcosm);
}

#[test]
fn send_to_unconnected_fails_not_connected() {
    let mut m = MidiManager::new();
    let p = PedalParameter::Microcosm(MicrocosmParameter::Mix(10));
    assert_eq!(m.parameter_message("Microcosm", &p), Err(MidiError::NotConnected("Microcosm".to_string())));
    assert_eq!(m.apply_outbound("Microcosm", &p), Err(MidiError::NotConnected("Microcosm".to_string())));
    assert!(m.get_state("Microcosm").is_err());
}

#[test]
fn channel_bounds() {
    let mut m = MidiManager::new();
    assert_eq!(m.connect(PedalType::Microcosm, "microcosm", 0, &ports()), Err(MidiError::InvalidChannel(0)));
    assert_eq!(m.connect(PedalType::Microcosm, "microcosm", 17, &ports()), Err(MidiError::InvalidChannel(17)));
    assert!(!m.is_connected("microcosm"));
    assert_eq!(m.connect(PedalType::Microcosm, "microcosm", 1, &ports()), Ok(1));
    assert_eq!(m.connect(PedalType::PreampMk2, "preamp", 16, &ports()), Ok(2));
}

#[test]
fn device_not_found_when_no_port_matches() {
    let mut m = MidiManager::new();
    let r = m.connect(PedalType::GenLossMkii, "Gen Loss", 1, &ports());
    assert_eq!(r, Err(MidiError::DeviceNotFound("Gen Loss".to_string())));
    assert!(!m.is_connected("Gen Loss"));
}

#[test]
fn parameter_message_and_shadow_update() {
    let mut m = MidiManager::new();
    m.connect(PedalType::Microcosm, "MICRO", 2, &ports()).unwrap();
    let p = PedalParameter::Microcosm(MicrocosmParameter::Mix(100));
    assert_eq!(m.parameter_message("MICRO", &p), Ok(vec![0xB1, 9, 100]));
    m.apply_outbound("MICRO", &p).unwrap();
    match m.get_state("MICRO").unwrap() {
        PedalState::Microcosm(s) => assert_eq!(s.mix, 100),
        _ => panic!("wrong family"),
    }
}

#[test]
fn profile_mismatch_is_other_error() {
    let mut m = MidiManager::new();
    m.connect(PedalType::Microcosm, "MICRO", 1, &ports()).unwrap();
    let p = PedalParameter::GenLossMkii(GenLossMkiiParameter::Wow(3));
    assert!(matches!(m.parameter_message("MICRO", &p), Err(MidiError::Other(_))));
}

#[test]
fn disconnect_then_not_connected() {
    let mut m = MidiManager::new();
    m.connect(PedalType::Microcosm, "MICRO", 1, &ports()).unwrap();
    assert_eq!(m.disconnect("MICRO"), Ok(()));
    assert!(!m.is_connected("MICRO"));
    assert_eq!(m.disconnect("MICRO"), Err(MidiError::NotConnected("MICRO".to_string())));
}

#[test]
fn realtime_clock_byte_changes_nothing() {
    let mut m = MidiManager::new();
    m.connect(PedalType::ChromaConsole, "hologram", 1, &ports()).unwrap();
    let before = m.get_state("hologram").unwrap();
    assert!(m.apply_inbound("hologram", &[0xF8]).is_none());
    assert!(m.apply_inbound("hologram", &[0xF8, 64, 0]).is_none());
    assert_eq!(m.get_state("hologram").unwrap(), before);
}

#[test]
fn inbound_cc_on_channel_updates_state_and_emits() {
    let mut m = MidiManager::new();
    m.connect(PedalType::ChromaConsole, "hologram", 4, &ports()).unwrap();
    let ev = m.apply_inbound("hologram", &[0xB3, 64, 12]).unwrap();
    assert_eq!(ev.device_name, "hologram");
    assert_eq!(ev.pedal_type, "ChromaConsole");
    assert_eq!(ev.channel, 4);
    assert_eq!(ev.cc_number, 64);
    assert_eq!(ev.value, 12);
    match m.get_state("hologram").unwrap() {
        PedalState::ChromaConsole(s) => assert_eq!(s.tilt, 12),
        _ => panic!("wrong family"),
    }
    // another channel is dropped
    assert!(m.apply_inbound("hologram", &[0xB0, 64, 99]).is_none());
}

#[test]
fn recall_skips_expression_and_bypass() {
    let mut m = MidiManager::new();
    m.connect(PedalType::PreampMk2, "preamp", 1, &ports()).unwrap();
    let mut s = PreampMk2State::default();
    s.expression = 90;
    s.bypass = true;
    let msgs = m.recall_messages("preamp", &PedalState::PreampMk2(s)).unwrap();
    assert_eq!(msgs.len(), 11);
    for msg in &msgs {
        assert_eq!(msg.len(), 3);
        assert_eq!(msg[0], 0xB0);
        assert_ne!(msg[1], CC_EXPRESSION);
        assert_ne!(msg[1], CC_BYPASS);
    }
    for w in msgs.windows(2) {
        assert!(w[0][1] < w[1][1]);
    }
    assert_eq!(RECALL_DELAY_MS, 20);
}

#[test]
fn recall_then_apply_sets_shadow() {
    let mut m = MidiManager::new();
    m.connect(PedalType::Microcosm, "micro", 1, &ports()).unwrap();
    let mut s = MicrocosmState::default();
    s.time = 3;
    let st = PedalState::Microcosm(s);
    assert_eq!(m.recall_messages("micro", &st).unwrap().len(), 26);
    m.apply_recall("micro", &st).unwrap();
    assert_eq!(m.get_state("micro").unwrap(), st);
}

#[test]
fn program_change_rules() {
    let mut m = MidiManager::new();
    m.connect(PedalType::Microcosm, "micro", 1, &ports()).unwrap();
    m.connect(PedalType::PreampMk2, "preamp", 2, &ports()).unwrap();
    assert_eq!(m.program_change_message(PedalType::Microcosm, "micro", 13), Ok(vec![0xC0, 13]));
    m.apply_program_change("micro", 13).unwrap();
    match m.get_state("micro").unwrap() {
        PedalState::Microcosm(s) => {
            assert_eq!(s.current_effect, EffectType::Glide);
            assert_eq!(s.current_variation, EffectVariation::B);
        }
        _ => panic!("wrong family"),
    }
    assert!(matches!(m.program_change_message(PedalType::PreampMk2, "preamp", 30), Err(MidiError::Other(_))));
    assert_eq!(m.program_change_message(PedalType::PreampMk2, "preamp", 29), Ok(vec![0xC1, 29]));
    assert_eq!(m.save_preamp_mk2_message("preamp", 5), Ok(vec![0xB1, 27, 5]));
    assert!(matches!(m.save_preamp_mk2_message("preamp", 30), Err(MidiError::Other(_))));
}

#[test]
fn microcosm_save_uses_slot_minus_one() {
    let steps = microcosm_save_steps(3);
    assert_eq!(
        steps,
        vec![
            SaveStep::ControlChange(45, 127),
            SaveStep::Wait(1000),
            SaveStep::ProgramChange(2),
            SaveStep::Wait(1000),
            SaveStep::ControlChange(46, 127),
            SaveStep::Wait(1000),
        ]
    );
}

#[test]
fn bypass_inversion() {
    assert_eq!(BypassState::Engaged.to_cc_value(), 0);
    assert_eq!(BypassState::Bypass.to_cc_value(), 127);
    assert_eq!(BypassState::from_standard_cc(100), BypassState::Bypass);
    let mut s = ChromaConsoleState::default();
    s.update_from_cc(91, 100);
    assert_eq!(s.bypass_state, BypassState::Bypass);
    s.update_from_cc(91, 10);
    assert_eq!(s.bypass_state, BypassState::Engaged);
    s.update_from_cc(92, 40);
    assert_eq!(s.bypass_state, BypassState::DualBypass);
    assert_eq!(ChromaConsoleParameter::BypassState(BypassState::Engaged).cc_value(), 0);
    assert_eq!(ChromaConsoleParameter::CharacterBypass(true).cc_value(), 0);
}

#[test]
fn microcosm_inbound_decodes_by_profile() {
    let mut m = MidiManager::new();
    m.connect(PedalType::Microcosm, "micro", 1, &ports()).unwrap();
    assert!(m.apply_inbound("micro", &[0xB0, 7, 70]).is_some());
    assert!(m.apply_inbound("micro", &[0xB0, 5, 9]).is_some());
    assert!(m.apply_inbound("micro", &[0xB0, 22, 64]).is_some());
    match m.get_state("micro").unwrap() {
        PedalState::Microcosm(s) => {
            assert_eq!(s.shape, librarian::pedals::microcosm::WaveformShape::Triangle);
            // 9 names no subdivision: the stored one stays
            assert_eq!(s.subdivision, librarian::pedals::microcosm::SubdivisionValue::QuarterNote);
            assert!(s.looper_enabled);
        }
        _ => panic!("wrong family"),
    }
}

#[test]
fn value_above_127_is_invalid_and_not_stored() {
    let mut m = MidiManager::new();
    m.connect(PedalType::ChromaConsole, "hologram", 1, &ports()).unwrap();
    let p = PedalParameter::ChromaConsole(ChromaConsoleParameter::Tilt(200));
    let expected = Err(MidiError::InvalidValue { expected: "0-127".to_string(), actual: 200 });
    assert_eq!(m.parameter_message("hologram", &p), expected);
    let before = m.get_state("hologram").unwrap();
    assert_eq!(m.apply_outbound("hologram", &p), Err(MidiError::InvalidValue { expected: "0-127".to_string(), actual: 200 }));
    assert_eq!(m.get_state("hologram").unwrap(), before);
    let ok = PedalParameter::ChromaConsole(ChromaConsoleParameter::Tilt(127));
    assert_eq!(m.parameter_message("hologram", &ok), Ok(vec![0xB0, 64, 127]));
}

#[test]
fn preamp_slot_checked_before_connection() {
    let m = MidiManager::new();
    assert_eq!(
        m.program_change_message(PedalType::PreampMk2, "nothing", 30),
        Err(MidiError::Other("Invalid preset slot: must be 0-29".to_string()))
    );
    assert_eq!(
        m.program_change_message(PedalType::PreampMk2, "nothing", 29),
        Err(MidiError::NotConnected("nothing".to_string()))
    );
    assert!(matches!(m.program_change_message(PedalType::GenLossMkii, "nothing", 1), Err(MidiError::Other(_))));
}

#[test]
fn mismatch_names_requested_family() {
    let mut m = MidiManager::new();
    m.connect(PedalType::Microcosm, "micro", 1, &ports()).unwrap();
    let st = PedalState::ChromaConsole(ChromaConsoleState::default());
    assert_eq!(
        m.recall_messages("micro", &st),
        Err(MidiError::Other("Device is not a Chroma Console".to_string()))
    );
    assert_eq!(
        m.program_change_message(PedalType::ChromaConsole, "micro", 3),
        Err(MidiError::Other("Device is not a Chroma Console".to_string()))
    );
}

#[test]
fn chroma_console_save_sends_slot_directly() {
    assert_eq!(
        chroma_console_save_steps(7),
        vec![SaveStep::ProgramChange(7), SaveStep::Wait(50), SaveStep::RecallPreset]
    );
}
