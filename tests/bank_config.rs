use librarian::bank_config::{get_bank_config, MidiSaveCapability};
use librarian::pedals::chroma_console::ChromaConsole;
use librarian::pedals::cxm1978::Cxm1978;
use librarian::pedals::gen_loss_mkii::GenLossMkii;
use librarian::pedals::microcosm::Microcosm;

#[test]
fn test_microcosm_config() {
    let config = get_bank_config("Microcosm").unwrap();
    assert_eq!(config.program_change_start, 45);
    assert_eq!(config.program_change_end, 60);
    assert_eq!(config.total_slots(), 16);
    assert_eq!(config.format_label(45), Some("1A".to_string()));
    assert_eq!(config.format_label(48), Some("1D".to_string()));
    assert_eq!(config.format_label(49), Some("2A".to_string()));
    assert_eq!(config.format_label(60), Some("4D".to_string()));
    assert_eq!(config.get_color(45), Some("red"));
    assert_eq!(config.get_color(49), Some("yellow"));
    match &config.midi_save {
        MidiSaveCapability::Supported { cc_number, .. } => {
            assert_eq!(*cc_number, 46, "Microcosm uses CC 46 for save");
        }
        _ => panic!("Microcosm should support MIDI save"),
    }
}

#[test]
fn test_chroma_console_config() {
    let config = get_bank_config("ChromaConsole").unwrap();
    assert_eq!(config.program_change_start, 0);
    assert_eq!(config.program_change_end, 79);
    assert_eq!(config.total_slots(), 80);
    assert_eq!(config.format_label(0), Some("A-1".to_string()));
    assert_eq!(config.format_label(19), Some("A-20".to_string()));
    assert_eq!(config.format_label(20), Some("B-1".to_string()));
    assert_eq!(config.format_label(79), Some("D-20".to_string()));
    assert_eq!(config.get_color(0), Some("red"));
    assert_eq!(config.get_color(40), Some("green"));

    // Verify manual save capability
    match &config.midi_save {
        MidiSaveCapability::ManualOnly { instructions } => {
            assert!(!instructions.is_empty(), "Must provide save instructions");
        }
        _ => panic!("Chroma Console should be ManualOnly save"),
    }
}

#[test]
fn all_pedals_have_save_capability_defined() {
    // Ensure every pedal type has a complete bank config with save capability
    let pedals = ["Microcosm", "ChromaConsole"];

    for pedal in pedals {
        let config = get_bank_config(pedal)
            .expect(&format!("{} must have a BankConfig", pedal));

        // Verify save capability is properly defined
        match &config.midi_save {
            MidiSaveCapability::Supported { cc_number, description } => {
                assert!(*cc_number > 0, "{} save CC must be valid", pedal);
                assert!(!description.is_empty(), "{} must have save description", pedal);
            }
            MidiSaveCapability::ManualOnly { instructions } => {
                assert!(!instructions.is_empty(), "{} must have save instructions", pedal);
            }
            MidiSaveCapability::AutoSave => {}
        }
    }
}

#[test]
fn all_pedals_with_library_have_bank_config() {
    // This test ensures we don't forget to add BankConfig when adding a new pedal
    // If this test fails, you need to add a BankConfig for the new pedal

    let microcosm = Microcosm::new(1);
    let chroma = ChromaConsole::new(1);
    let gen_loss = GenLossMkii::new(1);

    // Pedals with preset library support must have BankConfig
    if microcosm.metadata().supports_preset_library {
        assert!(get_bank_config("Microcosm").is_some(), "Microcosm supports preset library but has no BankConfig");
    }

    if chroma.metadata().supports_preset_library {
        assert!(get_bank_config("ChromaConsole").is_some(), "ChromaConsole supports preset library but has no BankConfig");
    }

    if gen_loss.metadata().supports_preset_library {
        assert!(get_bank_config("GenLossMkii").is_some(), "GenLossMkii supports preset library but has no BankConfig");
    }
}

/// Compile-time check: All pedals must implement PedalCapabilities
#[test]
fn all_pedals_implement_capabilities() {
    let microcosm = Microcosm::new(1);
    let _metadata = microcosm.metadata();
    let _supports_pc = microcosm.supports_program_change();

    let gen_loss = GenLossMkii::new(1);
    let _metadata = gen_loss.metadata();
    let _supports_pc = gen_loss.supports_program_change();

    let chroma = ChromaConsole::new(1);
    let _metadata = chroma.metadata();
    let _supports_pc = chroma.supports_program_change();

    let cxm = Cxm1978::new(2);
    let _metadata = cxm.metadata();
    let _supports_pc = cxm.supports_program_change();
}
