use librarian::bank_config::get_bank_config;
use librarian::presets::{BankNumber, PresetError, PresetFilter, PresetId};

#[test]
fn test_preset_id_new() {
    let id = PresetId::new("test-id-123".to_string());
    assert_eq!(id.as_str(), "test-id-123");
}

#[test]
fn test_preset_id_display() {
    let id = PresetId::new("test-id-456".to_string());
    assert_eq!(id.to_string(), "test-id-456");
}

#[test]
fn test_preset_id_equality() {
    let id1 = PresetId::new("same-id".to_string());
    let id2 = PresetId::new("same-id".to_string());
    let id3 = PresetId::new("different-id".to_string());

    assert_eq!(id1, id2);
    assert_ne!(id1, id3);
}

#[test]
fn test_bank_number_valid() {
    let config = get_bank_config("Microcosm").unwrap();

    // Valid bank number in range (45-60)
    let bank = BankNumber::new(45, &config).unwrap();
    assert_eq!(bank.value(), 45);
}

#[test]
fn test_bank_number_invalid_too_low() {
    let config = get_bank_config("Microcosm").unwrap();

    // Below minimum (45)
    let result = BankNumber::new(44, &config);
    assert!(result.is_err());

    match result {
        Err(PresetError::InvalidBankNumber { value, min, max }) => {
            assert_eq!(value, 44);
            assert_eq!(min, 45);
            assert_eq!(max, 60);
        }
        _ => panic!("Expected InvalidBankNumber error"),
    }
}

#[test]
fn test_bank_number_invalid_too_high() {
    let config = get_bank_config("Microcosm").unwrap();

    // Above maximum (60)
    let result = BankNumber::new(61, &config);
    assert!(result.is_err());

    match result {
        Err(PresetError::InvalidBankNumber { value, min, max }) => {
            assert_eq!(value, 61);
            assert_eq!(min, 45);
            assert_eq!(max, 60);
        }
        _ => panic!("Expected InvalidBankNumber error"),
    }
}

#[test]
fn test_bank_number_label() {
    let config = get_bank_config("Microcosm").unwrap();

    let bank = BankNumber::new(45, &config).unwrap();
    let label = bank.label();

    // Label should start with "Bank "
    assert!(label.starts_with("Bank "));
}

#[test]
fn test_bank_number_color() {
    let config = get_bank_config("Microcosm").unwrap();

    // Bank 45-48 should be red
    let bank = BankNumber::new(45, &config).unwrap();
    assert_eq!(bank.color(), "red");
}

#[test]
fn test_preset_filter_default() {
    let filter = PresetFilter::default();

    assert!(filter.pedal_type.is_none());
    assert_eq!(filter.tags.len(), 0);
    assert!(filter.is_favorite.is_none());
    assert!(filter.search_query.is_none());
}

#[test]
fn bank_number_label_of_last_chroma_slot() {
    let config = get_bank_config("ChromaConsole").unwrap();
    let bank = BankNumber::new(79, &config).unwrap();
    assert_eq!(bank.label(), "Bank D-20");
    assert_eq!(bank.color(), "blue");
}

#[test]
fn bank_config_unknown_pedal_has_none() {
    assert!(get_bank_config("GenLossMkii").is_none());
    assert!(get_bank_config("microcosm").is_none());
}

#[test]
fn bank_config_out_of_range_label_is_none() {
    let config = get_bank_config("Microcosm").unwrap();
    assert_eq!(config.format_label(44), None);
    assert_eq!(config.format_label(61), None);
    assert_eq!(config.get_color(61), None);
    assert_eq!(config.get_bank_index(52), Some(1));
    assert_eq!(config.get_slot_index(52), Some(3));
    assert_eq!(config.format_label(52), Some("2D".to_string()));
}
