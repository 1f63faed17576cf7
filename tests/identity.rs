use librarian::identity::{identity_request, parse_identity_reply};

#[test]
fn test_parse_identity_reply_single_byte_mfg() {
    // Example: Roland device
    // F0 7E 00 06 02 41 00 01 00 02 00 00 F7
    let message = vec![
        0xF0, 0x7E, 0x00, 0x06, 0x02, // Header
        0x41, // Roland manufacturer ID
        0x00, 0x01, // Family (LSB, MSB)
        0x00, 0x02, // Model (LSB, MSB)
        0x00, 0x00, // Software version
        0xF7, // End
    ];

    let result = parse_identity_reply(&message).unwrap();
    assert_eq!(result.manufacturer_id, vec![0x41]);
    assert_eq!(result.device_family, (1 << 7) | 0); // MSB << 7 | LSB
    assert_eq!(result.device_model, (2 << 7) | 0);
    assert_eq!(result.manufacturer_name(), Some("Roland (alt)"));
}

#[test]
fn test_parse_identity_reply_extended_mfg() {
    // Example: Extended manufacturer ID
    // F0 7E 00 06 02 00 01 02 00 01 00 02 00 00 F7
    let message = vec![
        0xF0, 0x7E, 0x00, 0x06, 0x02, // Header
        0x00, 0x01, 0x02, // Extended manufacturer ID
        0x00, 0x01, // Family
        0x00, 0x02, // Model
        0x00, 0x00, // Software version
        0xF7, // End
    ];

    let result = parse_identity_reply(&message).unwrap();
    assert_eq!(result.manufacturer_id, vec![0x00, 0x01, 0x02]);
    assert_eq!(result.device_family, (1 << 7) | 0);
    assert_eq!(result.device_model, (2 << 7) | 0);
}

#[test]
fn test_identity_request_format() {
    assert_eq!(
        identity_request(),
        vec![0xF0, 0x7E, 0x7F, 0x06, 0x01, 0xF7]
    );
}
