use cbf_parser::cli::{cli_error_message, is_hex, to_hex};

#[test]
fn is_hex_accepts_prefixed_digits() {
    assert!(is_hex(&String::from("0x11")));
    assert!(is_hex(&String::from("0xF18C")));
    assert!(is_hex(&String::from("0x1a2B")));
    assert!(is_hex(&String::from("0x")));
}

#[test]
fn is_hex_rejects_everything_else() {
    assert!(!is_hex(&String::from("11")));
    assert!(!is_hex(&String::from("0x1G")));
    assert!(!is_hex(&String::from("")));
    assert!(!is_hex(&String::from("x11")));
}

#[test]
fn to_hex_parses_byte_pairs() {
    assert_eq!(to_hex(&String::from("0x11")), vec![0x11]);
    assert_eq!(to_hex(&String::from("0xF18C")), vec![0xf1, 0x8c]);
    assert_eq!(to_hex(&String::from("0102ff")), vec![0x01, 0x02, 0xff]);
    assert_eq!(to_hex(&String::from("")), Vec::<u8>::new());
    assert_eq!(to_hex(&String::from("0x")), Vec::<u8>::new());
}

#[test]
fn error_message_wording() {
    assert_eq!(cli_error_message(1, ""), "error: empty value for '--sid <SID>'");
    assert_eq!(
        cli_error_message(1, "zz"),
        "error: invalid value 'zz' for '--sid <SID>': expect hex format (e.g 0x11 for ECU RESET)"
    );
    assert_eq!(cli_error_message(2, ""), "error: empty value for '--did <DID>'");
    assert_eq!(
        cli_error_message(2, "0x1"),
        "error: invalid value '0x1' for '--did <DID>': expect hex format (e.g 0xF18C for ECU Serial#)"
    );
    assert_eq!(cli_error_message(3, "x"), "");
}
