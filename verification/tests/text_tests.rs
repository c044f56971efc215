use universal_interface_adapter::text::{
    concat3, format_hex_list, format_hex_u32, format_hex_u8, format_u16, format_u32,
    parse_hex_data, parse_hex_u32, parse_hex_u8, parse_suffixed_rate, parse_u16,
    parse_u32, parse_usize, str_eq, str_gt, string_of,
};

#[test]
fn decimal_formatting() {
    assert_eq!(format_u32(0), "0");
    assert_eq!(format_u32(7), "7");
    assert_eq!(format_u32(1234567), "1234567");
    assert_eq!(format_u32(u32::MAX), "4294967295");
    assert_eq!(format_u16(0), "0");
    assert_eq!(format_u16(65535), "65535");
}

#[test]
fn decimal_parsing() {
    assert_eq!(parse_u32("42"), Some(42));
    assert_eq!(parse_u32("+7"), Some(7));
    assert_eq!(parse_u32("007"), Some(7));
    assert_eq!(parse_u32("4294967295"), Some(u32::MAX));
    assert_eq!(parse_u32("4294967296"), None);
    assert_eq!(parse_u32(""), None);
    assert_eq!(parse_u32("+"), None);
    assert_eq!(parse_u32("-1"), None);
    assert_eq!(parse_u32("1 2"), None);
    assert_eq!(parse_u16("65535"), Some(65535));
    assert_eq!(parse_u16("65536"), None);
    assert_eq!(parse_usize("256"), Some(256));
    assert_eq!(parse_usize("x"), None);
}

#[test]
fn hex_byte_parsing() {
    assert_eq!(parse_hex_u8("0x5A"), Some(0x5A));
    assert_eq!(parse_hex_u8("5a"), Some(0x5A));
    assert_eq!(parse_hex_u8("0XFF"), Some(0xFF));
    assert_eq!(parse_hex_u8("0x0X1F"), Some(0x1F));
    assert_eq!(parse_hex_u8("0X0x1F"), None);
    assert_eq!(parse_hex_u8("0x100"), None);
    assert_eq!(parse_hex_u8("0x"), None);
    assert_eq!(parse_hex_u8("G1"), None);
    assert_eq!(parse_hex_u32("0x7F0"), Some(0x7F0));
    assert_eq!(parse_hex_u32("FFFFFFFF"), Some(u32::MAX));
    assert_eq!(parse_hex_u32("100000000"), None);
}

#[test]
fn hex_formatting() {
    assert_eq!(format_hex_u8(0), "0x00");
    assert_eq!(format_hex_u8(10), "0x0A");
    assert_eq!(format_hex_u8(0xAB), "0xAB");
    assert_eq!(format_hex_u32(0), "0x0");
    assert_eq!(format_hex_u32(0x7F0), "0x7F0");
    assert_eq!(format_hex_u32(u32::MAX), "0xFFFFFFFF");
    assert_eq!(format_hex_list(&[]), "");
    assert_eq!(format_hex_list(&[1, 0xAB]), "0x01 0xAB");
}

#[test]
fn decimal_round_trip_holds() {
    for n in [0u32, 1, 9, 10, 99, 100, 65535, 1_000_000, u32::MAX - 1, u32::MAX] {
        assert_eq!(parse_u32(&format_u32(n)), Some(n));
    }
    for n in [0u16, 1, 255, 256, 65535] {
        assert_eq!(parse_u16(&format_u16(n)), Some(n));
    }
}

#[test]
fn hex_round_trip_holds() {
    for n in 0..=255u8 {
        assert_eq!(parse_hex_u8(&format_hex_u8(n)), Some(n));
    }
    for n in [0u32, 0xF, 0x10, 0x7F0, 0xDEADBEEF, u32::MAX] {
        assert_eq!(parse_hex_u32(&format_hex_u32(n)), Some(n));
    }
}

#[test]
fn hex_data_parsing() {
    assert_eq!(parse_hex_data("0xDEADBEEF"), Ok(vec![0xDE, 0xAD, 0xBE, 0xEF]));
    assert_eq!(parse_hex_data("0x"), Ok(vec![]));
    assert_eq!(parse_hex_data("+A"), Ok(vec![0x0A]));
    assert_eq!(parse_hex_data("ABC"), Err("Hex data must have even number of digits"));
    assert_eq!(parse_hex_data("ZZ"), Err("Invalid hex data"));
    let long = "ab".repeat(257);
    assert_eq!(parse_hex_data(&long), Err("Data too long (max 256 bytes)"));
    assert_eq!(parse_hex_data("0xé"), Err("Invalid hex data"));
    assert_eq!(parse_hex_data("ZZé"), Err("Invalid hex data"));
    assert_eq!(parse_hex_data("é"), Err("Invalid hex data"));
    assert_eq!(parse_hex_data("Aé"), Err("Hex data must have even number of digits"));
    let full = "ab".repeat(256);
    assert_eq!(parse_hex_data(&full), Ok(vec![0xAB; 256]));
}

#[test]
fn suffixed_rates() {
    assert_eq!(parse_suffixed_rate("1m"), Some(1_000_000));
    assert_eq!(parse_suffixed_rate("10M"), Some(10_000_000));
    assert_eq!(parse_suffixed_rate("500k"), Some(500_000));
    assert_eq!(parse_suffixed_rate("125K"), Some(125_000));
    assert_eq!(parse_suffixed_rate("250000"), Some(250_000));
    assert_eq!(parse_suffixed_rate("5000m"), None);
    assert_eq!(parse_suffixed_rate("4294k"), Some(4_294_000));
    assert_eq!(parse_suffixed_rate("4295m"), None);
    assert_eq!(parse_suffixed_rate("m"), None);
    assert_eq!(parse_suffixed_rate(""), None);
    assert_eq!(parse_suffixed_rate("1g"), None);
}

#[test]
fn string_helpers() {
    assert!(str_eq("abc", "abc"));
    assert!(!str_eq("abc", "abd"));
    assert!(str_gt("relay", "led"));
    assert!(!str_gt("led", "led"));
    assert!(str_gt("ledx", "led"));
    assert_eq!(string_of("uia"), "uia");
    assert_eq!(concat3("a", "b", "c"), "abc");
}
