//! Card-type identification heuristics and text formatting.

use mifare_classic::identify::atr_pattern_match;
use mifare_classic::identify::get_authentication_methods;
use mifare_classic::identify::identify_by_atr_pattern;
use mifare_classic::identify::identify_card_type;
use mifare_classic::identify::MifareType;
use mifare_classic::text::format_hex;
use mifare_classic::text::u8_to_dec;

#[test]
fn format_hex_two_digits_per_byte() {
    assert_eq!(format_hex(&[0x00, 0xAB, 0xFF, 0x07]), "00ABFF07");
    assert_eq!(format_hex(&[]), "");
    assert_eq!(format_hex(&[0x5A]), "5A");
}

#[test]
fn decimal_rendering_of_bytes() {
    assert_eq!(u8_to_dec(0), "0");
    assert_eq!(u8_to_dec(7), "7");
    assert_eq!(u8_to_dec(10), "10");
    assert_eq!(u8_to_dec(99), "99");
    assert_eq!(u8_to_dec(100), "100");
    assert_eq!(u8_to_dec(255), "255");
}

#[test]
fn card_type_names() {
    assert_eq!(MifareType::MifareClassic1K.to_string(), "Mifare Classic 1K");
    assert_eq!(MifareType::MifareClassic4K.to_string(), "Mifare Classic 4K");
    assert_eq!(MifareType::MifareMini.to_string(), "Mifare Mini");
    assert_eq!(MifareType::MifareUltralight.to_string(), "Mifare Ultralight");
    assert_eq!(MifareType::MifareDesfire.to_string(), "Mifare DESFire");
    assert_eq!(MifareType::MifarePlus.to_string(), "Mifare Plus");
    assert_eq!(MifareType::OtherMifare.to_string(), "Other Mifare Type");
    assert_eq!(MifareType::Unknown.to_string(), "Unknown Card Type");
}

#[test]
fn identify_by_exact_atr_patterns() {
    let no_desc: Vec<String> = Vec::new();
    assert_eq!(
        identify_card_type("3B 8F 80 01 80 4F 0C A0 00 00 03 06 03 00 01 00 00 00 00 00", &no_desc),
        MifareType::MifareClassic1K
    );
    assert_eq!(
        identify_card_type("3B 8F 80 01 80 4F 0C A0 00 00 03 06 03 00 02 00 00 00 00 00", &no_desc),
        MifareType::MifareClassic4K
    );
    assert_eq!(
        identify_card_type("3B 8F 80 01 80 4F 0C A0 00 00 03 06 03 00 03 00 00 00 00 00", &no_desc),
        MifareType::MifareUltralight
    );
    assert_eq!(
        identify_card_type("3B 8F 80 01 80 4F 0C A0 00 00 03 06 00 26", &no_desc),
        MifareType::MifareMini
    );
    assert_eq!(
        identify_card_type("3B 81 80 01 80 80", &no_desc),
        MifareType::MifareDesfire
    );
}

#[test]
fn identify_by_description_keywords() {
    let atr = "3F 00";
    let descs = vec!["MIFARE Classic 4K card".to_string()];
    assert_eq!(identify_card_type(atr, &descs), MifareType::MifareClassic4K);

    let descs = vec!["Mifare".to_string(), "Classic 1K".to_string()];
    assert_eq!(identify_card_type(atr, &descs), MifareType::MifareClassic1K);

    let descs = vec!["MIFARE Ultralight tag".to_string()];
    assert_eq!(identify_card_type(atr, &descs), MifareType::MifareUltralight);

    let descs = vec!["NXP DESFire EV1".to_string()];
    assert_eq!(identify_card_type(atr, &descs), MifareType::MifareDesfire);

    let descs = vec!["Mifare Plus SL3".to_string()];
    assert_eq!(identify_card_type(atr, &descs), MifareType::MifarePlus);

    let descs = vec!["Some Mifare derivative".to_string()];
    assert_eq!(identify_card_type(atr, &descs), MifareType::OtherMifare);

    let descs = vec!["A transit card".to_string()];
    assert_eq!(identify_card_type(atr, &descs), MifareType::Unknown);
}

#[test]
fn pattern_identification_fallback() {
    assert_eq!(
        identify_by_atr_pattern("3B 8F 80 01 80 4F 0C A0 00 00 03 06 03 00 01"),
        MifareType::MifareClassic1K
    );
    assert_eq!(
        identify_by_atr_pattern("3B 8F 80 01 80 4F 0C A0 00 00 03 06 03 00 02"),
        MifareType::MifareClassic4K
    );
    assert_eq!(identify_by_atr_pattern("3B 81 80 01 80 80"), MifareType::MifareDesfire);
    assert_eq!(identify_by_atr_pattern("3B 00 80"), MifareType::OtherMifare);
    assert_eq!(identify_by_atr_pattern("FF FF"), MifareType::Unknown);
}

#[test]
fn atr_wildcard_matching() {
    assert!(atr_pattern_match("3B8F", "3.8F"));
    assert!(atr_pattern_match("3B8F", "...."));
    assert!(atr_pattern_match("", ""));
    assert!(!atr_pattern_match("3B8F", "3B8"));
    assert!(!atr_pattern_match("3B8F", "3B8E"));
    assert!(atr_pattern_match("3B8F", "3B8F"));
}

#[test]
fn authentication_method_tables() {
    let classic = get_authentication_methods(&MifareType::MifareClassic1K);
    assert_eq!(classic.len(), 4);
    assert_eq!(classic[0], "Type A authentication");
    assert_eq!(
        classic[3],
        "Note: Classic encryption has been broken and is not secure"
    );
    assert_eq!(
        get_authentication_methods(&MifareType::MifareClassic4K),
        classic
    );

    let desfire = get_authentication_methods(&MifareType::MifareDesfire);
    assert_eq!(desfire.len(), 5);
    assert_eq!(desfire[0], "DESFire EV1: 3DES and AES (128-bit) encryption");

    let unknown = get_authentication_methods(&MifareType::Unknown);
    assert_eq!(unknown.len(), 2);
    assert_eq!(
        unknown[0],
        "Unknown card type, cannot determine authentication methods"
    );

    assert_eq!(get_authentication_methods(&MifareType::MifareMini).len(), 3);
    assert_eq!(get_authentication_methods(&MifareType::MifareUltralight).len(), 3);
    assert_eq!(get_authentication_methods(&MifareType::MifarePlus).len(), 4);
    assert_eq!(get_authentication_methods(&MifareType::OtherMifare).len(), 2);
}
