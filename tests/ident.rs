use mmdc::hex::parse_hex;
use mmdc::ident::{
    check_read_size, cpuinfo_revision, revision_from_capture, soc_code_from_id, starts_with,
    IdentError, READ_BUFFER_LEN, SOC_IMX6DL, SOC_IMX6Q, SOC_IMX6SL,
};

#[test]
fn parse_hex_reads_digits_of_either_case() {
    assert_eq!(parse_hex("1f"), Some(31));
    assert_eq!(parse_hex("1F"), Some(31));
    assert_eq!(parse_hex("+1f"), Some(31));
    assert_eq!(parse_hex("0"), Some(0));
    assert_eq!(parse_hex("63012"), Some(0x63012));
    assert_eq!(parse_hex("FFFFFFFF"), Some(u32::MAX));
    assert_eq!(parse_hex("00000000FFFFFFFF"), Some(u32::MAX));
}

#[test]
fn parse_hex_refuses_bad_numerals() {
    assert_eq!(parse_hex(""), None);
    assert_eq!(parse_hex("+"), None);
    assert_eq!(parse_hex("-1"), None);
    assert_eq!(parse_hex("0x10"), None);
    assert_eq!(parse_hex("12g"), None);
    assert_eq!(parse_hex("100000000"), None);
}

#[test]
fn parse_hex_agrees_with_std() {
    for s in ["0", "a", "+ff", "deadBEEF", "", "+", "-", "fffffffff", "zz", "7fffffff"] {
        assert_eq!(parse_hex(s), u32::from_str_radix(s, 16).ok(), "{}", s);
    }
}

#[test]
fn revision_field_is_found() {
    let text = "processor\t: 0\nmodel name\t: ARMv7\nHardware\t: Freescale i.MX6\nRevision\t: 63012\nSerial\t\t: 0\n";
    assert_eq!(cpuinfo_revision(text), Ok(Some(0x63012)));
    assert_eq!(cpuinfo_revision("Revision:abc"), Ok(Some(0xabc)));
}

#[test]
fn zero_revision_asks_for_soc_id() {
    assert_eq!(cpuinfo_revision("Hardware : i.MX6\nRevision : 0000\n"), Ok(None));
}

#[test]
fn missing_revision_is_a_parse_failure() {
    assert_eq!(cpuinfo_revision("Hardware : i.MX6\n"), Err(IdentError::ParseFailed));
    assert_eq!(cpuinfo_revision("Revision : zz\n"), Err(IdentError::ParseFailed));
    assert_eq!(cpuinfo_revision("Revision : 123456789\n"), Err(IdentError::ParseFailed));
}

#[test]
fn captured_digits_are_read() {
    assert_eq!(revision_from_capture(None), Err(IdentError::ParseFailed));
    assert_eq!(revision_from_capture(Some("60000".to_string())), Ok(Some(0x60000)));
    assert_eq!(revision_from_capture(Some("0".to_string())), Ok(None));
    assert_eq!(revision_from_capture(Some("".to_string())), Err(IdentError::ParseFailed));
}

#[test]
fn soc_ids_map_to_codes() {
    assert_eq!(soc_code_from_id("i.MX6Q\n"), Ok(SOC_IMX6Q));
    assert_eq!(soc_code_from_id("i.MX6QP"), Ok(SOC_IMX6Q));
    assert_eq!(soc_code_from_id("i.MX6DL\n"), Ok(SOC_IMX6DL));
    assert_eq!(soc_code_from_id("i.MX6SL"), Ok(SOC_IMX6SL));
    assert_eq!(SOC_IMX6Q, 0x63000);
    assert_eq!(SOC_IMX6DL, 0x61000);
    assert_eq!(SOC_IMX6SL, 0x60000);
}

#[test]
fn unknown_soc_id_is_refused() {
    assert_eq!(soc_code_from_id("i.MX7D"), Err(IdentError::UnknownSocId));
    assert_eq!(soc_code_from_id("i.MX6"), Err(IdentError::UnknownSocId));
    assert_eq!(soc_code_from_id(""), Err(IdentError::UnknownSocId));
}

#[test]
fn prefix_test() {
    assert!(starts_with("i.MX6DL", "i.MX6"));
    assert!(starts_with("abc", ""));
    assert!(!starts_with("i.M", "i.MX6"));
    assert!(!starts_with("i.MX6Q", "i.MX6D"));
}

#[test]
fn read_sizes_are_checked() {
    assert_eq!(check_read_size(0), Err(IdentError::ReadFailed));
    assert_eq!(check_read_size(READ_BUFFER_LEN), Err(IdentError::ReadFailed));
    assert_eq!(check_read_size(1), Ok(1));
    assert_eq!(check_read_size(READ_BUFFER_LEN - 1), Ok(READ_BUFFER_LEN - 1));
    assert_eq!(READ_BUFFER_LEN, 2048);
}
