use blockchain_gateway::error::ErrorKind;
use blockchain_gateway::hex::{
    format_decimal, format_hex, format_quantity, parse_hex, parse_hex_u64, strip_hex_prefix,
};

#[test]
fn parse_hex_reads_prefixed_quantities() {
    assert_eq!(parse_hex("0x5af3107a4000"), Ok(100000000000000));
    assert_eq!(parse_hex("0x0"), Ok(0));
    assert_eq!(parse_hex("0xFF"), Ok(255));
    assert_eq!(parse_hex("ff"), Err(ErrorKind::Hex));
    assert_eq!(parse_hex("0"), Err(ErrorKind::Hex));
}

#[test]
fn parse_hex_rejects_malformed_text() {
    assert_eq!(parse_hex("0x"), Err(ErrorKind::Hex));
    assert_eq!(parse_hex(""), Err(ErrorKind::Hex));
    assert_eq!(parse_hex("0xg1"), Err(ErrorKind::Hex));
    assert_eq!(parse_hex("0x+1"), Err(ErrorKind::Hex));
}

#[test]
fn parse_hex_bounds_at_128_bits() {
    let max = format!("0x{}", "f".repeat(32));
    assert_eq!(parse_hex(&max), Ok(u128::MAX));
    let over = format!("0x1{}", "0".repeat(32));
    assert_eq!(parse_hex(&over), Err(ErrorKind::Hex));
}

#[test]
fn parse_hex_u64_refuses_wide_numbers() {
    assert_eq!(parse_hex_u64("0xffffffffffffffff"), Ok(u64::MAX));
    assert_eq!(parse_hex_u64("0x10000000000000000"), Err(ErrorKind::Hex));
}

#[test]
fn strip_prefix_only_when_present() {
    assert_eq!(strip_hex_prefix("0xabc"), "abc");
    assert_eq!(strip_hex_prefix("abc"), "abc");
    assert_eq!(strip_hex_prefix("0"), "0");
}

#[test]
fn format_hex_is_shortest_lower_case() {
    assert_eq!(format_hex(0), "0");
    assert_eq!(format_hex(255), "ff");
    assert_eq!(format_hex(100000000000000), "5af3107a4000");
    assert_eq!(format_hex(u128::MAX), "f".repeat(32));
    assert_eq!(format_quantity(10), "0xa");
}

#[test]
fn format_decimal_writes_digits() {
    assert_eq!(format_decimal(0), "0");
    assert_eq!(format_decimal(3), "3");
    assert_eq!(format_decimal(1234567890), "1234567890");
    assert_eq!(format_decimal(u128::MAX), u128::MAX.to_string());
}

#[test]
fn quantity_round_trip_on_samples() {
    for n in [0u128, 1, 15, 16, 255, 4096, 100000000000000, u64::MAX as u128, u128::MAX] {
        let text = format!("0x{}", format_hex(n));
        assert_eq!(parse_hex(&text), Ok(n));
        assert_eq!(parse_hex(&format_quantity(n)), Ok(n));
    }
}
