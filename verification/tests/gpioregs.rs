use simpi::gpioregs::{Reg, RegMemory};
use simpi::hex::HexError;

#[test]
fn test_reset() {
    let mut regmem = RegMemory::new();
    regmem.input.write(0x12345678u32);
    regmem.config.write(0x87654321u32);
    regmem.reset();
    assert_eq!(regmem.input.read(), 0x00000000u32);
    assert_eq!(regmem.config.read(), 0xFFFFFFFFu32);
}

#[test]
fn test_reset_full_state() {
    let mut regmem = RegMemory::new();
    regmem.output.write(0x000000FFu32);
    regmem.inten.write(0x00000020u32);
    regmem.int0.write(0x00000020u32);
    regmem.int1.write(0x00000020u32);
    regmem.reset();
    assert_eq!(regmem.input.read(), 0);
    assert_eq!(regmem.output.read(), 0);
    assert_eq!(regmem.config.read(), 0xFFFFFFFFu32);
    assert_eq!(regmem.inten.read(), 0);
    assert_eq!(regmem.int0.read(), 0);
    assert_eq!(regmem.int1.read(), 0);
}

#[test]
fn test_read_pin() {
    let reg = Reg::from(0x00FF0000u32);
    assert_eq!(reg.read_pin(23), 1);
}

#[test]
fn test_write_pin() {
    let mut reg = Reg::from(0x00FF0000u32);
    reg.write_pin(23, 0);
    assert_eq!(reg.read(), 0x007F0000u32);
}

#[test]
fn test_write_then_read_every_pin() {
    for pin in 0u8..32 {
        for v in 0u8..2 {
            let mut reg = Reg::from(0xA5A5A5A5u32);
            reg.write_pin(pin, v);
            assert_eq!(reg.read_pin(pin), v);
        }
    }
}

#[test]
fn test_reg_to_str() {
    let reg = Reg::from(0x00FF0000u32);
    assert_eq!(reg.read_to_str(), String::from("0x00FF0000"));
}

#[test]
fn test_str_to_reg() {
    let reg_str = String::from("0x00FF0000");
    let mut reg = Reg::from(0x0u32);
    reg.write_from_str(reg_str).unwrap();
    assert_eq!(reg.read(), 0x00FF0000u32);
}

#[test]
fn test_str_to_reg_invalid_token() {
    let reg_str = String::from("0x00XYZ000");
    let mut reg = Reg::from(0x1234u32);
    assert_eq!(reg.write_from_str(reg_str), Err(HexError::InvalidToken));
    assert_eq!(reg.read(), 0x1234u32);
}

#[test]
fn test_str_to_reg_lowercase() {
    let mut reg = Reg::from(0x0u32);
    reg.write_from_str(String::from("0x00ff0000")).unwrap();
    assert_eq!(reg.read(), 0x00FF0000u32);
}

#[test]
fn test_str_to_reg_no_prefix() {
    let mut reg = Reg::from(0x0u32);
    reg.write_from_str(String::from("DEADBEEF")).unwrap();
    assert_eq!(reg.read(), 0xDEADBEEFu32);
}

#[test]
fn test_str_to_reg_under_length_rejected() {
    let mut reg = Reg::from(0x77u32);
    assert_eq!(
        reg.write_from_str(String::from("0x1234567")),
        Err(HexError::BadLength)
    );
    assert_eq!(reg.read(), 0x77u32);
}

#[test]
fn test_str_to_reg_bad_digit_rejected() {
    // A non-hex character is an invalid token whatever the length.
    let mut reg = Reg::from(0u32);
    assert_eq!(
        reg.write_from_str(String::from("0x1G00")),
        Err(HexError::InvalidToken)
    );
    assert_eq!(
        reg.write_from_str(String::from("0x1G000000")),
        Err(HexError::InvalidToken)
    );
    assert_eq!(reg.read(), 0);
}

#[test]
fn test_str_to_reg_empty_rejected() {
    let mut reg = Reg::from(0u32);
    assert_eq!(reg.write_from_str(String::new()), Err(HexError::BadLength));
}

#[test]
fn test_str_to_reg_non_ascii_rejected() {
    let mut reg = Reg::from(0u32);
    assert_eq!(
        reg.write_from_str(String::from("0x00FF00é0")),
        Err(HexError::NonAscii)
    );
}

#[test]
fn test_hex_round_trip() {
    for v in [
        0x00000000u32,
        0xFFFFFFFFu32,
        0x00FF0000u32,
        0xDEADBEEFu32,
        0x00000001u32,
        0x80000000u32,
    ] {
        let reg = Reg::from(v);
        let text = reg.read_to_str();
        assert_eq!(text.len(), 10);
        assert!(text.starts_with("0x"));
        assert!(text[2..]
            .chars()
            .all(|c| c.is_ascii_digit() || ('A'..='F').contains(&c)));
        let mut back = Reg::new();
        back.write_from_str(text).unwrap();
        assert_eq!(back.read(), v);
    }
}

#[test]
fn test_hex2uint_accepts_short_strings() {
    let reg = Reg::new();
    assert_eq!(reg.hex2uint(String::new()), Ok(0));
    assert_eq!(reg.hex2uint(String::from("ff")), Ok(255));
    assert_eq!(reg.hex2uint(String::from("00FF0000")), Ok(0x00FF0000));
    assert_eq!(
        reg.hex2uint(String::from("zz")),
        Err(HexError::InvalidToken)
    );
}

#[test]
fn test_hex_error_messages() {
    assert_eq!(
        HexError::NonAscii.message(),
        "Provided string contains non-ASCII letters."
    );
    assert_eq!(
        HexError::InvalidToken.message(),
        "Invalid token in provided string!"
    );
}
