use doxy_rewrite::modem_err::{nrf_modem_at_err, nrf_modem_at_err_type};

#[test]
fn err_type_extracts_kind_field() {
    // Kind 0x4A in bits 16..24, code 0x1234 below.
    let word: i32 = (0x4A << 16) | 0x1234;
    assert_eq!(nrf_modem_at_err_type(word), 0x4A);
}

#[test]
fn err_type_of_plain_code_is_zero() {
    assert_eq!(nrf_modem_at_err_type(0x1234), 0);
}

#[test]
fn err_clears_kind_field() {
    let word: i32 = (0x52 << 16) | 0x42;
    assert_eq!(nrf_modem_at_err(word), 0x42);
}

#[test]
fn err_keeps_low_and_high_bits() {
    let word: i32 = -1; // all bits set
    assert_eq!(nrf_modem_at_err_type(word), 0xFF);
    assert_eq!(nrf_modem_at_err(word), 0xFF00FFFFu32 as i32);
}
