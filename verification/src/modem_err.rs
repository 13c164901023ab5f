//! Decoding of the combined AT-command error word.
//!
//! An AT-command call reports failure as one 32-bit word: bits 16 to 23 hold
//! the kind of error (plain `ERROR`, `+CME ERROR`, `+CMS ERROR`), the
//! remaining bits hold the error code itself.  The two accessors extract the
//! two fields.

use vstd::prelude::*;

verus! {

/// The error-kind field of an error word: bits 16 to 23.
pub open spec fn err_type_of(e: u32) -> u32 {
    (e >> 16) & 0xff
}

/// The error word with the error-kind field cleared: the error code.
pub open spec fn err_code_of(e: u32) -> u32 {
    e & 0xff00ffff
}

/// Return the error type represented by the return value of an AT-command
/// call: the error-kind field of the error word.
pub fn nrf_modem_at_err_type(error: i32) -> (t: i32)
    ensures
        t as u32 == err_type_of(#[verifier::truncate] (error as u32)),
        0 <= t < 256,
{
    let bits: u32 = #[verifier::truncate] (error as u32);
    assert((bits >> 16) & 0xff < 0x100) by (bit_vector);
    let ty: u32 = (bits >> 16) & 0xff;
    ty as i32
}

/// Retrieve the specific CME or CMS error code from the return value of an
/// AT-command call: the error word with its error-kind field cleared.
pub fn nrf_modem_at_err(error: i32) -> (c: i32)
    ensures
        c as u32 == err_code_of(#[verifier::truncate] (error as u32)),
{
    let bits: u32 = #[verifier::truncate] (error as u32);
    let code: u32 = bits & 0xff00ffff;
    let c: i32 = #[verifier::truncate] (code as i32);
    assert(c as u32 == code) by (bit_vector)
        requires
            c == code as i32,
    ;
    c
}

} // verus!
