//! Single-precision float operations over bit patterns.
//!
//! The mesh model stores every geometric component as the bit pattern of an
//! IEEE754 single-precision value, so that the byte layouts can be reasoned
//! about exactly. The few places where the codec actually computes with such
//! a value (flipping the V texture coordinate, the legacy position scaling,
//! decimal formatting and parsing) go through the trusted functions below,
//! whose results are named by uninterpreted functions: each is a pure
//! function of its argument bits.

use byteorder::{ByteOrder, LittleEndian};
use vstd::prelude::*;

verus! {

/// The bit pattern of `1.0 - x`, where `x` is the single-precision value
/// with bit pattern `b`.
pub uninterp spec fn flip_bits(b: u32) -> u32;

/// The bit pattern of `0.5 * x`, where `x` has bit pattern `b`.
pub uninterp spec fn half_bits(b: u32) -> u32;

/// The bit pattern of `2.0 * x`, where `x` has bit pattern `b`.
pub uninterp spec fn twice_bits(b: u32) -> u32;

/// The text that the value with bit pattern `b` formats to with six
/// decimal places.
pub uninterp spec fn fmt6_bytes(b: u32) -> Seq<u8>;

/// The bit pattern that the given text parses to as a single-precision
/// decimal literal, if it parses at all.
pub uninterp spec fn parsed_f32_bits(s: Seq<u8>) -> Option<u32>;

/// Relies on byteorder's `LittleEndian::read_f32` / `write_f32`, which move a
/// single-precision value to and from its bit pattern, and on single-precision
/// subtraction; the result depends on the argument bits alone.
#[verifier::external_body]
pub(crate) fn one_minus_f32(b: u32) -> (r: u32)
    ensures
        r == flip_bits(b),
{
    let mut buf = [0u8; 4];
    LittleEndian::write_u32(&mut buf, b);
    let x = LittleEndian::read_f32(&buf);
    let one = LittleEndian::read_f32(&[0u8, 0u8, 128u8, 63u8]);
    let mut out = [0u8; 4];
    LittleEndian::write_f32(&mut out, one - x);
    LittleEndian::read_u32(&out)
}

/// Relies on byteorder's `LittleEndian::read_f32` / `write_f32` and on
/// single-precision multiplication; the result depends on the argument bits
/// alone.
#[verifier::external_body]
pub(crate) fn half_f32(b: u32) -> (r: u32)
    ensures
        r == half_bits(b),
{
    let mut buf = [0u8; 4];
    LittleEndian::write_u32(&mut buf, b);
    let x = LittleEndian::read_f32(&buf);
    let half = LittleEndian::read_f32(&[0u8, 0u8, 0u8, 63u8]);
    let mut out = [0u8; 4];
    LittleEndian::write_f32(&mut out, half * x);
    LittleEndian::read_u32(&out)
}

/// Relies on byteorder's `LittleEndian::read_f32` / `write_f32` and on
/// single-precision multiplication; the result depends on the argument bits
/// alone.
#[verifier::external_body]
pub(crate) fn twice_f32(b: u32) -> (r: u32)
    ensures
        r == twice_bits(b),
{
    let mut buf = [0u8; 4];
    LittleEndian::write_u32(&mut buf, b);
    let x = LittleEndian::read_f32(&buf);
    let two = LittleEndian::read_f32(&[0u8, 0u8, 0u8, 64u8]);
    let mut out = [0u8; 4];
    LittleEndian::write_f32(&mut out, two * x);
    LittleEndian::read_u32(&out)
}

/// Relies on byteorder's `LittleEndian::read_f32` and on the standard
/// fixed-precision formatting of a single-precision value with six decimal
/// places; the result depends on the argument bits alone.
#[verifier::external_body]
pub(crate) fn fmt_f32_6(b: u32) -> (r: Vec<u8>)
    ensures
        r@ == fmt6_bytes(b),
{
    let mut buf = [0u8; 4];
    LittleEndian::write_u32(&mut buf, b);
    let x = LittleEndian::read_f32(&buf);
    format!("{:.6}", x).into_bytes()
}

/// Relies on the standard UTF-8 check and decimal parsing of a
/// single-precision value, and on byteorder's `LittleEndian::write_f32` to
/// take the parsed value's bit pattern; the result depends on the argument
/// bytes alone.
#[verifier::external_body]
pub(crate) fn parse_f32_text(s: &[u8]) -> (r: Option<u32>)
    ensures
        r == parsed_f32_bits(s@),
{
    let text = match core::str::from_utf8(s) {
        Ok(t) => t,
        Err(_) => return None,
    };
    let x = match text.parse() {
        Ok(v) => v,
        Err(_) => return None,
    };
    let mut out = [0u8; 4];
    LittleEndian::write_f32(&mut out, x);
    Some(LittleEndian::read_u32(&out))
}

} // verus!
