//! Fields of the wire format: fixed-width little-endian integers and strings
//! prefixed by their UTF-8 length, as bincode's free functions lay them out.
//! A frame is a sequence of such fields; its decoder tolerates trailing bytes.

use vstd::bytes::*;
use vstd::prelude::*;
use vstd::string::StringSliceAdditionalSpecFns;
use vstd::utf8::*;

use crate::message::MyError;

verus! {

#[verifier::external_type_specification]
#[verifier::external_body]
pub struct ExBincodeErrorKind(bincode::ErrorKind);

/// The `u32` that leads `b`, if `b` holds four bytes.
pub open spec fn u32_field(b: Seq<u8>) -> Option<u32> {
    if b.len() >= 4 {
        Some(spec_u32_from_le_bytes(b.subrange(0, 4)))
    } else {
        None
    }
}

/// The `u64` that leads `b`, if `b` holds eight bytes.
pub open spec fn u64_field(b: Seq<u8>) -> Option<u64> {
    if b.len() >= 8 {
        Some(spec_u64_from_le_bytes(b.subrange(0, 8)))
    } else {
        None
    }
}

/// The string that leads `b`: a `u64` byte count, then that many bytes of
/// valid UTF-8.
pub open spec fn str_field(b: Seq<u8>) -> Option<Seq<char>> {
    match u64_field(b) {
        Some(n) => if 8 + n <= b.len() && valid_utf8(b.subrange(8, 8 + n)) {
            Some(decode_utf8(b.subrange(8, 8 + n)))
        } else {
            None
        },
        None => None,
    }
}

/// The bytes of a string field holding `s`.
pub open spec fn str_bytes(s: Seq<char>) -> Seq<u8> {
    spec_u64_to_le_bytes(encode_utf8(s).len() as u64) + encode_utf8(s)
}

/// A string that a string field can hold: its UTF-8 length fits in a `u64`.
pub open spec fn str_fits(s: Seq<char>) -> bool {
    encode_utf8(s).len() <= u64::MAX
}

/// Relies on `bincode::serialize` for a `u32`: bincode's free functions write
/// integers at fixed width in little-endian order, into a `Vec`, which cannot
/// fail.
#[verifier::external_body]
fn serialize_u32(x: u32) -> (r: Result<Vec<u8>, bincode::Error>)
    ensures
        match r {
            Ok(v) => v@ == spec_u32_to_le_bytes(x),
            Err(_) => false,
        },
{
    bincode::serialize(&x)
}

/// Relies on `bincode::serialize` for a `u64`: eight little-endian bytes,
/// written into a `Vec`, which cannot fail.
#[verifier::external_body]
fn serialize_u64(x: u64) -> (r: Result<Vec<u8>, bincode::Error>)
    ensures
        match r {
            Ok(v) => v@ == spec_u64_to_le_bytes(x),
            Err(_) => false,
        },
{
    bincode::serialize(&x)
}

/// Relies on `bincode::serialize` for a `str`: its byte length as a `u64`,
/// then its UTF-8 bytes, written into a `Vec`, which cannot fail.
#[verifier::external_body]
fn serialize_str(s: &str) -> (r: Result<Vec<u8>, bincode::Error>)
    ensures
        match r {
            Ok(v) => v@ == str_bytes(s@),
            Err(_) => false,
        },
{
    bincode::serialize(s)
}

/// Relies on `bincode::deserialize` for a `u32`: it reads four little-endian
/// bytes from the front of the slice, fails on a shorter one, and ignores what
/// follows.
#[verifier::external_body]
fn deserialize_u32(b: &[u8]) -> (r: Result<u32, bincode::Error>)
    ensures
        match r {
            Ok(x) => u32_field(b@) == Some(x),
            Err(_) => u32_field(b@) is None,
        },
{
    bincode::deserialize::<u32>(b)
}

/// Relies on `bincode::deserialize` for a `u64`: eight little-endian bytes
/// from the front of the slice; a shorter one fails; what follows is ignored.
#[verifier::external_body]
fn deserialize_u64(b: &[u8]) -> (r: Result<u64, bincode::Error>)
    ensures
        match r {
            Ok(x) => u64_field(b@) == Some(x),
            Err(_) => u64_field(b@) is None,
        },
{
    bincode::deserialize::<u64>(b)
}

/// Relies on `bincode::deserialize` for a `String`: a `u64` byte count, then
/// that many bytes, which must be valid UTF-8 (`String::from_utf8`); a slice
/// too short for either fails; what follows is ignored.
#[verifier::external_body]
fn deserialize_string(b: &[u8]) -> (r: Result<String, bincode::Error>)
    ensures
        match r {
            Ok(s) => str_field(b@) == Some(s@),
            Err(_) => str_field(b@) is None,
        },
{
    bincode::deserialize::<String>(b)
}

/// Relies on the `Display` of bincode's error: its description as text.
#[verifier::external_body]
fn bincode_error_text(e: &bincode::Error) -> String {
    e.to_string()
}

/// The error that a failed field read or write reports, in phase `when`.
fn field_error(e: &bincode::Error, when: &str) -> (r: MyError)
    ensures
        r.when@ == when@,
{
    MyError::new(bincode_error_text(e), String::from_str(when))
}

// The writers below cannot meet the error arm: bincode never fails to write
// these values into a `Vec`, as the wrappers above state.
/// Appends a `u32` field.
pub fn put_u32(out: &mut Vec<u8>, x: u32)
    ensures
        final(out)@ == old(out)@ + spec_u32_to_le_bytes(x),
{
    match serialize_u32(x) {
        Ok(mut v) => out.append(&mut v),
        Err(_) => {},
    }
}

/// Appends a `u64` field.
pub fn put_u64(out: &mut Vec<u8>, x: u64)
    ensures
        final(out)@ == old(out)@ + spec_u64_to_le_bytes(x),
{
    match serialize_u64(x) {
        Ok(mut v) => out.append(&mut v),
        Err(_) => {},
    }
}

/// Appends a string field.
pub fn put_str(out: &mut Vec<u8>, s: &str)
    ensures
        final(out)@ == old(out)@ + str_bytes(s@),
{
    match serialize_str(s) {
        Ok(mut v) => out.append(&mut v),
        Err(_) => {},
    }
}

/// Reads the `u32` field that leads `b`.
pub fn get_u32(b: &[u8]) -> (r: Result<u32, MyError>)
    ensures
        match r {
            Ok(x) => u32_field(b@) == Some(x),
            Err(e) => u32_field(b@) is None && e.when@ == "decode"@,
        },
{
    match deserialize_u32(b) {
        Ok(x) => Ok(x),
        Err(e) => Err(field_error(&e, "decode")),
    }
}

/// Reads the `u64` field that leads `b`.
pub fn get_u64(b: &[u8]) -> (r: Result<u64, MyError>)
    ensures
        match r {
            Ok(x) => u64_field(b@) == Some(x),
            Err(e) => u64_field(b@) is None && e.when@ == "decode"@,
        },
{
    match deserialize_u64(b) {
        Ok(x) => Ok(x),
        Err(e) => Err(field_error(&e, "decode")),
    }
}

/// Reads the string field that leads `b`, with the number of bytes it takes.
pub fn get_str(b: &[u8]) -> (r: Result<(String, usize), MyError>)
    ensures
        match r {
            Ok((s, n)) => {
                &&& str_field(b@) == Some(s@)
                &&& n == 8 + encode_utf8(s@).len()
                &&& n <= b@.len()
            },
            Err(e) => str_field(b@) is None && e.when@ == "decode"@,
        },
{
    match deserialize_string(b) {
        Ok(s) => {
            proof {
                let n = spec_u64_from_le_bytes(b@.subrange(0, 8)) as int;
                assert(8 + n <= b@.len());
                decode_utf8_encode_utf8(b@.subrange(8, 8 + n));
                assert(encode_utf8(s@) == b@.subrange(8, 8 + n));
            }
            let t = s.as_str();
            assert(t.spec_bytes() == encode_utf8(s@));
            let k = t.len();
            let total = b.len();
            assert(k + 8 <= total);
            Ok((s, 8 + k))
        },
        Err(e) => Err(field_error(&e, "decode")),
    }
}

/// A string field followed by `rest` reads back as `s`, and leaves `rest`.
pub proof fn lemma_str_field(s: Seq<char>, rest: Seq<u8>)
    requires
        str_fits(s),
    ensures
        str_field(str_bytes(s) + rest) == Some(s),
        (str_bytes(s) + rest).subrange(8 + encode_utf8(s).len() as int, (str_bytes(s) + rest).len() as int)
            == rest,
{
    let e = encode_utf8(s);
    let b = str_bytes(s) + rest;
    lemma_auto_spec_u64_to_from_le_bytes();
    assert(b.subrange(0, 8) =~= spec_u64_to_le_bytes(e.len() as u64));
    assert(b.subrange(8, 8 + e.len() as int) =~= e);
    encode_utf8_valid_utf8(s);
    encode_utf8_decode_utf8(s);
    assert(b.subrange(8 + e.len() as int, b.len() as int) =~= rest);
}

/// A `u32` field followed by `rest` reads back as `x`, and leaves `rest`.
pub proof fn lemma_u32_field(x: u32, rest: Seq<u8>)
    ensures
        u32_field(spec_u32_to_le_bytes(x) + rest) == Some(x),
        (spec_u32_to_le_bytes(x) + rest).subrange(4, (spec_u32_to_le_bytes(x) + rest).len() as int)
            == rest,
{
    let b = spec_u32_to_le_bytes(x) + rest;
    lemma_auto_spec_u32_to_from_le_bytes();
    assert(b.subrange(0, 4) =~= spec_u32_to_le_bytes(x));
    assert(b.subrange(4, b.len() as int) =~= rest);
}

/// A `u64` field followed by `rest` reads back as `x`.
pub proof fn lemma_u64_field(x: u64, rest: Seq<u8>)
    ensures
        u64_field(spec_u64_to_le_bytes(x) + rest) == Some(x),
{
    let b = spec_u64_to_le_bytes(x) + rest;
    lemma_auto_spec_u64_to_from_le_bytes();
    assert(b.subrange(0, 8) =~= spec_u64_to_le_bytes(x));
}

} // verus!
