//! Text on its way to the engine and back.
//!
//! The engine reads text up to a terminating zero byte and writes text without
//! one, reporting a length instead. Host text is UTF-8 and may hold any byte.

use libc::c_int;
use vstd::prelude::*;
use vstd::slice::slice_to_vec;
use vstd::string::StringSliceAdditionalSpecFns;
use vstd::utf8::*;

verus! {

/// No byte of `bytes` is the terminator.
pub open spec fn portable(bytes: Seq<u8>) -> bool {
    forall|i: int| 0 <= i < bytes.len() ==> bytes[i] != 0
}

/// `bytes` ends in the terminator and holds no other.
pub open spec fn terminated(bytes: Seq<u8>) -> bool {
    &&& bytes.len() > 0
    &&& bytes.last() == 0
    &&& portable(bytes.drop_last())
}

/// What the engine is handed for `bytes`: the bytes and a terminator, or the
/// empty text where the bytes cannot be told from a terminator.
pub open spec fn native_form(bytes: Seq<u8>) -> Seq<u8> {
    if portable(bytes) {
        bytes.push(0)
    } else {
        seq![0u8]
    }
}

/// The text that `bytes` stand for: their decoding, or nothing where they are
/// not UTF-8.
pub open spec fn lenient_text(bytes: Seq<u8>) -> Seq<char> {
    if valid_utf8(bytes) {
        decode_utf8(bytes)
    } else {
        Seq::empty()
    }
}

/// A buffer of `buf` after the engine reported that it holds `len` bytes: cut
/// to that length, or filled up to it with zero bytes.
pub open spec fn received(buf: Seq<u8>, len: nat) -> Seq<u8> {
    if len <= buf.len() {
        buf.take(len as int)
    } else {
        buf + Seq::new((len - buf.len()) as nat, |i: int| 0u8)
    }
}

/// Whatever the host text, the engine gets exactly one terminator, at the end.
pub proof fn lemma_native_form_terminated(bytes: Seq<u8>)
    ensures
        terminated(native_form(bytes)),
        portable(bytes) ==> native_form(bytes).drop_last() == bytes,
        !portable(bytes) ==> native_form(bytes).drop_last() == Seq::<u8>::empty(),
{
}

/// Text that went out to the engine and came back byte for byte is the text
/// that was sent.
pub proof fn lemma_text_round_trip(text: Seq<char>)
    requires
        portable(encode_utf8(text)),
    ensures
        lenient_text(native_form(encode_utf8(text)).drop_last()) == text,
{
    lemma_native_form_terminated(encode_utf8(text));
    encode_utf8_valid_utf8(text);
    encode_utf8_decode_utf8(text);
}

/// Whether `bytes` hold no terminator.
pub fn is_portable(bytes: &[u8]) -> (r: bool)
    ensures
        r == portable(bytes@),
{
    let mut i: usize = 0;
    while i < bytes.len()
        invariant
            i <= bytes.len(),
            forall|k: int| 0 <= k < i ==> bytes@[k] != 0,
        decreases bytes.len() - i,
    {
        if bytes[i] == 0 {
            return false;
        }
        i += 1;
    }
    true
}

/// Lays `bytes` out for the engine.
pub fn to_native(bytes: &[u8]) -> (out: Vec<u8>)
    ensures
        out@ == native_form(bytes@),
{
    if is_portable(bytes) {
        let mut out: Vec<u8> = slice_to_vec(bytes);
        out.push(0);
        out
    } else {
        vec![0u8]
    }
}

/// `core::str::from_utf8`: the bytes as a string slice where they are UTF-8,
/// nothing where they are not. The slice that comes back has the very bytes
/// that went in.
#[verifier::external_body]
fn checked_text<'a>(bytes: &'a [u8]) -> (r: Option<&'a str>)
    ensures
        r is Some <==> valid_utf8(bytes@),
        r matches Some(s) ==> s.spec_bytes() == bytes@,
{
    match core::str::from_utf8(bytes) {
        Ok(s) => Some(s),
        Err(_) => None,
    }
}

/// Reads `bytes` as text, without copying them. Bytes that are not UTF-8 give
/// the empty text.
pub fn from_native<'a>(bytes: &'a [u8]) -> (text: &'a str)
    ensures
        text@ == lenient_text(bytes@),
{
    match checked_text(bytes) {
        Some(s) => {
            proof {
                encode_utf8_decode_utf8(s@);
            }
            s
        },
        None => {
            proof {
                reveal_strlit("");
            }
            ""
        },
    }
}

/// The number of items behind a count that the engine reported: a count
/// below zero stands for none.
pub fn reported_len(count: c_int) -> (len: usize)
    ensures
        len == (if count > 0 {
            count as int
        } else {
            0
        }),
{
    if count > 0 {
        count as usize
    } else {
        0
    }
}

/// Fits `buf` to the length that the engine reported for it.
pub fn fit(buf: Vec<u8>, len: usize) -> (out: Vec<u8>)
    ensures
        out@ == received(buf@, len as nat),
{
    let mut out = buf;
    out.resize(len, 0u8);
    out
}

} // verus!
