//! The canonical JSON error shape shared by both surfaces:
//! `{"code":"<taxonomy-code>","msg":"<message>"}`.
//!
//! This module builds such bodies byte-exactly (with standard JSON string
//! escaping of the message) and parses them back, so that a generic response
//! can be lifted into the taxonomy.

use crate::errors::{ErrorCode, ErrorRecord};
use crate::text::{push_bytes, utf8_lossy};
use vstd::prelude::*;
use vstd::utf8::encode_utf8;

verus! {

/// The lower-case hexadecimal digit of a value below 16.
pub open spec fn spec_hex_digit(v: u8) -> u8 {
    if v < 10 {
        (0x30 + v) as u8
    } else {
        (0x57 + v) as u8
    }
}

/// How one byte of a message appears inside a JSON string: quote and
/// backslash get a two-byte escape, the five control characters with short
/// escapes get theirs, every other control character becomes `\u00XX`, and
/// all remaining bytes (including multi-byte UTF-8 sequences) pass through.
pub open spec fn spec_escape_byte(b: u8) -> Seq<u8> {
    if b == 0x22 {
        seq![0x5cu8, 0x22u8]
    } else if b == 0x5c {
        seq![0x5cu8, 0x5cu8]
    } else if b == 0x08 {
        seq![0x5cu8, 0x62u8]
    } else if b == 0x09 {
        seq![0x5cu8, 0x74u8]
    } else if b == 0x0a {
        seq![0x5cu8, 0x6eu8]
    } else if b == 0x0c {
        seq![0x5cu8, 0x66u8]
    } else if b == 0x0d {
        seq![0x5cu8, 0x72u8]
    } else if b < 0x20 {
        seq![0x5cu8, 0x75u8, 0x30u8, 0x30u8, spec_hex_digit(b / 16), spec_hex_digit(b % 16)]
    } else {
        seq![b]
    }
}

/// A whole byte string, escaped for inclusion inside a JSON string.
pub open spec fn spec_escape(s: Seq<u8>) -> Seq<u8>
    decreases s.len(),
{
    if s.len() == 0 {
        Seq::empty()
    } else {
        spec_escape_byte(s[0]) + spec_escape(s.drop_first())
    }
}

/// Escaping distributes over concatenation, one byte at a time.
pub(crate) proof fn lemma_escape_push(s: Seq<u8>, b: u8)
    ensures
        spec_escape(s.push(b)) == spec_escape(s) + spec_escape_byte(b),
    decreases s.len(),
{
    if s.len() == 0 {
        assert(s.push(b).drop_first() =~= Seq::<u8>::empty());
        assert(spec_escape(Seq::<u8>::empty()) == Seq::<u8>::empty());
        assert(s.push(b)[0] == b);
        assert(spec_escape(s.push(b)) == spec_escape_byte(b) + spec_escape(s.push(b).drop_first()));
        assert(spec_escape(s.push(b)) =~= spec_escape(s) + spec_escape_byte(b));
    } else {
        assert(s.push(b).drop_first() =~= s.drop_first().push(b));
        lemma_escape_push(s.drop_first(), b);
        assert(spec_escape(s.push(b)) =~= spec_escape_byte(s[0]) + (spec_escape(s.drop_first())
            + spec_escape_byte(b)));
        assert(spec_escape_byte(s[0]) + spec_escape(s.drop_first()) + spec_escape_byte(b)
            =~= spec_escape_byte(s[0]) + (spec_escape(s.drop_first()) + spec_escape_byte(b)));
    }
}

/// Appends `src` to `out`, escaped for inclusion inside a JSON string.
pub fn push_escaped(out: &mut Vec<u8>, src: &[u8])
    ensures
        final(out)@ == old(out)@ + spec_escape(src@),
{
    let mut i: usize = 0;
    while i < src.len()
        invariant
            i <= src@.len(),
            out@ == old(out)@ + spec_escape(src@.subrange(0, i as int)),
        decreases src@.len() - i,
    {
        proof {
            assert(src@.subrange(0, i as int).push(src@[i as int]) =~= src@.subrange(
                0,
                i + 1 as int,
            ));
            lemma_escape_push(src@.subrange(0, i as int), src@[i as int]);
        }
        let b = src[i];
        if b == 0x22 {
            out.push(0x5c);
            out.push(0x22);
        } else if b == 0x5c {
            out.push(0x5c);
            out.push(0x5c);
        } else if b == 0x08 {
            out.push(0x5c);
            out.push(0x62);
        } else if b == 0x09 {
            out.push(0x5c);
            out.push(0x74);
        } else if b == 0x0a {
            out.push(0x5c);
            out.push(0x6e);
        } else if b == 0x0c {
            out.push(0x5c);
            out.push(0x66);
        } else if b == 0x0d {
            out.push(0x5c);
            out.push(0x72);
        } else if b < 0x20 {
            out.push(0x5c);
            out.push(0x75);
            out.push(0x30);
            out.push(0x30);
            let hi = b / 16;
            let lo = b % 16;
            out.push(if hi < 10 { 0x30 + hi } else { 0x57 + hi });
            out.push(if lo < 10 { 0x30 + lo } else { 0x57 + lo });
        } else {
            out.push(b);
        }
        assert(out@ =~= old(out)@ + spec_escape(src@.subrange(0, i + 1 as int)));
        i += 1;
    }
    assert(src@.subrange(0, src@.len() as int) =~= src@);
}

/// The exact bytes of the JSON error body whose message field holds the
/// escape of the raw byte string `message_bytes`.
pub open spec fn spec_error_body_bytes(code: ErrorCode, message_bytes: Seq<u8>) -> Seq<u8> {
    encode_utf8("{\"code\":\""@) + encode_utf8(code.spec_name()) + encode_utf8("\",\"msg\":\""@)
        + spec_escape(message_bytes) + encode_utf8("\"}"@)
}

/// The exact bytes of the JSON error body of a code and a message.
pub open spec fn spec_error_body(code: ErrorCode, message: Seq<char>) -> Seq<u8> {
    spec_error_body_bytes(code, encode_utf8(message))
}

/// Builds the JSON error body of an error record:
/// `{"code":"<code>","msg":"<message>"}`, with the message escaped as a JSON
/// string. The diagnostic cause never appears.
pub fn error_body(error: &ErrorRecord) -> (r: Vec<u8>)
    ensures
        r@ == spec_error_body(error.code, error.message@),
{
    let mut out: Vec<u8> = Vec::new();
    push_bytes(&mut out, "{\"code\":\"".as_bytes());
    push_bytes(&mut out, error.code.name().as_bytes());
    push_bytes(&mut out, "\",\"msg\":\"".as_bytes());
    push_escaped(&mut out, error.message.as_str().as_bytes());
    push_bytes(&mut out, "\"}".as_bytes());
    out
}

} // verus!
