//! Lifting a generic HTTP response into the taxonomy: its body is parsed as
//! the canonical JSON error shape, and where that fails the lift falls back
//! to an `Internal` record carrying the body text. The conversion never
//! fails the calling code path.

use crate::errors::{ErrorCode, ErrorRecord};
use crate::json::{
    lemma_escape_push, spec_error_body_bytes, spec_escape, spec_escape_byte, spec_hex_digit,
};
use crate::text::{bytes_eq, lossy_decoded, utf8_lossy};
use vstd::prelude::*;
use vstd::utf8::encode_utf8;

verus! {

/// The taxonomy code whose wire name is exactly `name`, if any.
pub open spec fn spec_code_of_name(name: Seq<u8>) -> Option<ErrorCode> {
    if name == encode_utf8(ErrorCode::Cancelled.spec_name()) {
        Some(ErrorCode::Cancelled)
    } else if name == encode_utf8(ErrorCode::Unknown.spec_name()) {
        Some(ErrorCode::Unknown)
    } else if name == encode_utf8(ErrorCode::InvalidArgument.spec_name()) {
        Some(ErrorCode::InvalidArgument)
    } else if name == encode_utf8(ErrorCode::Malformed.spec_name()) {
        Some(ErrorCode::Malformed)
    } else if name == encode_utf8(ErrorCode::DeadlineExceeded.spec_name()) {
        Some(ErrorCode::DeadlineExceeded)
    } else if name == encode_utf8(ErrorCode::NotFound.spec_name()) {
        Some(ErrorCode::NotFound)
    } else if name == encode_utf8(ErrorCode::BadRoute.spec_name()) {
        Some(ErrorCode::BadRoute)
    } else if name == encode_utf8(ErrorCode::AlreadyExists.spec_name()) {
        Some(ErrorCode::AlreadyExists)
    } else if name == encode_utf8(ErrorCode::PermissionDenied.spec_name()) {
        Some(ErrorCode::PermissionDenied)
    } else if name == encode_utf8(ErrorCode::Unauthenticated.spec_name()) {
        Some(ErrorCode::Unauthenticated)
    } else if name == encode_utf8(ErrorCode::ResourceExhausted.spec_name()) {
        Some(ErrorCode::ResourceExhausted)
    } else if name == encode_utf8(ErrorCode::FailedPrecondition.spec_name()) {
        Some(ErrorCode::FailedPrecondition)
    } else if name == encode_utf8(ErrorCode::Aborted.spec_name()) {
        Some(ErrorCode::Aborted)
    } else if name == encode_utf8(ErrorCode::OutOfRange.spec_name()) {
        Some(ErrorCode::OutOfRange)
    } else if name == encode_utf8(ErrorCode::Unimplemented.spec_name()) {
        Some(ErrorCode::Unimplemented)
    } else if name == encode_utf8(ErrorCode::Internal.spec_name()) {
        Some(ErrorCode::Internal)
    } else if name == encode_utf8(ErrorCode::Unavailable.spec_name()) {
        Some(ErrorCode::Unavailable)
    } else if name == encode_utf8(ErrorCode::DataLoss.spec_name()) {
        Some(ErrorCode::DataLoss)
    } else {
        None
    }
}

/// Recognizes the wire name of a taxonomy code.
fn code_of_name(name: &[u8]) -> (r: Option<ErrorCode>)
    ensures
        r == spec_code_of_name(name@),
{
    if bytes_eq(name, "canceled".as_bytes()) {
        Some(ErrorCode::Cancelled)
    } else if bytes_eq(name, "unknown".as_bytes()) {
        Some(ErrorCode::Unknown)
    } else if bytes_eq(name, "invalid_argument".as_bytes()) {
        Some(ErrorCode::InvalidArgument)
    } else if bytes_eq(name, "malformed".as_bytes()) {
        Some(ErrorCode::Malformed)
    } else if bytes_eq(name, "deadline_exceeded".as_bytes()) {
        Some(ErrorCode::DeadlineExceeded)
    } else if bytes_eq(name, "not_found".as_bytes()) {
        Some(ErrorCode::NotFound)
    } else if bytes_eq(name, "bad_route".as_bytes()) {
        Some(ErrorCode::BadRoute)
    } else if bytes_eq(name, "already_exists".as_bytes()) {
        Some(ErrorCode::AlreadyExists)
    } else if bytes_eq(name, "permission_denied".as_bytes()) {
        Some(ErrorCode::PermissionDenied)
    } else if bytes_eq(name, "unauthenticated".as_bytes()) {
        Some(ErrorCode::Unauthenticated)
    } else if bytes_eq(name, "resource_exhausted".as_bytes()) {
        Some(ErrorCode::ResourceExhausted)
    } else if bytes_eq(name, "failed_precondition".as_bytes()) {
        Some(ErrorCode::FailedPrecondition)
    } else if bytes_eq(name, "aborted".as_bytes()) {
        Some(ErrorCode::Aborted)
    } else if bytes_eq(name, "out_of_range".as_bytes()) {
        Some(ErrorCode::OutOfRange)
    } else if bytes_eq(name, "unimplemented".as_bytes()) {
        Some(ErrorCode::Unimplemented)
    } else if bytes_eq(name, "internal".as_bytes()) {
        Some(ErrorCode::Internal)
    } else if bytes_eq(name, "unavailable".as_bytes()) {
        Some(ErrorCode::Unavailable)
    } else if bytes_eq(name, "dataloss".as_bytes()) {
        Some(ErrorCode::DataLoss)
    } else {
        None
    }
}

/// `body` holds, from `at`, exactly the escape of `m` followed by a
/// closing quote.
pub open spec fn spec_quoted_at(body: Seq<u8>, at: int, m: Seq<u8>) -> bool {
    &&& 0 <= at
    &&& at + spec_escape(m).len() + 1 <= body.len()
    &&& body.subrange(at, at + spec_escape(m).len()) == spec_escape(m)
    &&& body[at + spec_escape(m).len()] == 0x22
}

/// Peels one escape group off a quoted run: an empty remainder sits right
/// before the closing quote, and a non-empty one starts with the escape of
/// its first byte, with the rest of the run following it.
proof fn lemma_quoted_step(body: Seq<u8>, at: int, m: Seq<u8>)
    requires
        spec_quoted_at(body, at, m),
    ensures
        m.len() == 0 ==> body[at] == 0x22,
        m.len() > 0 ==> body.subrange(at, at + spec_escape_byte(m[0]).len())
            == spec_escape_byte(m[0]),
        m.len() > 0 ==> spec_quoted_at(body, at + spec_escape_byte(m[0]).len(), m.drop_first()),
{
    if m.len() == 0 {
        assert(spec_escape(m) == Seq::<u8>::empty());
    } else {
        let eb = spec_escape_byte(m[0]);
        let rest = m.drop_first();
        assert(spec_escape(m) == eb + spec_escape(rest));
        let le = eb.len() as int;
        let lm = spec_escape(m).len() as int;
        assert(body.subrange(at, at + le) =~= spec_escape(m).subrange(0, le));
        assert(spec_escape(m).subrange(0, le) =~= eb);
        assert(body.subrange(at + le, at + lm) =~= spec_escape(m).subrange(le, lm));
        assert(spec_escape(m).subrange(le, lm) =~= spec_escape(rest));
    }
}

/// Reads a JSON string from `start` up to its closing quote, undoing
/// exactly the escapes that [`spec_escape`] produces — nothing else counts
/// as canonical. On success the result holds the raw bytes and the position
/// right after the closing quote. A run that is exactly the escape of the
/// expected byte string (and its quote) is always read to its end.
fn unescape_string(body: &[u8], start: usize, expected: Ghost<Option<Seq<u8>>>) -> (r: Option<
    (Vec<u8>, usize),
>)
    requires
        start <= body@.len(),
    ensures
        r matches Some(p) ==> start < p.1 <= body@.len() && body@.subrange(
            start as int,
            p.1 - 1,
        ) == spec_escape(p.0@) && body@[p.1 - 1] == 0x22,
        expected@ matches Some(m) ==> (spec_quoted_at(body@, start as int, m) ==> (r matches Some(
            p,
        ) && p.1 == start + spec_escape(m).len() + 1)),
{
    let ghost canon: bool = match expected@ {
        Some(m) => spec_quoted_at(body@, start as int, m),
        None => false,
    };
    let ghost m0: Seq<u8> = match expected@ {
        Some(m) => m,
        None => Seq::empty(),
    };
    let ghost mut ms: Seq<u8> = m0;
    let mut out: Vec<u8> = Vec::new();
    let mut i: usize = start;
    while i < body.len()
        invariant
            start <= i <= body@.len(),
            body@.subrange(start as int, i as int) == spec_escape(out@),
            canon == (match expected@ {
                Some(m) => spec_quoted_at(body@, start as int, m),
                None => false,
            }),
            expected@ matches Some(m) ==> m == m0,
            canon ==> spec_quoted_at(body@, i as int, ms) && i + spec_escape(ms).len() == start
                + spec_escape(m0).len(),
        decreases body@.len() - i,
    {
        proof {
            if canon {
                lemma_quoted_step(body@, i as int, ms);
            }
        }
        let b: u8 = body[i];
        if b == 0x22 {
            proof {
                if canon {
                    if ms.len() > 0 {
                        assert(body@[i as int] == spec_escape_byte(ms[0])[0]);
                        assert(spec_escape_byte(ms[0])[0] != 0x22);
                    }
                    assert(ms.len() == 0);
                    assert(spec_escape(ms).len() == 0);
                }
            }
            return Some((out, i + 1));
        } else if b == 0x5c {
            proof {
                if canon {
                    // The head of the remaining run is an escaped byte.
                    assert(ms.len() > 0);
                    assert(spec_escape_byte(ms[0])[0] == 0x5c);
                    assert(spec_escape_byte(ms[0]).len() >= 2);
                    assert(body@[i + 1] == spec_escape_byte(ms[0])[1]);
                }
            }
            if i + 1 >= body.len() {
                proof {
                    if canon {
                        assert(false);
                    }
                }
                return None;
            }
            let e: u8 = body[i + 1];
            if e == 0x75 {
                // `\u00XX` is the canonical form only of the control
                // characters that have no short escape.
                proof {
                    if canon {
                        let h = ms[0];
                        assert(spec_escape_byte(h)[1] == 0x75);
                        assert(h < 0x20 && h != 0x08 && h != 0x09 && h != 0x0a && h != 0x0c && h
                            != 0x0d && h != 0x22 && h != 0x5c);
                        assert(spec_escape_byte(h).len() == 6);
                        assert(body@[i + 2] == 0x30 && body@[i + 3] == 0x30);
                        assert(body@[i + 4] == spec_hex_digit(h / 16));
                        assert(body@[i + 5] == spec_hex_digit(h % 16));
                    }
                }
                if body.len() - i < 6 {
                    proof {
                        if canon {
                            assert(false);
                        }
                    }
                    return None;
                }
                if body[i + 2] != 0x30 || body[i + 3] != 0x30 {
                    proof {
                        if canon {
                            assert(false);
                        }
                    }
                    return None;
                }
                let d1: u8 = body[i + 4];
                let d2: u8 = body[i + 5];
                if d1 != 0x30 && d1 != 0x31 {
                    proof {
                        if canon {
                            assert(false);
                        }
                    }
                    return None;
                }
                let hi: u8 = d1 - 0x30;
                let lo: u8 = if 0x30 <= d2 && d2 <= 0x39 {
                    d2 - 0x30
                } else if 0x61 <= d2 && d2 <= 0x66 {
                    d2 - 0x57
                } else {
                    proof {
                        if canon {
                            assert(false);
                        }
                    }
                    return None;
                };
                let value: u8 = hi * 16 + lo;
                if value == 0x08 || value == 0x09 || value == 0x0a || value == 0x0c || value
                    == 0x0d {
                    proof {
                        if canon {
                            assert(value == ms[0]);
                            assert(false);
                        }
                    }
                    return None;
                }
                proof {
                    lemma_escape_push(out@, value);
                    assert(body@.subrange(i as int, i + 6 as int) =~= spec_escape_byte(value));
                    assert(body@.subrange(start as int, i + 6 as int) =~= body@.subrange(
                        start as int,
                        i as int,
                    ) + body@.subrange(i as int, i + 6 as int));
                    if canon {
                        assert(value == ms[0]);
                        ms = ms.drop_first();
                    }
                }
                out.push(value);
                i += 6;
            } else {
                let unescaped: u8 = if e == 0x22 {
                    0x22
                } else if e == 0x5c {
                    0x5c
                } else if e == 0x62 {
                    0x08
                } else if e == 0x74 {
                    0x09
                } else if e == 0x6e {
                    0x0a
                } else if e == 0x66 {
                    0x0c
                } else if e == 0x72 {
                    0x0d
                } else {
                    proof {
                        if canon {
                            assert(spec_escape_byte(ms[0])[1] == e);
                            assert(false);
                        }
                    }
                    return None;
                };
                proof {
                    lemma_escape_push(out@, unescaped);
                    assert(body@.subrange(i as int, i + 2 as int) =~= spec_escape_byte(unescaped));
                    assert(body@.subrange(start as int, i + 2 as int) =~= body@.subrange(
                        start as int,
                        i as int,
                    ) + body@.subrange(i as int, i + 2 as int));
                    if canon {
                        assert(unescaped == ms[0]);
                        assert(spec_escape_byte(ms[0]).len() == 2);
                        ms = ms.drop_first();
                    }
                }
                out.push(unescaped);
                i += 2;
            }
        } else if b < 0x20 {
            // A raw control byte never appears in a canonical body.
            proof {
                if canon {
                    if ms.len() > 0 {
                        assert(body@[i as int] == spec_escape_byte(ms[0])[0]);
                    }
                    assert(false);
                }
            }
            return None;
        } else {
            proof {
                lemma_escape_push(out@, b);
                assert(body@.subrange(i as int, i + 1 as int) =~= spec_escape_byte(b));
                assert(body@.subrange(start as int, i + 1 as int) =~= body@.subrange(
                    start as int,
                    i as int,
                ) + body@.subrange(i as int, i + 1 as int));
                if canon {
                    assert(ms.len() > 0);
                    assert(b == ms[0]);
                    assert(spec_escape_byte(ms[0]).len() == 1);
                    ms = ms.drop_first();
                }
            }
            out.push(b);
            i += 1;
        }
    }
    proof {
        if canon {
            assert(false);
        }
    }
    None
}

/// The wire name of a taxonomy code never holds a quote, so a scan for
/// the first quote reads past the whole name.
proof fn lemma_name_has_no_quote(c: ErrorCode)
    ensures
        forall|j: int|
            0 <= j < encode_utf8(c.spec_name()).len() ==> #[trigger] encode_utf8(
                c.spec_name(),
            )[j] != 0x22,
{
    match c {
        ErrorCode::Cancelled => {
            reveal_strlit("canceled");
            assert(vstd::utf8::is_ascii_chars("canceled"@));
            vstd::utf8::is_ascii_chars_encode_utf8("canceled"@);
            assert forall|j: int|
                0 <= j < encode_utf8("canceled"@).len() implies #[trigger] encode_utf8("canceled"@)[j]
                != 0x22 by {
                assert("canceled"@[j] != '"');
            }
        },
        ErrorCode::Unknown => {
            reveal_strlit("unknown");
            assert(vstd::utf8::is_ascii_chars("unknown"@));
            vstd::utf8::is_ascii_chars_encode_utf8("unknown"@);
            assert forall|j: int|
                0 <= j < encode_utf8("unknown"@).len() implies #[trigger] encode_utf8("unknown"@)[j]
                != 0x22 by {
                assert("unknown"@[j] != '"');
            }
        },
        ErrorCode::InvalidArgument => {
            reveal_strlit("invalid_argument");
            assert(vstd::utf8::is_ascii_chars("invalid_argument"@));
            vstd::utf8::is_ascii_chars_encode_utf8("invalid_argument"@);
            assert forall|j: int|
                0 <= j < encode_utf8("invalid_argument"@).len() implies #[trigger] encode_utf8("invalid_argument"@)[j]
                != 0x22 by {
                assert("invalid_argument"@[j] != '"');
            }
        },
        ErrorCode::Malformed => {
            reveal_strlit("malformed");
            assert(vstd::utf8::is_ascii_chars("malformed"@));
            vstd::utf8::is_ascii_chars_encode_utf8("malformed"@);
            assert forall|j: int|
                0 <= j < encode_utf8("malformed"@).len() implies #[trigger] encode_utf8("malformed"@)[j]
                != 0x22 by {
                assert("malformed"@[j] != '"');
            }
        },
        ErrorCode::DeadlineExceeded => {
            reveal_strlit("deadline_exceeded");
            assert(vstd::utf8::is_ascii_chars("deadline_exceeded"@));
            vstd::utf8::is_ascii_chars_encode_utf8("deadline_exceeded"@);
            assert forall|j: int|
                0 <= j < encode_utf8("deadline_exceeded"@).len() implies #[trigger] encode_utf8("deadline_exceeded"@)[j]
                != 0x22 by {
                assert("deadline_exceeded"@[j] != '"');
            }
        },
        ErrorCode::NotFound => {
            reveal_strlit("not_found");
            assert(vstd::utf8::is_ascii_chars("not_found"@));
            vstd::utf8::is_ascii_chars_encode_utf8("not_found"@);
            assert forall|j: int|
                0 <= j < encode_utf8("not_found"@).len() implies #[trigger] encode_utf8("not_found"@)[j]
                != 0x22 by {
                assert("not_found"@[j] != '"');
            }
        },
        ErrorCode::BadRoute => {
            reveal_strlit("bad_route");
            assert(vstd::utf8::is_ascii_chars("bad_route"@));
            vstd::utf8::is_ascii_chars_encode_utf8("bad_route"@);
            assert forall|j: int|
                0 <= j < encode_utf8("bad_route"@).len() implies #[trigger] encode_utf8("bad_route"@)[j]
                != 0x22 by {
                assert("bad_route"@[j] != '"');
            }
        },
        ErrorCode::AlreadyExists => {
            reveal_strlit("already_exists");
            assert(vstd::utf8::is_ascii_chars("already_exists"@));
            vstd::utf8::is_ascii_chars_encode_utf8("already_exists"@);
            assert forall|j: int|
                0 <= j < encode_utf8("already_exists"@).len() implies #[trigger] encode_utf8("already_exists"@)[j]
                != 0x22 by {
                assert("already_exists"@[j] != '"');
            }
        },
        ErrorCode::PermissionDenied => {
            reveal_strlit("permission_denied");
            assert(vstd::utf8::is_ascii_chars("permission_denied"@));
            vstd::utf8::is_ascii_chars_encode_utf8("permission_denied"@);
            assert forall|j: int|
                0 <= j < encode_utf8("permission_denied"@).len() implies #[trigger] encode_utf8("permission_denied"@)[j]
                != 0x22 by {
                assert("permission_denied"@[j] != '"');
            }
        },
        ErrorCode::Unauthenticated => {
            reveal_strlit("unauthenticated");
            assert(vstd::utf8::is_ascii_chars("unauthenticated"@));
            vstd::utf8::is_ascii_chars_encode_utf8("unauthenticated"@);
            assert forall|j: int|
                0 <= j < encode_utf8("unauthenticated"@).len() implies #[trigger] encode_utf8("unauthenticated"@)[j]
                != 0x22 by {
                assert("unauthenticated"@[j] != '"');
            }
        },
        ErrorCode::ResourceExhausted => {
            reveal_strlit("resource_exhausted");
            assert(vstd::utf8::is_ascii_chars("resource_exhausted"@));
            vstd::utf8::is_ascii_chars_encode_utf8("resource_exhausted"@);
            assert forall|j: int|
                0 <= j < encode_utf8("resource_exhausted"@).len() implies #[trigger] encode_utf8("resource_exhausted"@)[j]
                != 0x22 by {
                assert("resource_exhausted"@[j] != '"');
            }
        },
        ErrorCode::FailedPrecondition => {
            reveal_strlit("failed_precondition");
            assert(vstd::utf8::is_ascii_chars("failed_precondition"@));
            vstd::utf8::is_ascii_chars_encode_utf8("failed_precondition"@);
            assert forall|j: int|
                0 <= j < encode_utf8("failed_precondition"@).len() implies #[trigger] encode_utf8("failed_precondition"@)[j]
                != 0x22 by {
                assert("failed_precondition"@[j] != '"');
            }
        },
        ErrorCode::Aborted => {
            reveal_strlit("aborted");
            assert(vstd::utf8::is_ascii_chars("aborted"@));
            vstd::utf8::is_ascii_chars_encode_utf8("aborted"@);
            assert forall|j: int|
                0 <= j < encode_utf8("aborted"@).len() implies #[trigger] encode_utf8("aborted"@)[j]
                != 0x22 by {
                assert("aborted"@[j] != '"');
            }
        },
        ErrorCode::OutOfRange => {
            reveal_strlit("out_of_range");
            assert(vstd::utf8::is_ascii_chars("out_of_range"@));
            vstd::utf8::is_ascii_chars_encode_utf8("out_of_range"@);
            assert forall|j: int|
                0 <= j < encode_utf8("out_of_range"@).len() implies #[trigger] encode_utf8("out_of_range"@)[j]
                != 0x22 by {
                assert("out_of_range"@[j] != '"');
            }
        },
        ErrorCode::Unimplemented => {
            reveal_strlit("unimplemented");
            assert(vstd::utf8::is_ascii_chars("unimplemented"@));
            vstd::utf8::is_ascii_chars_encode_utf8("unimplemented"@);
            assert forall|j: int|
                0 <= j < encode_utf8("unimplemented"@).len() implies #[trigger] encode_utf8("unimplemented"@)[j]
                != 0x22 by {
                assert("unimplemented"@[j] != '"');
            }
        },
        ErrorCode::Internal => {
            reveal_strlit("internal");
            assert(vstd::utf8::is_ascii_chars("internal"@));
            vstd::utf8::is_ascii_chars_encode_utf8("internal"@);
            assert forall|j: int|
                0 <= j < encode_utf8("internal"@).len() implies #[trigger] encode_utf8("internal"@)[j]
                != 0x22 by {
                assert("internal"@[j] != '"');
            }
        },
        ErrorCode::Unavailable => {
            reveal_strlit("unavailable");
            assert(vstd::utf8::is_ascii_chars("unavailable"@));
            vstd::utf8::is_ascii_chars_encode_utf8("unavailable"@);
            assert forall|j: int|
                0 <= j < encode_utf8("unavailable"@).len() implies #[trigger] encode_utf8("unavailable"@)[j]
                != 0x22 by {
                assert("unavailable"@[j] != '"');
            }
        },
        ErrorCode::DataLoss => {
            reveal_strlit("dataloss");
            assert(vstd::utf8::is_ascii_chars("dataloss"@));
            vstd::utf8::is_ascii_chars_encode_utf8("dataloss"@);
            assert forall|j: int|
                0 <= j < encode_utf8("dataloss"@).len() implies #[trigger] encode_utf8("dataloss"@)[j]
                != 0x22 by {
                assert("dataloss"@[j] != '"');
            }
        },
    }
}

/// The three fixed pieces of the canonical body: their lengths and the
/// bytes the parser tests.
proof fn lemma_frame_literals()
    ensures
        encode_utf8("{\"code\":\""@).len() == 9,
        encode_utf8("\",\"msg\":\""@).len() == 9,
        encode_utf8("\",\"msg\":\""@)[0] == 0x22,
        encode_utf8("\"}"@).len() == 2,
        encode_utf8("\"}"@)[0] == 0x22,
        encode_utf8("\"}"@)[1] == 0x7d,
{
    reveal_strlit("{\"code\":\"");
    reveal_strlit("\",\"msg\":\"");
    reveal_strlit("\"}");
    assert(vstd::utf8::is_ascii_chars("{\"code\":\""@));
    assert(vstd::utf8::is_ascii_chars("\",\"msg\":\""@));
    assert(vstd::utf8::is_ascii_chars("\"}"@));
    vstd::utf8::is_ascii_chars_encode_utf8("{\"code\":\""@);
    vstd::utf8::is_ascii_chars_encode_utf8("\",\"msg\":\""@);
    vstd::utf8::is_ascii_chars_encode_utf8("\"}"@);
}

/// Parses a body that has exactly the canonical JSON error shape. On
/// success the record's code and message are the parsed ones; anything else
/// yields `None`.
#[verifier::rlimit(100)]
pub fn parse_error_body(body: &[u8]) -> (r: Option<ErrorRecord>)
    ensures
        r matches Some(e) ==> (exists|mb: Seq<u8>|
            body@ == spec_error_body_bytes(e.code, mb) && e.message@ == lossy_decoded(mb)),
        r matches Some(e) ==> e.cause is None,
        (exists|c: ErrorCode, mb: Seq<u8>| body@ == spec_error_body_bytes(c, mb)) ==> r is Some,
{
    let ghost canonical: bool = exists|c: ErrorCode, mb: Seq<u8>|
        body@ == spec_error_body_bytes(c, mb);
    let ghost (c0, mb0): (ErrorCode, Seq<u8>) = if canonical {
        choose|c: ErrorCode, mb: Seq<u8>| body@ == spec_error_body_bytes(c, mb)
    } else {
        (ErrorCode::Internal, Seq::empty())
    };
    let ghost nb: Seq<u8> = encode_utf8(c0.spec_name());
    let ghost eb: Seq<u8> = spec_escape(mb0);
    proof {
        lemma_frame_literals();
        if canonical {
            lemma_name_has_no_quote(c0);
            assert(body@ == encode_utf8("{\"code\":\""@) + nb + encode_utf8("\",\"msg\":\""@)
                + eb + encode_utf8("\"}"@));
            assert(body@.len() == 9 + nb.len() as int + 9 + eb.len() as int + 2);
            assert(body@.subrange(0, 9) =~= encode_utf8("{\"code\":\""@));
            assert(body@.subrange(9, 9 + nb.len() as int) =~= nb);
            assert(body@.subrange(9 + nb.len() as int, 18 + nb.len() as int) =~= encode_utf8("\",\"msg\":\""@));
            assert(body@.subrange(18 + nb.len() as int, 18 + nb.len() as int + eb.len() as int) =~= eb);
            assert(body@.subrange(18 + nb.len() as int + eb.len() as int, body@.len() as int) =~= encode_utf8(
                "\"}"@,
            ));
        }
    }
    if body.len() < 9 {
        proof {
            if canonical {
                assert(false);
            }
        }
        return None;
    }
    if !bytes_eq(&body[0..9], "{\"code\":\"".as_bytes()) {
        proof {
            if canonical {
                assert(false);
            }
        }
        return None;
    }
    // The wire name runs to the next quote; names hold no quote.
    let mut q: usize = 9;
    while q < body.len() && body[q] != 0x22
        invariant
            9 <= q <= body@.len(),
            forall|j: int| 9 <= j < q ==> body@[j] != 0x22,
        decreases body@.len() - q,
    {
        q += 1;
    }
    proof {
        if canonical {
            assert(body@[9 + nb.len() as int] == encode_utf8("\",\"msg\":\""@)[0]);
            assert(body@[9 + nb.len() as int] == 0x22);
            assert(q <= 9 + nb.len() as int);
            if q < 9 + nb.len() as int {
                assert(body@[q as int] == nb[q - 9]);
                assert(nb[q - 9] != 0x22);
                assert(q < body@.len());
                assert(body@[q as int] == 0x22);
            }
            assert(q == 9 + nb.len() as int);
        }
    }
    if body.len() - q < 9 {
        proof {
            if canonical {
                assert(body@.len() - q == 11 + eb.len() as int);
                assert(false);
            }
        }
        return None;
    }
    let code = match code_of_name(&body[9..q]) {
        Some(code) => code,
        None => {
            proof {
                if canonical {
                    assert(body@.subrange(9, q as int) == nb);
                    assert(spec_code_of_name(nb) is Some);
                    assert(false);
                }
            }
            return None;
        },
    };
    if !bytes_eq(&body[q..q + 9], "\",\"msg\":\"".as_bytes()) {
        proof {
            if canonical {
                assert(body@.subrange(q as int, q + 9) == encode_utf8("\",\"msg\":\""@));
                assert(false);
            }
        }
        return None;
    }
    proof {
        if canonical {
            assert(spec_quoted_at(body@, q + 9, mb0)) by {
                assert(body@.subrange(q + 9, q + 9 + eb.len() as int) == eb);
                assert(body@[q + 9 + eb.len() as int] == encode_utf8("\"}"@)[0]);
                assert(q + 9 + eb.len() as int + 1 <= body@.len());
            }
        }
    }
    let ghost expected: Option<Seq<u8>> = if canonical {
        Some(mb0)
    } else {
        None
    };
    let (message_bytes, end) = match unescape_string(body, q + 9, Ghost(expected)) {
        Some(p) => p,
        None => {
            proof {
                if canonical {
                    assert(false);
                }
            }
            return None;
        },
    };
    if end >= body.len() || end + 1 != body.len() || body[end] != 0x7d {
        proof {
            if canonical {
                assert(end == q + 9 + eb.len() as int + 1);
                assert(end + 1 == body@.len());
                assert(body@[end as int] == encode_utf8("\"}"@)[1]);
                assert(false);
            }
        }
        return None;
    }
    proof {
        assert(body@ =~= body@.subrange(0, 9) + body@.subrange(9, q as int) + body@.subrange(
            q as int,
            q + 9 as int,
        ) + body@.subrange(q + 9 as int, end - 1) + body@.subrange(end - 1, end + 1 as int));
        assert(body@.subrange(end - 1, end + 1 as int) =~= encode_utf8("\"}"@)) by {
            assert(body@[end - 1] == 0x22);
            assert(body@[end as int] == 0x7d);
        }
        assert(body@ == spec_error_body_bytes(code, message_bytes@));
    }
    let message = utf8_lossy(message_bytes.as_slice());
    Some(ErrorRecord::new(code, message))
}

/// Lifts a generic HTTP response into the taxonomy by reading its body: a
/// canonical JSON error body yields its own code and message; any other
/// body defaults to an `Internal` record that carries the body text, so
/// the conversion never fails, whatever the response's status was.
pub fn error_from_response(status: u16, body: &[u8]) -> (r: ErrorRecord)
    ensures
        (exists|mb: Seq<u8>|
            body@ == spec_error_body_bytes(r.code, mb) && r.message@ == lossy_decoded(mb)) || ((
        forall|c: ErrorCode, mb: Seq<u8>| body@ != #[trigger] spec_error_body_bytes(c, mb))
            && r.code == ErrorCode::Internal && r.message@ == lossy_decoded(body@)),
{
    let _ = status;
    match parse_error_body(body) {
        Some(record) => record,
        None => ErrorRecord::new(ErrorCode::Internal, utf8_lossy(body)),
    }
}

} // verus!
