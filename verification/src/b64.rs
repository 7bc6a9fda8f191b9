//! Standard base64 with padding, as the web4 gateway protocol uses it for
//! response bodies and preloaded content.  The encoding is specified here
//! exactly; the executable work is done by the `base64` crate's standard
//! engine, which implements this same canonical, strictly validated form.

use vstd::prelude::*;
use vstd::string::StringSliceAdditionalSpecFns;
use base64::Engine;

verus! {

/// ASCII byte of the base64 alphabet for a 6-bit value.
pub open spec fn b64_byte(v: int) -> u8
    recommends
        0 <= v < 64,
{
    if v < 26 {
        (65 + v) as u8
    } else if v < 52 {
        (97 + (v - 26)) as u8
    } else if v < 62 {
        (48 + (v - 52)) as u8
    } else if v == 62 {
        43
    } else {
        47
    }
}

/// 6-bit value of a base64 alphabet byte, or -1 for any other byte.
pub open spec fn b64_digit(c: u8) -> int {
    if 65 <= c && c <= 90 {
        c - 65
    } else if 97 <= c && c <= 122 {
        (c - 97) + 26
    } else if 48 <= c && c <= 57 {
        (c - 48) + 52
    } else if c == 43 {
        62
    } else if c == 47 {
        63
    } else {
        -1
    }
}

/// Canonical padded base64 encoding: groups of three bytes become four
/// alphabet bytes; a final group of one or two bytes is padded with `=`.
pub open spec fn b64_encode_bytes(b: Seq<u8>) -> Seq<u8>
    decreases b.len(),
{
    if b.len() == 0 {
        Seq::empty()
    } else if b.len() == 1 {
        let b0 = b[0] as int;
        seq![b64_byte(b0 / 4), b64_byte((b0 % 4) * 16), 61, 61]
    } else if b.len() == 2 {
        let b0 = b[0] as int;
        let b1 = b[1] as int;
        seq![b64_byte(b0 / 4), b64_byte((b0 % 4) * 16 + b1 / 16), b64_byte((b1 % 16) * 4), 61]
    } else {
        let b0 = b[0] as int;
        let b1 = b[1] as int;
        let b2 = b[2] as int;
        seq![
            b64_byte(b0 / 4),
            b64_byte((b0 % 4) * 16 + b1 / 16),
            b64_byte((b1 % 16) * 4 + b2 / 64),
            b64_byte(b2 % 64),
        ] + b64_encode_bytes(b.skip(3))
    }
}

/// Strict decoding of canonical padded base64: the length must be a multiple
/// of four, `=` may appear only at the end of the last group, and the unused
/// trailing bits of a padded group must be zero.  Exactly the inputs that the
/// standard engine accepts.
pub open spec fn b64_decode_bytes(s: Seq<u8>) -> Option<Seq<u8>>
    decreases s.len(),
{
    if s.len() == 0 {
        Some(Seq::empty())
    } else if s.len() % 4 != 0 {
        None
    } else if s.len() == 4 {
        let c0 = b64_digit(s[0]);
        let c1 = b64_digit(s[1]);
        if c0 < 0 || c1 < 0 {
            None
        } else if s[2] == 61 && s[3] == 61 {
            if c1 % 16 == 0 {
                Some(seq![(c0 * 4 + c1 / 16) as u8])
            } else {
                None
            }
        } else if s[3] == 61 {
            let c2 = b64_digit(s[2]);
            if c2 < 0 {
                None
            } else if c2 % 4 == 0 {
                Some(seq![(c0 * 4 + c1 / 16) as u8, ((c1 % 16) * 16 + c2 / 4) as u8])
            } else {
                None
            }
        } else {
            let c2 = b64_digit(s[2]);
            let c3 = b64_digit(s[3]);
            if c2 < 0 || c3 < 0 {
                None
            } else {
                Some(
                    seq![
                        (c0 * 4 + c1 / 16) as u8,
                        ((c1 % 16) * 16 + c2 / 4) as u8,
                        ((c2 % 4) * 64 + c3) as u8,
                    ],
                )
            }
        }
    } else {
        let c0 = b64_digit(s[0]);
        let c1 = b64_digit(s[1]);
        let c2 = b64_digit(s[2]);
        let c3 = b64_digit(s[3]);
        if c0 < 0 || c1 < 0 || c2 < 0 || c3 < 0 {
            None
        } else {
            match b64_decode_bytes(s.skip(4)) {
                Option::Some(rest) => Some(
                    seq![
                        (c0 * 4 + c1 / 16) as u8,
                        ((c1 % 16) * 16 + c2 / 4) as u8,
                        ((c2 % 4) * 64 + c3) as u8,
                    ] + rest,
                ),
                Option::None => None,
            }
        }
    }
}

/// Relies on the `base64` crate's `STANDARD` engine: `encode` produces the
/// canonical padded encoding of its input.
#[verifier::external_body]
pub(crate) fn b64_encode(data: &[u8]) -> (r: String)
    ensures
        vstd::utf8::encode_utf8(r@) == b64_encode_bytes(data@),
{
    base64::engine::general_purpose::STANDARD.encode(data)
}

/// Relies on the `base64` crate's `STANDARD` engine: `decode` accepts exactly
/// the canonical padded encodings (padding required, stray `=` and set
/// trailing bits rejected) and returns the decoded bytes.
#[verifier::external_body]
pub(crate) fn b64_decode(s: &str) -> (r: Option<Vec<u8>>)
    ensures
        match r {
            Option::Some(v) => b64_decode_bytes(s.spec_bytes()) == Some(v@),
            Option::None => b64_decode_bytes(s.spec_bytes()) is None,
        },
{
    match base64::engine::general_purpose::STANDARD.decode(s.as_bytes()) {
        Ok(v) => Some(v),
        Err(_) => None,
    }
}


proof fn lemma_digit_of_byte(v: int)
    requires
        0 <= v < 64,
    ensures
        b64_digit(b64_byte(v)) == v,
        b64_byte(v) != 61,
{
}

/// Encodings have a length that is a multiple of four.
proof fn lemma_b64_encode_len(b: Seq<u8>)
    ensures
        b64_encode_bytes(b).len() % 4 == 0,
    decreases b.len(),
{
    if b.len() > 2 {
        lemma_b64_encode_len(b.skip(3));
    }
}

/// Decoding inverts encoding: every canonical encoding decodes back to the
/// bytes it came from.
pub proof fn lemma_b64_round_trip(b: Seq<u8>)
    ensures
        b64_decode_bytes(b64_encode_bytes(b)) == Some(b),
    decreases b.len(),
{
    let s = b64_encode_bytes(b);
    if b.len() == 0 {
        assert(b64_decode_bytes(s) == Some(b)) by {
            assert(s =~= Seq::<u8>::empty());
            assert(b =~= Seq::<u8>::empty());
        }
    } else if b.len() == 1 {
        let b0 = b[0] as int;
        lemma_digit_of_byte(b0 / 4);
        lemma_digit_of_byte((b0 % 4) * 16);
        assert(b64_decode_bytes(s)->Some_0 =~= b);
    } else if b.len() == 2 {
        let b0 = b[0] as int;
        let b1 = b[1] as int;
        lemma_digit_of_byte(b0 / 4);
        lemma_digit_of_byte((b0 % 4) * 16 + b1 / 16);
        lemma_digit_of_byte((b1 % 16) * 4);
        assert(b64_decode_bytes(s)->Some_0 =~= b);
    } else {
        let b0 = b[0] as int;
        let b1 = b[1] as int;
        let b2 = b[2] as int;
        lemma_digit_of_byte(b0 / 4);
        lemma_digit_of_byte((b0 % 4) * 16 + b1 / 16);
        lemma_digit_of_byte((b1 % 16) * 4 + b2 / 64);
        lemma_digit_of_byte(b2 % 64);
        let rest = b64_encode_bytes(b.skip(3));
        lemma_b64_encode_len(b.skip(3));
        lemma_b64_round_trip(b.skip(3));
        if b.len() == 3 {
            assert(rest =~= Seq::<u8>::empty());
            assert(s.len() == 4);
            assert(b64_decode_bytes(s)->Some_0 =~= b);
        } else {
            assert(s.len() == 4 + rest.len());
            assert(rest.len() > 0);
            assert(s.len() != 4 && s.len() % 4 == 0);
            assert(s.skip(4) =~= rest);
            assert(b64_decode_bytes(s)->Some_0 =~= b) by {
                assert(b.skip(3)[0] == b[3]);
            }
        }
    }
}

} // verus!
