//! Byte-level escaping: JSON string escaping for the documents the library
//! writes to the social database, and HTML double-quoted-attribute escaping
//! for the metadata that the responder substitutes into its page.

use vstd::prelude::*;

verus! {

/// JSON escape of one byte, as a compact serializer emits it: the two-byte
/// escapes for quote, backslash and the five named control characters, the
/// `\u00xx` form for the other control characters, the byte itself otherwise.
pub open spec fn json_esc_byte(c: u8) -> Seq<u8> {
    if c == 34 {
        seq![92u8, 34u8]
    } else if c == 92 {
        seq![92u8, 92u8]
    } else if c == 8 {
        seq![92u8, 98u8]
    } else if c == 12 {
        seq![92u8, 102u8]
    } else if c == 10 {
        seq![92u8, 110u8]
    } else if c == 13 {
        seq![92u8, 114u8]
    } else if c == 9 {
        seq![92u8, 116u8]
    } else if c < 0x20 {
        seq![92u8, 117u8, 48u8, 48u8, hex_digit((c / 16) as int), hex_digit((c % 16) as int)]
    } else {
        seq![c]
    }
}

/// Lowercase ASCII hex digit.
pub open spec fn hex_digit(v: int) -> u8
    recommends
        0 <= v < 16,
{
    if v < 10 {
        (48 + v) as u8
    } else {
        (87 + v) as u8
    }
}

/// JSON escape of a whole string body.
pub open spec fn json_escaped(s: Seq<u8>) -> Seq<u8>
    decreases s.len(),
{
    if s.len() == 0 {
        Seq::empty()
    } else {
        json_escaped(s.drop_last()) + json_esc_byte(s.last())
    }
}

/// HTML escape of one byte inside a double-quoted attribute: the ampersand,
/// angle brackets and double quote become character entities.
pub open spec fn attr_esc_byte(c: u8) -> Seq<u8> {
    if c == 38 {
        seq![38u8, 97u8, 109u8, 112u8, 59u8]
    } else if c == 60 {
        seq![38u8, 108u8, 116u8, 59u8]
    } else if c == 62 {
        seq![38u8, 103u8, 116u8, 59u8]
    } else if c == 34 {
        seq![38u8, 113u8, 117u8, 111u8, 116u8, 59u8]
    } else {
        seq![c]
    }
}

/// HTML escape of a whole attribute value.
pub open spec fn attr_escaped(s: Seq<u8>) -> Seq<u8>
    decreases s.len(),
{
    if s.len() == 0 {
        Seq::empty()
    } else {
        attr_escaped(s.drop_last()) + attr_esc_byte(s.last())
    }
}

/// Appends the JSON escape of `s` to `out`.
#[verifier::loop_isolation(false)]
pub fn json_escape_into(out: &mut Vec<u8>, s: &[u8])
    ensures
        final(out)@ == old(out)@ + json_escaped(s@),
{
    let n = s.len();
    let mut i: usize = 0;
    proof {
        assert(s@.take(0) =~= Seq::<u8>::empty());
        assert(old(out)@ + Seq::<u8>::empty() =~= old(out)@);
    }
    while i < n
        invariant
            0 <= i <= n == s@.len(),
            out@ == old(out)@ + json_escaped(s@.take(i as int)),
        decreases n - i,
    {
        let c = s[i];
        proof {
            assert(s@.take(i + 1).drop_last() =~= s@.take(i as int));
            assert(s@.take(i + 1).last() == s@[i as int]);
        }
        if c == 34 {
            out.push(92);
            out.push(34);
        } else if c == 92 {
            out.push(92);
            out.push(92);
        } else if c == 8 {
            out.push(92);
            out.push(98);
        } else if c == 12 {
            out.push(92);
            out.push(102);
        } else if c == 10 {
            out.push(92);
            out.push(110);
        } else if c == 13 {
            out.push(92);
            out.push(114);
        } else if c == 9 {
            out.push(92);
            out.push(116);
        } else if c < 0x20 {
            out.push(92);
            out.push(117);
            out.push(48);
            out.push(48);
            let hi = c / 16;
            let lo = c % 16;
            out.push(if hi < 10 { 48 + hi } else { 87 + hi });
            out.push(if lo < 10 { 48 + lo } else { 87 + lo });
        } else {
            out.push(c);
        }
        proof {
            assert(out@ =~= old(out)@ + json_escaped(s@.take(i + 1)));
        }
        i = i + 1;
    }
    proof {
        assert(s@.take(n as int) =~= s@);
    }
}

/// Appends the HTML attribute escape of `s` to `out`.
#[verifier::loop_isolation(false)]
pub fn attr_escape_into(out: &mut Vec<u8>, s: &[u8])
    ensures
        final(out)@ == old(out)@ + attr_escaped(s@),
{
    let n = s.len();
    let mut i: usize = 0;
    proof {
        assert(s@.take(0) =~= Seq::<u8>::empty());
        assert(old(out)@ + Seq::<u8>::empty() =~= old(out)@);
    }
    while i < n
        invariant
            0 <= i <= n == s@.len(),
            out@ == old(out)@ + attr_escaped(s@.take(i as int)),
        decreases n - i,
    {
        let c = s[i];
        proof {
            assert(s@.take(i + 1).drop_last() =~= s@.take(i as int));
            assert(s@.take(i + 1).last() == s@[i as int]);
        }
        if c == 38 {
            out.push(38);
            out.push(97);
            out.push(109);
            out.push(112);
            out.push(59);
        } else if c == 60 {
            out.push(38);
            out.push(108);
            out.push(116);
            out.push(59);
        } else if c == 62 {
            out.push(38);
            out.push(103);
            out.push(116);
            out.push(59);
        } else if c == 34 {
            out.push(38);
            out.push(113);
            out.push(117);
            out.push(111);
            out.push(116);
            out.push(59);
        } else {
            out.push(c);
        }
        proof {
            assert(out@ =~= old(out)@ + attr_escaped(s@.take(i + 1)));
        }
        i = i + 1;
    }
    proof {
        assert(s@.take(n as int) =~= s@);
    }
}

/// The HTML attribute escape of `s`, as a fresh vector.
pub fn attr_escape(s: &[u8]) -> (r: Vec<u8>)
    ensures
        r@ == attr_escaped(s@),
{
    let mut out: Vec<u8> = Vec::new();
    attr_escape_into(&mut out, s);
    proof {
        assert(Seq::<u8>::empty() + attr_escaped(s@) =~= attr_escaped(s@));
    }
    out
}

} // verus!
