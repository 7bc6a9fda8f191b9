//! Parser for the interactive sandbox console command
//! `fast_forward(<blocks>)`.

use vstd::prelude::*;
use vstd::string::StringSliceAdditionalSpecFns;

verus! {

/// ASCII whitespace, as trimmed from console input.
pub open spec fn is_ascii_ws(c: u8) -> bool {
    c == 0x20 || (0x09 <= c && c <= 0x0d)
}

/// Index of the first non-whitespace byte at or after `i`.
pub open spec fn first_non_ws(s: Seq<u8>, i: int) -> int
    decreases s.len() - i when 0 <= i <= s.len()
{
    if i < s.len() && is_ascii_ws(s[i]) {
        first_non_ws(s, i + 1)
    } else {
        i
    }
}

/// Index just after the last non-whitespace byte before `j`.
pub open spec fn end_non_ws(s: Seq<u8>, j: int) -> int
    decreases j when 0 <= j <= s.len()
{
    if j > 0 && is_ascii_ws(s[j - 1]) {
        end_non_ws(s, j - 1)
    } else {
        j
    }
}

/// The input with leading and trailing ASCII whitespace removed.
pub open spec fn trim_spec(s: Seq<u8>) -> Seq<u8> {
    let lo = first_non_ws(s, 0);
    let hi = end_non_ws(s, s.len() as int);
    if lo <= hi {
        s.subrange(lo, hi)
    } else {
        Seq::empty()
    }
}

pub open spec fn is_digit(c: u8) -> bool {
    48 <= c && c <= 57
}

pub open spec fn all_digits(s: Seq<u8>) -> bool {
    forall|k: int| 0 <= k < s.len() ==> is_digit(#[trigger] s[k])
}

/// Value of a string of decimal digits.
pub open spec fn digits_val(s: Seq<u8>) -> int
    decreases s.len()
{
    if s.len() == 0 {
        0
    } else {
        digits_val(s.drop_last()) * 10 + (s.last() - 48)
    }
}

/// What `str::parse::<u64>` accepts: an optional `+` sign followed by at
/// least one decimal digit, with the value fitting in 64 bits.
pub open spec fn parse_u64_spec(s: Seq<u8>) -> Option<u64> {
    let t = if s.len() > 0 && s[0] == 43 {
        s.drop_first()
    } else {
        s
    };
    if t.len() == 0 || !all_digits(t) || digits_val(t) > u64::MAX {
        None
    } else {
        Some(digits_val(t) as u64)
    }
}

pub open spec fn command_prefix() -> Seq<u8> {
    seq![102, 97, 115, 116, 95, 102, 111, 114, 119, 97, 114, 100, 40]
}

/// The number of blocks named by a `fast_forward(<blocks>)` command, if the
/// trimmed input has that exact shape.
pub open spec fn parse_fast_forward_spec(s: Seq<u8>) -> Option<u64> {
    let t = trim_spec(s);
    if t.len() >= 14 && t.subrange(0, 13) == command_prefix() && t.last() == 41 {
        parse_u64_spec(t.subrange(13, t.len() - 1))
    } else {
        None
    }
}

proof fn lemma_digits_val_nonneg(s: Seq<u8>)
    requires
        all_digits(s),
    ensures
        digits_val(s) >= 0,
    decreases s.len(),
{
    if s.len() > 0 {
        assert(all_digits(s.drop_last())) by {
            assert(forall|k: int|
                0 <= k < s.len() - 1 ==> is_digit(#[trigger] s.drop_last()[k]) == is_digit(s[k]));
        }
        lemma_digits_val_nonneg(s.drop_last());
    }
}

proof fn lemma_digits_val_prefix_le(s: Seq<u8>, k: int)
    requires
        all_digits(s),
        0 <= k <= s.len(),
    ensures
        digits_val(s.take(k)) <= digits_val(s),
    decreases s.len() - k,
{
    if k < s.len() {
        lemma_digits_val_prefix_le(s, k + 1);
        assert(s.take(k + 1).drop_last() =~= s.take(k));
        assert(all_digits(s.take(k))) by {
            assert(forall|m: int|
                0 <= m < k ==> is_digit(#[trigger] s.take(k)[m]) == is_digit(s[m]));
        }
        lemma_digits_val_nonneg(s.take(k));
        assert(is_digit(s.take(k + 1).last()));
        assert(digits_val(s.take(k + 1)) == digits_val(s.take(k)) * 10 + (s[k] - 48));
    } else {
        assert(s.take(k) =~= s);
    }
}

/// Parses the decimal digits of `s` between `lo` and `hi` as a `u64`,
/// allowing one leading `+`, as `str::parse::<u64>` does.
#[verifier::loop_isolation(false)]
fn parse_u64_range(s: &[u8], lo: usize, hi: usize) -> (r: Option<u64>)
    requires
        lo <= hi <= s@.len(),
    ensures
        r == parse_u64_spec(s@.subrange(lo as int, hi as int)),
{
    let ghost sub = s@.subrange(lo as int, hi as int);
    let start: usize = if lo < hi && s[lo] == 43 {
        lo + 1
    } else {
        lo
    };
    let ghost t = s@.subrange(start as int, hi as int);
    proof {
        if sub.len() > 0 && sub[0] == 43 {
            assert(t =~= sub.drop_first());
        } else {
            assert(t =~= sub);
        }
    }
    if start == hi {
        return None;
    }
    let mut acc: u64 = 0;
    let mut i: usize = start;
    while i < hi
        invariant
            start <= i <= hi <= s@.len(),
            t == s@.subrange(start as int, hi as int),
            all_digits(t.take(i - start)),
            acc == digits_val(t.take(i - start)),
        decreases hi - i,
    {
        let c = s[i];
        if !(48 <= c && c <= 57) {
            proof {
                assert(!is_digit(t[i - start]));
                assert(!all_digits(t));
            }
            return None;
        }
        let d: u64 = (c - 48) as u64;
        proof {
            assert(t.take(i - start + 1).drop_last() =~= t.take(i - start));
            assert(t.take(i - start + 1).last() == t[i - start]);
        }
        if acc > (u64::MAX - d) / 10 {
            proof {
                assert(digits_val(t.take(i - start + 1)) > u64::MAX);
                if all_digits(t) {
                    lemma_digits_val_prefix_le(t, i - start + 1);
                    assert(digits_val(t) > u64::MAX);
                }
            }
            return None;
        }
        acc = acc * 10 + d;
        i = i + 1;
    }
    proof {
        assert(t.take(hi - start) =~= t);
    }
    Some(acc)
}

/// Whether a byte is ASCII whitespace.
fn is_ws_byte(c: u8) -> (r: bool)
    ensures
        r == is_ascii_ws(c),
{
    c == 0x20 || (0x09 <= c && c <= 0x0d)
}

/// Parses the sandbox console command `fast_forward(<blocks>)`, returning the
/// number of blocks to skip, after trimming surrounding ASCII whitespace.
#[verifier::loop_isolation(false)]
pub fn parse_fast_forward_command(input: &str) -> (r: Option<u64>)
    ensures
        r == parse_fast_forward_spec(input.spec_bytes()),
{
    let s: &[u8] = input.as_bytes();
    let n: usize = s.len();
    let mut lo: usize = 0;
    while lo < n && is_ws_byte(s[lo])
        invariant
            0 <= lo <= n == s@.len(),
            first_non_ws(s@, 0) == first_non_ws(s@, lo as int),
        decreases n - lo,
    {
        lo = lo + 1;
    }
    let mut hi: usize = n;
    while hi > 0 && is_ws_byte(s[hi - 1])
        invariant
            0 <= hi <= n == s@.len(),
            end_non_ws(s@, n as int) == end_non_ws(s@, hi as int),
        decreases hi,
    {
        hi = hi - 1;
    }
    proof {
        assert(first_non_ws(s@, lo as int) == lo);
        assert(end_non_ws(s@, hi as int) == hi);
    }
    if lo >= hi {
        return None;
    }
    let ghost t = s@.subrange(lo as int, hi as int);
    assert(t == trim_spec(s@));
    if hi - lo < 14 {
        return None;
    }
    let prefix: [u8; 13] = [
        102, 97, 115, 116, 95, 102, 111, 114, 119, 97, 114, 100, 40,
    ];
    let mut k: usize = 0;
    while k < 13
        invariant
            0 <= k <= 13,
            lo + 14 <= hi <= s@.len(),
            t == s@.subrange(lo as int, hi as int),
            prefix@ == command_prefix(),
            forall|m: int| 0 <= m < k ==> t[m] == command_prefix()[m],
        decreases 13 - k,
    {
        if s[lo + k] != prefix[k] {
            proof {
                assert(t[k as int] != command_prefix()[k as int]);
                assert(t.subrange(0, 13)[k as int] == t[k as int]);
                assert(t.subrange(0, 13) != command_prefix());
            }
            return None;
        }
        k = k + 1;
    }
    assert(t.subrange(0, 13) =~= command_prefix());
    if s[hi - 1] != 41 {
        assert(t.last() != 41);
        return None;
    }
    let r = parse_u64_range(s, lo + 13, hi - 1);
    proof {
        assert(s@.subrange(lo as int + 13, hi as int - 1) =~= t.subrange(13, t.len() - 1));
    }
    r
}

} // verus!
