//! NEAR account identifiers: between 2 and 64 bytes of lowercase letters,
//! digits and the separators `-`, `_` and `.`, where no separator starts or
//! ends the identifier and no two separators touch.

use vstd::prelude::*;
use vstd::string::StringSliceAdditionalSpecFns;

verus! {

pub open spec fn is_account_byte(c: u8) -> bool {
    (97 <= c && c <= 122) || (48 <= c && c <= 57) || c == 45 || c == 95 || c == 46
}

pub open spec fn is_separator(c: u8) -> bool {
    c == 45 || c == 95 || c == 46
}

/// A well-formed account identifier.
pub open spec fn valid_account_bytes(s: Seq<u8>) -> bool {
    &&& 2 <= s.len() <= 64
    &&& forall|i: int| 0 <= i < s.len() ==> is_account_byte(#[trigger] s[i])
    &&& !is_separator(s[0])
    &&& !is_separator(s[s.len() - 1])
    &&& forall|i: int| 0 < i < s.len() ==> !(is_separator(s[i - 1]) && is_separator(#[trigger] s[i]))
}

/// Checks an account identifier, byte for byte.
#[verifier::loop_isolation(false)]
pub fn validate_account_bytes(s: &[u8]) -> (r: bool)
    ensures
        r == valid_account_bytes(s@),
{
    let n = s.len();
    if n < 2 || n > 64 {
        return false;
    }
    let mut i: usize = 0;
    let mut last_sep = false;
    while i < n
        invariant
            0 <= i <= n == s@.len(),
            2 <= n <= 64,
            forall|k: int| 0 <= k < i ==> is_account_byte(#[trigger] s@[k]),
            i > 0 ==> !is_separator(s@[0]),
            last_sep == (i > 0 && is_separator(s@[i - 1])),
            forall|k: int| 0 < k < i ==> !(is_separator(s@[k - 1]) && is_separator(#[trigger] s@[k])),
        decreases n - i,
    {
        let c = s[i];
        let sep = c == 45 || c == 95 || c == 46;
        let alnum = (97 <= c && c <= 122) || (48 <= c && c <= 57);
        if !sep && !alnum {
            proof {
                assert(!is_account_byte(s@[i as int]));
            }
            return false;
        }
        if sep && i == 0 {
            return false;
        }
        if sep && last_sep {
            proof {
                assert(is_separator(s@[i - 1]) && is_separator(s@[i as int]));
            }
            return false;
        }
        last_sep = sep;
        i = i + 1;
    }
    if last_sep {
        return false;
    }
    true
}

/// Checks an account identifier given as a string.
pub fn validate_account_id(s: &str) -> (r: bool)
    ensures
        r == valid_account_bytes(s.spec_bytes()),
{
    validate_account_bytes(s.as_bytes())
}

} // verus!
