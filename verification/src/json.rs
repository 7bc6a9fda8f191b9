//! A small JSON reader for the metadata documents that the social database
//! serves.  The grammar — objects, arrays, strings with the standard escape
//! sequences, raw number tokens, and the three literals — is defined by the
//! specification functions below; the executable parser returns exactly what
//! they describe.  Strings are handled as raw bytes; numbers are kept as
//! their source text, which is all the metadata reader needs.

use vstd::prelude::*;

verus! {

broadcast use vstd::std_specs::vec::group_vec_axioms;

/// A parsed JSON value.  String contents and object keys are decoded bytes;
/// numbers keep their source text.
pub enum Json {
    Null,
    Bool(bool),
    Num(Vec<u8>),
    Str(Vec<u8>),
    Arr(Vec<Json>),
    Obj(Vec<(Vec<u8>, Json)>),
}

/// The mathematical shape of a parsed JSON value.
pub enum JsonSpec {
    Null,
    Bool(bool),
    Num(Seq<u8>),
    Str(Seq<u8>),
    Arr(Seq<JsonSpec>),
    Obj(Seq<(Seq<u8>, JsonSpec)>),
}

/// The model of a parsed value.
pub open spec fn json_view(j: Json) -> JsonSpec
    decreases j,
{
    match j {
        Json::Null => JsonSpec::Null,
        Json::Bool(b) => JsonSpec::Bool(b),
        Json::Num(v) => JsonSpec::Num(v@),
        Json::Str(v) => JsonSpec::Str(v@),
        Json::Arr(items) => JsonSpec::Arr(
            Seq::new(
                items@.len(),
                |i: int|
                    if 0 <= i < items@.len() {
                        json_view(items[i])
                    } else {
                        JsonSpec::Null
                    },
            ),
        ),
        Json::Obj(pairs) => JsonSpec::Obj(
            Seq::new(
                pairs@.len(),
                |i: int|
                    if 0 <= i < pairs@.len() {
                        (pairs[i].0@, json_view(pairs[i].1))
                    } else {
                        (Seq::empty(), JsonSpec::Null)
                    },
            ),
        ),
    }
}

impl View for Json {
    type V = JsonSpec;

    open spec fn view(&self) -> JsonSpec {
        json_view(*self)
    }
}

/// JSON insignificant whitespace.
pub open spec fn is_json_ws(c: u8) -> bool {
    c == 0x20 || c == 0x09 || c == 0x0a || c == 0x0d
}

/// Index of the first byte at or after `i` that is not JSON whitespace.
pub open spec fn sp_ws(s: Seq<u8>, i: int) -> int
    decreases s.len() - i when 0 <= i <= s.len()
{
    if i < s.len() && is_json_ws(s[i]) {
        sp_ws(s, i + 1)
    } else {
        i
    }
}

/// Value of an ASCII hex digit, or -1.
pub open spec fn hex_val(c: u8) -> int {
    if 48 <= c && c <= 57 {
        c - 48
    } else if 97 <= c && c <= 102 {
        (c - 97) + 10
    } else if 65 <= c && c <= 70 {
        (c - 65) + 10
    } else {
        -1
    }
}

/// UTF-8 encoding of a scalar value.
pub open spec fn utf8_enc(cp: int) -> Seq<u8>
    recommends
        0 <= cp < 0x110000,
{
    if cp < 0x80 {
        seq![cp as u8]
    } else if cp < 0x800 {
        seq![(0xc0 + cp / 64) as u8, (0x80 + cp % 64) as u8]
    } else if cp < 0x10000 {
        seq![(0xe0 + cp / 4096) as u8, (0x80 + (cp / 64) % 64) as u8, (0x80 + cp % 64) as u8]
    } else {
        seq![
            (0xf0 + cp / 0x40000) as u8,
            (0x80 + (cp / 4096) % 64) as u8,
            (0x80 + (cp / 64) % 64) as u8,
            (0x80 + cp % 64) as u8,
        ]
    }
}

/// The four hex digits at `i` as a code unit, if they are all hex digits.
pub open spec fn hex4(s: Seq<u8>, i: int) -> int
    recommends
        0 <= i,
        i + 4 <= s.len(),
{
    if hex_val(s[i]) < 0 || hex_val(s[i + 1]) < 0 || hex_val(s[i + 2]) < 0 || hex_val(s[i + 3])
        < 0 {
        -1
    } else {
        hex_val(s[i]) * 4096 + hex_val(s[i + 1]) * 256 + hex_val(s[i + 2]) * 16 + hex_val(s[i + 3])
    }
}

/// Decodes the escape sequence whose backslash stands at `i`: the bytes it
/// denotes and the index after it.  Surrogate pairs are combined; a lone
/// surrogate is an error.
pub open spec fn sp_escape(s: Seq<u8>, i: int) -> Option<(Seq<u8>, int)>
    recommends
        0 <= i,
        i < s.len(),
        s[i] == 92,
{
    if i + 2 > s.len() {
        None
    } else {
        let e = s[i + 1];
        if e == 34 {
            Some((seq![34u8], i + 2))
        } else if e == 92 {
            Some((seq![92u8], i + 2))
        } else if e == 47 {
            Some((seq![47u8], i + 2))
        } else if e == 98 {
            Some((seq![8u8], i + 2))
        } else if e == 102 {
            Some((seq![12u8], i + 2))
        } else if e == 110 {
            Some((seq![10u8], i + 2))
        } else if e == 114 {
            Some((seq![13u8], i + 2))
        } else if e == 116 {
            Some((seq![9u8], i + 2))
        } else if e == 117 {
            if i + 6 > s.len() {
                None
            } else {
                let u = hex4(s, i + 2);
                if u < 0 {
                    None
                } else if 0xd800 <= u && u < 0xdc00 {
                    if i + 12 > s.len() || s[i + 6] != 92 || s[i + 7] != 117 {
                        None
                    } else {
                        let lo = hex4(s, i + 8);
                        if 0xdc00 <= lo && lo < 0xe000 {
                            Some((utf8_enc(0x10000 + (u - 0xd800) * 1024 + (lo - 0xdc00)), i + 12))
                        } else {
                            None
                        }
                    }
                } else if 0xdc00 <= u && u < 0xe000 {
                    None
                } else {
                    Some((utf8_enc(u), i + 6))
                }
            }
        } else {
            None
        }
    }
}

/// Scans a string body from `i` (just after the opening quote) to its closing
/// quote: the decoded contents and the index after the closing quote.
pub open spec fn sp_string(s: Seq<u8>, i: int) -> Option<(Seq<u8>, int)>
    decreases s.len() - i when 0 <= i <= s.len()
{
    if i >= s.len() {
        None
    } else if s[i] == 34 {
        Some((Seq::empty(), i + 1))
    } else if s[i] == 92 {
        match sp_escape(s, i) {
            Option::None => None,
            Option::Some((bytes, ni)) => if i < ni <= s.len() {
                match sp_string(s, ni) {
                    Option::None => None,
                    Option::Some((t, j)) => Some((bytes + t, j)),
                }
            } else {
                None
            },
        }
    } else if s[i] < 0x20 {
        None
    } else {
        match sp_string(s, i + 1) {
            Option::None => None,
            Option::Some((t, j)) => Some((seq![s[i]] + t, j)),
        }
    }
}

/// Index of the first non-digit byte at or after `i`.
pub open spec fn skip_digits(s: Seq<u8>, i: int) -> int
    decreases s.len() - i when 0 <= i <= s.len()
{
    if i < s.len() && 48 <= s[i] && s[i] <= 57 {
        skip_digits(s, i + 1)
    } else {
        i
    }
}

/// Scans a number token starting at `i`: the end of its integer part, or -1
/// if there is no well-formed integer part.
pub open spec fn sp_int_end(s: Seq<u8>, i: int) -> int
    recommends
        0 <= i <= s.len(),
{
    let j = if i < s.len() && s[i] == 45 {
        i + 1
    } else {
        i
    };
    if j < s.len() && s[j] == 48 {
        j + 1
    } else if j < s.len() && 49 <= s[j] && s[j] <= 57 {
        skip_digits(s, j)
    } else {
        -1
    }
}

/// End of the fraction part that starts at `i`, or -1 if a fraction starts
/// there but is malformed.
pub open spec fn sp_frac_end(s: Seq<u8>, i: int) -> int
    recommends
        0 <= i <= s.len(),
{
    if i < s.len() && s[i] == 46 {
        if i + 1 < s.len() && 48 <= s[i + 1] && s[i + 1] <= 57 {
            skip_digits(s, i + 1)
        } else {
            -1
        }
    } else {
        i
    }
}

/// End of the exponent part that starts at `i`, or -1 if an exponent starts
/// there but is malformed.
pub open spec fn sp_exp_end(s: Seq<u8>, i: int) -> int
    recommends
        0 <= i <= s.len(),
{
    if i < s.len() && (s[i] == 101 || s[i] == 69) {
        let j = if i + 1 < s.len() && (s[i + 1] == 43 || s[i + 1] == 45) {
            i + 2
        } else {
            i + 1
        };
        if j < s.len() && 48 <= s[j] && s[j] <= 57 {
            skip_digits(s, j)
        } else {
            -1
        }
    } else {
        i
    }
}

/// Scans a number token starting at `i`: its source text and the index after
/// it.
pub open spec fn sp_number(s: Seq<u8>, i: int) -> Option<(Seq<u8>, int)>
    recommends
        0 <= i <= s.len(),
{
    let a = sp_int_end(s, i);
    if a < 0 {
        None
    } else {
        let b = sp_frac_end(s, a);
        if b < 0 {
            None
        } else {
            let e = sp_exp_end(s, b);
            if e < 0 {
                None
            } else {
                Some((s.subrange(i, e), e))
            }
        }
    }
}

/// Parses one JSON value whose first byte (after whitespace) stands at or
/// after `i`: the value and the index after it.  The fuel bounds the depth of
/// the syntax tree; one unit is spent on each nested value and member.
pub open spec fn sp_value(s: Seq<u8>, i: int, fuel: nat) -> Option<(JsonSpec, int)>
    decreases fuel, 2int,
{
    if fuel == 0 || !(0 <= i <= s.len()) {
        None
    } else {
        let j = sp_ws(s, i);
        if j >= s.len() {
            None
        } else if s[j] == 123 {
            sp_object(s, j + 1, (fuel - 1) as nat)
        } else if s[j] == 91 {
            sp_array(s, j + 1, (fuel - 1) as nat)
        } else if s[j] == 34 {
            match sp_string(s, j + 1) {
                Option::None => None,
                Option::Some((t, e)) => Some((JsonSpec::Str(t), e)),
            }
        } else if s[j] == 116 {
            if j + 4 <= s.len() && s[j + 1] == 114 && s[j + 2] == 117 && s[j + 3] == 101 {
                Some((JsonSpec::Bool(true), j + 4))
            } else {
                None
            }
        } else if s[j] == 102 {
            if j + 5 <= s.len() && s[j + 1] == 97 && s[j + 2] == 108 && s[j + 3] == 115 && s[j + 4]
                == 101 {
                Some((JsonSpec::Bool(false), j + 5))
            } else {
                None
            }
        } else if s[j] == 110 {
            if j + 4 <= s.len() && s[j + 1] == 117 && s[j + 2] == 108 && s[j + 3] == 108 {
                Some((JsonSpec::Null, j + 4))
            } else {
                None
            }
        } else if s[j] == 45 || (48 <= s[j] && s[j] <= 57) {
            match sp_number(s, j) {
                Option::None => None,
                Option::Some((t, e)) => Some((JsonSpec::Num(t), e)),
            }
        } else {
            None
        }
    }
}

/// Parses the remainder of an object, from just after the opening brace.
pub open spec fn sp_object(s: Seq<u8>, i: int, fuel: nat) -> Option<(JsonSpec, int)>
    decreases fuel, 1int,
{
    if !(0 <= i <= s.len()) {
        None
    } else {
        let j = sp_ws(s, i);
        if j < s.len() && s[j] == 125 {
            Some((JsonSpec::Obj(Seq::empty()), j + 1))
        } else {
            match sp_members(s, j, fuel) {
                Option::None => None,
                Option::Some((pairs, e)) => Some((JsonSpec::Obj(pairs), e)),
            }
        }
    }
}

/// Parses one or more `"key": value` members separated by commas, ending at a
/// closing brace.
pub open spec fn sp_members(s: Seq<u8>, i: int, fuel: nat) -> Option<(Seq<(Seq<u8>, JsonSpec)>, int)>
    decreases fuel, 0int,
{
    if fuel == 0 || !(0 <= i <= s.len()) {
        None
    } else {
        let j = sp_ws(s, i);
        if j >= s.len() || s[j] != 34 {
            None
        } else {
            match sp_string(s, j + 1) {
                Option::None => None,
                Option::Some((key, k)) => if !(k <= s.len()) {
                    None
                } else {
                    let m = sp_ws(s, k);
                    if m >= s.len() || s[m] != 58 {
                        None
                    } else {
                        match sp_value(s, m + 1, (fuel - 1) as nat) {
                            Option::None => None,
                            Option::Some((val, p)) => if !(0 <= p <= s.len()) {
                                None
                            } else {
                                let q = sp_ws(s, p);
                                if q < s.len() && s[q] == 44 {
                                    match sp_members(s, q + 1, (fuel - 1) as nat) {
                                        Option::None => None,
                                        Option::Some((rest, e)) => Some(
                                            (seq![(key, val)] + rest, e),
                                        ),
                                    }
                                } else if q < s.len() && s[q] == 125 {
                                    Some((seq![(key, val)], q + 1))
                                } else {
                                    None
                                }
                            },
                        }
                    }
                },
            }
        }
    }
}

/// Parses the remainder of an array, from just after the opening bracket.
pub open spec fn sp_array(s: Seq<u8>, i: int, fuel: nat) -> Option<(JsonSpec, int)>
    decreases fuel, 1int,
{
    if !(0 <= i <= s.len()) {
        None
    } else {
        let j = sp_ws(s, i);
        if j < s.len() && s[j] == 93 {
            Some((JsonSpec::Arr(Seq::empty()), j + 1))
        } else {
            match sp_items(s, i, fuel) {
                Option::None => None,
                Option::Some((items, e)) => Some((JsonSpec::Arr(items), e)),
            }
        }
    }
}

/// Parses one or more array elements separated by commas, ending at a closing
/// bracket.
pub open spec fn sp_items(s: Seq<u8>, i: int, fuel: nat) -> Option<(Seq<JsonSpec>, int)>
    decreases fuel, 0int,
{
    if fuel == 0 || !(0 <= i <= s.len()) {
        None
    } else {
        match sp_value(s, i, (fuel - 1) as nat) {
            Option::None => None,
            Option::Some((val, p)) => if !(0 <= p <= s.len()) {
                None
            } else {
                let q = sp_ws(s, p);
                if q < s.len() && s[q] == 44 {
                    match sp_items(s, q + 1, (fuel - 1) as nat) {
                        Option::None => None,
                        Option::Some((rest, e)) => Some((seq![val] + rest, e)),
                    }
                } else if q < s.len() && s[q] == 93 {
                    Some((seq![val], q + 1))
                } else {
                    None
                }
            },
        }
    }
}

/// Parses a whole document: one value with nothing but whitespace after it.
/// The fuel equal to the input length covers every well-formed document: the
/// parser spends at most two units for each byte it passes.
pub open spec fn sp_document(s: Seq<u8>) -> Option<JsonSpec> {
    match sp_value(s, 0, s.len() as nat) {
        Option::None => None,
        Option::Some((v, e)) => if 0 <= e <= s.len() && sp_ws(s, e) == s.len() {
            Some(v)
        } else {
            None
        },
    }
}


/// Relates an executable byte-scan result to its specification.
pub open spec fn bytes_res_eq(r: Option<(Vec<u8>, usize)>, sr: Option<(Seq<u8>, int)>) -> bool {
    match r {
        Option::Some((v, j)) => sr == Some((v@, j as int)),
        Option::None => sr is None,
    }
}

/// Relates an executable value-parse result to its specification.
pub open spec fn value_res_eq(r: Option<(Json, usize)>, sr: Option<(JsonSpec, int)>) -> bool {
    match r {
        Option::Some((v, j)) => sr == Some((v@, j as int)),
        Option::None => sr is None,
    }
}

/// The models of a sequence of key-value pairs.
pub open spec fn pairs_view(v: Seq<(Vec<u8>, Json)>) -> Seq<(Seq<u8>, JsonSpec)> {
    Seq::new(v.len(), |i: int| (v[i].0@, v[i].1@))
}

/// The models of a sequence of values.
pub open spec fn items_view(v: Seq<Json>) -> Seq<JsonSpec> {
    Seq::new(v.len(), |i: int| v[i]@)
}

pub open spec fn members_res_eq(
    r: Option<(Vec<(Vec<u8>, Json)>, usize)>,
    sr: Option<(Seq<(Seq<u8>, JsonSpec)>, int)>,
) -> bool {
    match r {
        Option::Some((v, j)) => sr == Some((pairs_view(v@), j as int)),
        Option::None => sr is None,
    }
}

pub open spec fn items_res_eq(
    r: Option<(Vec<Json>, usize)>,
    sr: Option<(Seq<JsonSpec>, int)>,
) -> bool {
    match r {
        Option::Some((v, j)) => sr == Some((items_view(v@), j as int)),
        Option::None => sr is None,
    }
}

/// Prepends already-decoded bytes to a scan result.
pub open spec fn str_cont(acc: Seq<u8>, r: Option<(Seq<u8>, int)>) -> Option<(Seq<u8>, int)> {
    match r {
        Option::Some((t, j)) => Some((acc + t, j)),
        Option::None => None,
    }
}

proof fn lemma_str_cont_assoc(a: Seq<u8>, b: Seq<u8>, r: Option<(Seq<u8>, int)>)
    ensures
        str_cont(a, str_cont(b, r)) == str_cont(a + b, r),
{
    match r {
        Option::Some((t, j)) => {
            assert((a + b) + t =~= a + (b + t));
        },
        Option::None => {},
    }
}

/// Advances past JSON whitespace.
#[verifier::loop_isolation(false)]
fn ws_to(s: &[u8], i: usize) -> (j: usize)
    requires
        i <= s@.len(),
    ensures
        j as int == sp_ws(s@, i as int),
        i <= j <= s@.len(),
{
    let mut k: usize = i;
    while k < s.len() && (s[k] == 0x20 || s[k] == 0x09 || s[k] == 0x0a || s[k] == 0x0d)
        invariant
            i <= k <= s@.len(),
            sp_ws(s@, i as int) == sp_ws(s@, k as int),
        decreases s@.len() - k,
    {
        k = k + 1;
    }
    k
}

/// Value of an ASCII hex digit, or -1.
fn hexv(c: u8) -> (r: i8)
    ensures
        r as int == hex_val(c),
{
    if 48 <= c && c <= 57 {
        (c - 48) as i8
    } else if 97 <= c && c <= 102 {
        ((c - 97) + 10) as i8
    } else if 65 <= c && c <= 70 {
        ((c - 65) + 10) as i8
    } else {
        -1
    }
}

/// The four hex digits at `i` as a code unit, or -1.
fn hex16(s: &[u8], i: usize) -> (r: i32)
    requires
        i + 4 <= s@.len(),
    ensures
        r as int == hex4(s@, i as int),
{
    let v0 = hexv(s[i]);
    let v1 = hexv(s[i + 1]);
    let v2 = hexv(s[i + 2]);
    let v3 = hexv(s[i + 3]);
    if v0 < 0 || v1 < 0 || v2 < 0 || v3 < 0 {
        -1
    } else {
        (v0 as i32) * 4096 + (v1 as i32) * 256 + (v2 as i32) * 16 + (v3 as i32)
    }
}

/// Appends the UTF-8 encoding of a scalar value.
fn utf8_push(out: &mut Vec<u8>, cp: u32)
    requires
        cp < 0x110000,
    ensures
        final(out)@ == old(out)@ + utf8_enc(cp as int),
{
    if cp < 0x80 {
        out.push(cp as u8);
        assert(final(out)@ =~= old(out)@ + utf8_enc(cp as int));
    } else if cp < 0x800 {
        out.push((0xc0 + cp / 64) as u8);
        out.push((0x80 + cp % 64) as u8);
        assert(final(out)@ =~= old(out)@ + utf8_enc(cp as int));
    } else if cp < 0x10000 {
        out.push((0xe0 + cp / 4096) as u8);
        out.push((0x80 + (cp / 64) % 64) as u8);
        out.push((0x80 + cp % 64) as u8);
        assert(final(out)@ =~= old(out)@ + utf8_enc(cp as int));
    } else {
        out.push((0xf0 + cp / 0x40000) as u8);
        out.push((0x80 + (cp / 4096) % 64) as u8);
        out.push((0x80 + (cp / 64) % 64) as u8);
        out.push((0x80 + cp % 64) as u8);
        assert(final(out)@ =~= old(out)@ + utf8_enc(cp as int));
    }
}

/// Decodes one escape sequence, returning its bytes and the index after it.
fn scan_escape(s: &[u8], i: usize) -> (r: Option<(Vec<u8>, usize)>)
    requires
        i < s@.len(),
        s@[i as int] == 92,
    ensures
        bytes_res_eq(r, sp_escape(s@, i as int)),
        match r {
            Option::Some((_, nk)) => i < nk && nk <= s@.len(),
            Option::None => true,
        },
{
    let n = s.len();
    if n - i < 2 {
        return None;
    }
    let e = s[i + 1];
    let mut out: Vec<u8> = Vec::new();
    if e == 34 || e == 92 || e == 47 {
        out.push(e);
        assert(out@ =~= seq![e]);
        return Some((out, i + 2));
    }
    if e == 98 {
        out.push(8);
        assert(out@ =~= seq![8u8]);
        return Some((out, i + 2));
    }
    if e == 102 {
        out.push(12);
        assert(out@ =~= seq![12u8]);
        return Some((out, i + 2));
    }
    if e == 110 {
        out.push(10);
        assert(out@ =~= seq![10u8]);
        return Some((out, i + 2));
    }
    if e == 114 {
        out.push(13);
        assert(out@ =~= seq![13u8]);
        return Some((out, i + 2));
    }
    if e == 116 {
        out.push(9);
        assert(out@ =~= seq![9u8]);
        return Some((out, i + 2));
    }
    if e != 117 {
        return None;
    }
    if n - i < 6 {
        return None;
    }
    let u = hex16(s, i + 2);
    if u < 0 {
        return None;
    }
    if 0xd800 <= u && u < 0xdc00 {
        if n - i < 12 || s[i + 6] != 92 || s[i + 7] != 117 {
            return None;
        }
        let lo = hex16(s, i + 8);
        if 0xdc00 <= lo && lo < 0xe000 {
            let cp: u32 = 0x10000 + (u as u32 - 0xd800) * 1024 + (lo as u32 - 0xdc00);
            utf8_push(&mut out, cp);
            assert(out@ =~= Seq::<u8>::empty() + utf8_enc(cp as int));
            return Some((out, i + 12));
        }
        return None;
    }
    if 0xdc00 <= u && u < 0xe000 {
        return None;
    }
    utf8_push(&mut out, u as u32);
    assert(out@ =~= Seq::<u8>::empty() + utf8_enc(u as int));
    Some((out, i + 6))
}

/// Scans a string body from just after its opening quote.
#[verifier::loop_isolation(false)]
fn scan_string(s: &[u8], i: usize) -> (r: Option<(Vec<u8>, usize)>)
    requires
        i <= s@.len(),
    ensures
        bytes_res_eq(r, sp_string(s@, i as int)),
        match r {
            Option::Some((_, j)) => i < j <= s@.len(),
            Option::None => true,
        },
{
    let mut acc: Vec<u8> = Vec::new();
    let mut k: usize = i;
    proof {
        assert(acc@ =~= Seq::<u8>::empty());
        match sp_string(s@, i as int) {
            Option::Some((t, j)) => {
                assert(acc@ + t =~= t);
            },
            Option::None => {},
        }
    }
    loop
        invariant
            i <= k <= s@.len(),
            sp_string(s@, i as int) == str_cont(acc@, sp_string(s@, k as int)),
        decreases s@.len() - k,
    {
        if k >= s.len() {
            return None;
        }
        let c = s[k];
        if c == 34 {
            proof {
                assert(sp_string(s@, k as int) == Some((Seq::<u8>::empty(), k + 1 as int)));
                assert(acc@ + Seq::<u8>::empty() =~= acc@);
            }
            return Some((acc, k + 1));
        }
        if c == 92 {
            let esc = scan_escape(s, k);
            match esc {
                Option::None => {
                    return None;
                },
                Option::Some((bytes, nk)) => {
                    proof {
                        assert(sp_string(s@, k as int) == str_cont(
                            bytes@,
                            sp_string(s@, nk as int),
                        ));
                        lemma_str_cont_assoc(acc@, bytes@, sp_string(s@, nk as int));
                    }
                    acc.extend_from_slice(bytes.as_slice());
                    k = nk;
                },
            }
        } else if c < 0x20 {
            return None;
        } else {
            proof {
                assert(sp_string(s@, k as int) == str_cont(
                    seq![s@[k as int]],
                    sp_string(s@, k + 1 as int),
                ));
                lemma_str_cont_assoc(acc@, seq![s@[k as int]], sp_string(s@, k + 1 as int));
                assert(acc@.push(s@[k as int]) =~= acc@ + seq![s@[k as int]]);
            }
            acc.push(c);
            k = k + 1;
        }
    }
}

/// Advances past decimal digits.
#[verifier::loop_isolation(false)]
fn digits_to(s: &[u8], i: usize) -> (j: usize)
    requires
        i <= s@.len(),
    ensures
        j as int == skip_digits(s@, i as int),
        i <= j <= s@.len(),
{
    let mut k: usize = i;
    while k < s.len() && 48 <= s[k] && s[k] <= 57
        invariant
            i <= k <= s@.len(),
            skip_digits(s@, i as int) == skip_digits(s@, k as int),
        decreases s@.len() - k,
    {
        k = k + 1;
    }
    k
}

/// Scans a number token, returning its source text and the index after it.
fn scan_number(s: &[u8], i: usize) -> (r: Option<(Vec<u8>, usize)>)
    requires
        i <= s@.len(),
    ensures
        bytes_res_eq(r, sp_number(s@, i as int)),
        match r {
            Option::Some((_, j)) => i <= j <= s@.len(),
            Option::None => true,
        },
{
    let n = s.len();
    let j: usize = if i < n && s[i] == 45 {
        i + 1
    } else {
        i
    };
    let a: usize;
    if j < n && s[j] == 48 {
        a = j + 1;
    } else if j < n && 49 <= s[j] && s[j] <= 57 {
        a = digits_to(s, j);
    } else {
        assert(sp_int_end(s@, i as int) < 0);
        return None;
    }
    assert(a as int == sp_int_end(s@, i as int));
    let b: usize;
    if a < n && s[a] == 46 {
        if a + 1 < n && 48 <= s[a + 1] && s[a + 1] <= 57 {
            b = digits_to(s, a + 1);
        } else {
            assert(sp_frac_end(s@, a as int) < 0);
            return None;
        }
    } else {
        b = a;
    }
    assert(b as int == sp_frac_end(s@, a as int));
    let e: usize;
    if b < n && (s[b] == 101 || s[b] == 69) {
        let j2: usize = if b + 1 < n && (s[b + 1] == 43 || s[b + 1] == 45) {
            b + 2
        } else {
            b + 1
        };
        if j2 < n && 48 <= s[j2] && s[j2] <= 57 {
            e = digits_to(s, j2);
        } else {
            assert(sp_exp_end(s@, b as int) < 0);
            return None;
        }
    } else {
        e = b;
    }
    assert(e as int == sp_exp_end(s@, b as int));
    let raw = vstd::slice::slice_to_vec(vstd::slice::slice_subrange(s, i, e));
    Some((raw, e))
}


/// Parses one JSON value, mirroring `sp_value`.
fn parse_value(s: &[u8], i: usize, fuel: usize) -> (r: Option<(Json, usize)>)
    requires
        i <= s@.len(),
    ensures
        value_res_eq(r, sp_value(s@, i as int, fuel as nat)),
        match r {
            Option::Some((_, j)) => j <= s@.len(),
            Option::None => true,
        },
    decreases fuel, 2int,
{
    if fuel == 0 {
        return None;
    }
    let j = ws_to(s, i);
    let n = s.len();
    if j >= n {
        return None;
    }
    let c = s[j];
    if c == 123 {
        parse_object(s, j + 1, fuel - 1)
    } else if c == 91 {
        parse_array(s, j + 1, fuel - 1)
    } else if c == 34 {
        match scan_string(s, j + 1) {
            Option::None => None,
            Option::Some((t, e)) => Some((Json::Str(t), e)),
        }
    } else if c == 116 {
        if n - j >= 4 && s[j + 1] == 114 && s[j + 2] == 117 && s[j + 3] == 101 {
            Some((Json::Bool(true), j + 4))
        } else {
            None
        }
    } else if c == 102 {
        if n - j >= 5 && s[j + 1] == 97 && s[j + 2] == 108 && s[j + 3] == 115 && s[j + 4] == 101 {
            Some((Json::Bool(false), j + 5))
        } else {
            None
        }
    } else if c == 110 {
        if n - j >= 4 && s[j + 1] == 117 && s[j + 2] == 108 && s[j + 3] == 108 {
            Some((Json::Null, j + 4))
        } else {
            None
        }
    } else if c == 45 || (48 <= c && c <= 57) {
        match scan_number(s, j) {
            Option::None => None,
            Option::Some((t, e)) => Some((Json::Num(t), e)),
        }
    } else {
        None
    }
}

/// Parses the remainder of an object, mirroring `sp_object`.
fn parse_object(s: &[u8], i: usize, fuel: usize) -> (r: Option<(Json, usize)>)
    requires
        i <= s@.len(),
    ensures
        value_res_eq(r, sp_object(s@, i as int, fuel as nat)),
        match r {
            Option::Some((_, j)) => j <= s@.len(),
            Option::None => true,
        },
    decreases fuel, 1int,
{
    let j = ws_to(s, i);
    if j < s.len() && s[j] == 125 {
        let v: Vec<(Vec<u8>, Json)> = Vec::new();
        let jv = Json::Obj(v);
        proof {
            assert(jv@ == JsonSpec::Obj(Seq::<(Seq<u8>, JsonSpec)>::empty())) by {
                assert(jv@ matches JsonSpec::Obj(p) && p =~= Seq::<(Seq<u8>, JsonSpec)>::empty());
            }
        }
        Some((jv, j + 1))
    } else {
        match parse_members(s, j, fuel) {
            Option::None => None,
            Option::Some((pairs, e)) => {
                let jv = Json::Obj(pairs);
                proof {
                    assert(jv@ matches JsonSpec::Obj(p) && p =~= pairs_view(pairs@));
                }
                Some((jv, e))
            },
        }
    }
}

/// Parses one or more object members, mirroring `sp_members`.
fn parse_members(s: &[u8], i: usize, fuel: usize) -> (r: Option<(Vec<(Vec<u8>, Json)>, usize)>)
    requires
        i <= s@.len(),
    ensures
        members_res_eq(r, sp_members(s@, i as int, fuel as nat)),
        match r {
            Option::Some((_, j)) => j <= s@.len(),
            Option::None => true,
        },
    decreases fuel, 0int,
{
    if fuel == 0 {
        return None;
    }
    let j = ws_to(s, i);
    if j >= s.len() || s[j] != 34 {
        return None;
    }
    let key_res = scan_string(s, j + 1);
    match key_res {
        Option::None => None,
        Option::Some((key, k)) => {
            let m = ws_to(s, k);
            if m >= s.len() || s[m] != 58 {
                return None;
            }
            let val_res = parse_value(s, m + 1, fuel - 1);
            match val_res {
                Option::None => None,
                Option::Some((val, p)) => {
                    let q = ws_to(s, p);
                    if q < s.len() && s[q] == 44 {
                        let rest_res = parse_members(s, q + 1, fuel - 1);
                        match rest_res {
                            Option::None => None,
                            Option::Some((mut rest, e)) => {
                                let ghost old_rest = rest@;
                                let ghost kv = (key@, val@);
                                rest.insert(0, (key, val));
                                proof {
                                    assert(pairs_view(rest@) =~= seq![kv] + pairs_view(old_rest));
                                }
                                Some((rest, e))
                            },
                        }
                    } else if q < s.len() && s[q] == 125 {
                        let mut v: Vec<(Vec<u8>, Json)> = Vec::new();
                        let ghost kv = (key@, val@);
                        v.push((key, val));
                        proof {
                            assert(pairs_view(v@) =~= seq![kv]);
                        }
                        Some((v, q + 1))
                    } else {
                        None
                    }
                },
            }
        },
    }
}

/// Parses the remainder of an array, mirroring `sp_array`.
fn parse_array(s: &[u8], i: usize, fuel: usize) -> (r: Option<(Json, usize)>)
    requires
        i <= s@.len(),
    ensures
        value_res_eq(r, sp_array(s@, i as int, fuel as nat)),
        match r {
            Option::Some((_, j)) => j <= s@.len(),
            Option::None => true,
        },
    decreases fuel, 1int,
{
    let j = ws_to(s, i);
    if j < s.len() && s[j] == 93 {
        let v: Vec<Json> = Vec::new();
        let jv = Json::Arr(v);
        proof {
            assert(jv@ matches JsonSpec::Arr(p) && p =~= Seq::<JsonSpec>::empty());
        }
        Some((jv, j + 1))
    } else {
        match parse_items(s, i, fuel) {
            Option::None => None,
            Option::Some((items, e)) => {
                let jv = Json::Arr(items);
                proof {
                    assert(jv@ matches JsonSpec::Arr(p) && p =~= items_view(items@));
                }
                Some((jv, e))
            },
        }
    }
}

/// Parses one or more array elements, mirroring `sp_items`.
fn parse_items(s: &[u8], i: usize, fuel: usize) -> (r: Option<(Vec<Json>, usize)>)
    requires
        i <= s@.len(),
    ensures
        items_res_eq(r, sp_items(s@, i as int, fuel as nat)),
        match r {
            Option::Some((_, j)) => j <= s@.len(),
            Option::None => true,
        },
    decreases fuel, 0int,
{
    if fuel == 0 {
        return None;
    }
    let val_res = parse_value(s, i, fuel - 1);
    match val_res {
        Option::None => None,
        Option::Some((val, p)) => {
            let q = ws_to(s, p);
            if q < s.len() && s[q] == 44 {
                let rest_res = parse_items(s, q + 1, fuel - 1);
                match rest_res {
                    Option::None => None,
                    Option::Some((mut rest, e)) => {
                        let ghost old_rest = rest@;
                        let ghost vv = val@;
                        rest.insert(0, val);
                        proof {
                            assert(items_view(rest@) =~= seq![vv] + items_view(old_rest));
                        }
                        Some((rest, e))
                    },
                }
            } else if q < s.len() && s[q] == 93 {
                let mut v: Vec<Json> = Vec::new();
                let ghost vv = val@;
                v.push(val);
                proof {
                    assert(items_view(v@) =~= seq![vv]);
                }
                Some((v, q + 1))
            } else {
                None
            }
        },
    }
}

/// Relates an executable document-parse result to its specification.
pub open spec fn doc_res_eq(r: Option<Json>, sr: Option<JsonSpec>) -> bool {
    match r {
        Option::Some(v) => sr == Some(v@),
        Option::None => sr is None,
    }
}

/// Parses a whole document: one value with only whitespace after it.
pub fn parse_document(s: &[u8]) -> (r: Option<Json>)
    ensures
        doc_res_eq(r, sp_document(s@)),
{
    match parse_value(s, 0, s.len()) {
        Option::None => None,
        Option::Some((v, e)) => {
            let t = ws_to(s, e);
            if t == s.len() {
                Some(v)
            } else {
                None
            }
        },
    }
}

/// The value of the last member with the given key, as a map-like object
/// lookup where a later duplicate key wins.
pub open spec fn pairs_get(pairs: Seq<(Seq<u8>, JsonSpec)>, key: Seq<u8>) -> Option<JsonSpec>
    decreases pairs.len(),
{
    if pairs.len() == 0 {
        None
    } else if pairs.last().0 == key {
        Some(pairs.last().1)
    } else {
        pairs_get(pairs.drop_last(), key)
    }
}

/// Object member lookup: the value under `key` if the value is an object
/// holding that key.
pub open spec fn obj_get_spec(v: JsonSpec, key: Seq<u8>) -> Option<JsonSpec> {
    match v {
        JsonSpec::Obj(pairs) => pairs_get(pairs, key),
        _ => None,
    }
}

/// The string contents of a value, if it is a string.
pub open spec fn as_str_spec(v: JsonSpec) -> Option<Seq<u8>> {
    match v {
        JsonSpec::Str(t) => Some(t),
        _ => None,
    }
}

/// Whether two byte strings are equal.
fn bytes_eq(a: &[u8], b: &[u8]) -> (r: bool)
    ensures
        r == (a@ == b@),
{
    if a.len() != b.len() {
        proof {
            assert(a@ != b@);
        }
        return false;
    }
    let n = a.len();
    let mut i: usize = 0;
    while i < n
        invariant
            0 <= i <= n,
            n == a@.len() == b@.len(),
            forall|k: int| 0 <= k < i ==> a@[k] == b@[k],
        decreases n - i,
    {
        if a[i] != b[i] {
            proof {
                assert(a@[i as int] != b@[i as int]);
            }
            return false;
        }
        i = i + 1;
    }
    proof {
        assert(a@ =~= b@);
    }
    true
}

/// Looks up the last member with the given key, if the value is an object.
#[verifier::loop_isolation(false)]
pub fn obj_get<'a>(v: &'a Json, key: &[u8]) -> (r: Option<&'a Json>)
    ensures
        match r {
            Option::Some(w) => obj_get_spec(v@, key@) == Some(w@),
            Option::None => (obj_get_spec(v@, key@) is None),
        },
{
    match v {
        Json::Obj(pairs) => {
            let ghost pview = pairs_view(pairs@);
            proof {
                assert(v@ == JsonSpec::Obj(pview)) by {
                    assert(v@ matches JsonSpec::Obj(p) && p =~= pview);
                }
            }
            let mut i: usize = pairs.len();
            proof {
                assert(pview.take(pairs@.len() as int) =~= pview);
            }
            while i > 0
                invariant
                    0 <= i <= pairs@.len(),
                    pview == pairs_view(pairs@),
                    pairs_get(pview, key@) == pairs_get(pview.take(i as int), key@),
                decreases i,
            {
                proof {
                    assert(pview.take(i as int).last() == pview[i - 1]);
                    assert(pview.take(i as int).drop_last() =~= pview.take(i - 1));
                }
                if bytes_eq(pairs[i - 1].0.as_slice(), key) {
                    return Some(&pairs[i - 1].1);
                }
                i = i - 1;
            }
            proof {
                assert(pview.take(0) =~= Seq::<(Seq<u8>, JsonSpec)>::empty());
            }
            None
        },
        _ => None,
    }
}

/// The string contents of a value, if it is a string.
pub fn as_str<'a>(v: &'a Json) -> (r: Option<&'a Vec<u8>>)
    ensures
        match r {
            Option::Some(t) => as_str_spec(v@) == Some(t@),
            Option::None => (as_str_spec(v@) is None),
        },
{
    match v {
        Json::Str(t) => Some(t),
        _ => None,
    }
}

} // verus!
