//! Character-level scanning for the CSS property grammars.
//!
//! The grammar subset implemented here covers whitespace, signed
//! decimal numbers, dimension and percentage suffixes, identifiers and
//! quoted strings. Each executable scanner mirrors a specification
//! function over the character sequence, so the property parsers built
//! on top have exact functional contracts.

use vstd::prelude::*;

verus! {

/// CSS whitespace: space, tab, line feed, carriage return, form feed.
pub open spec fn is_ws(c: char) -> bool {
    c as u32 == 32 || c as u32 == 9 || c as u32 == 10 || c as u32 == 13 || c as u32 == 12
}

pub open spec fn is_digit(c: char) -> bool {
    48 <= c as u32 <= 57
}

pub open spec fn digit_val(c: char) -> int {
    c as u32 - 48
}

/// A character that can begin an identifier token: an ASCII letter,
/// `_`, `-`, or any character outside ASCII.
pub open spec fn is_name_start(c: char) -> bool {
    (65 <= c as u32 <= 90) || (97 <= c as u32 <= 122) || c as u32 == 95 || c as u32 == 45
        || c as u32 > 127
}

/// A character that can continue an identifier token.
pub open spec fn is_name_char(c: char) -> bool {
    is_name_start(c) || is_digit(c)
}

/// ASCII code of `c` with upper-case letters folded to lower case.
pub open spec fn lower_code(c: char) -> int {
    if 65 <= c as u32 <= 90 {
        c as u32 + 32
    } else {
        c as u32 as int
    }
}

pub fn name_start_char(c: char) -> (b: bool)
    ensures
        b == is_name_start(c),
{
    let u: u32 = c as u32;
    (65 <= u && u <= 90) || (97 <= u && u <= 122) || u == 95 || u == 45 || u > 127
}

pub fn name_char(c: char) -> (b: bool)
    ensures
        b == is_name_char(c),
{
    let u: u32 = c as u32;
    (65 <= u && u <= 90) || (97 <= u && u <= 122) || u == 95 || u == 45 || u > 127 || (48 <= u && u
        <= 57)
}

/// First position at or after `i` holding no whitespace.
pub open spec fn ws_end(s: Seq<char>, i: int) -> int
    decreases s.len() - i,
{
    if 0 <= i < s.len() && is_ws(s[i]) {
        ws_end(s, i + 1)
    } else {
        i
    }
}

/// First position at or after `i` holding no decimal digit.
pub open spec fn digits_end(s: Seq<char>, i: int) -> int
    decreases s.len() - i,
{
    if 0 <= i < s.len() && is_digit(s[i]) {
        digits_end(s, i + 1)
    } else {
        i
    }
}

/// First position at or after `i` holding no identifier character.
pub open spec fn name_end(s: Seq<char>, i: int) -> int
    decreases s.len() - i,
{
    if 0 <= i < s.len() && is_name_char(s[i]) {
        name_end(s, i + 1)
    } else {
        i
    }
}

/// The value of the digit run `s[i..j]` read as a decimal numeral.
pub open spec fn digits_val(s: Seq<char>, i: int, j: int) -> int
    decreases j - i,
{
    if i >= j {
        0
    } else {
        digits_val(s, i, j - 1) * 10 + digit_val(s[j - 1])
    }
}

pub open spec fn pow10(n: int) -> int
    decreases n,
{
    if n <= 0 {
        1
    } else {
        10 * pow10(n - 1)
    }
}

pub proof fn lemma_pow10_pos(n: int)
    ensures
        pow10(n) >= 1,
    decreases n,
{
    if n > 0 {
        lemma_pow10_pos(n - 1);
    }
}

pub proof fn lemma_pow10_mono(a: int, b: int)
    requires
        a <= b,
    ensures
        pow10(a) <= pow10(b),
    decreases b - a,
{
    if a < b {
        lemma_pow10_mono(a, b - 1);
        lemma_pow10_pos(b - 1);
    }
}

pub proof fn lemma_pow10_add(a: int, b: int)
    requires
        a >= 0,
        b >= 0,
    ensures
        pow10(a + b) == pow10(a) * pow10(b),
    decreases a,
{
    if a == 0 {
        assert(pow10(b) == 1 * pow10(b));
    } else {
        lemma_pow10_add(a - 1, b);
        let p: int = pow10(a - 1 + b);
        let q: int = pow10(a - 1);
        let r: int = pow10(b);
        assert(p == q * r);
        assert(10 * (q * r) == (10 * q) * r) by (nonlinear_arith);
    }
}

pub proof fn lemma_ws_end_props(s: Seq<char>, i: int)
    requires
        0 <= i <= s.len(),
    ensures
        i <= ws_end(s, i) <= s.len(),
        forall|k: int| i <= k < ws_end(s, i) ==> is_ws(s[k]),
        ws_end(s, i) < s.len() ==> !is_ws(s[ws_end(s, i)]),
    decreases s.len() - i,
{
    if i < s.len() && is_ws(s[i]) {
        lemma_ws_end_props(s, i + 1);
    }
}

pub proof fn lemma_digits_end_props(s: Seq<char>, i: int)
    requires
        0 <= i <= s.len(),
    ensures
        i <= digits_end(s, i) <= s.len(),
        forall|k: int| i <= k < digits_end(s, i) ==> is_digit(s[k]),
        digits_end(s, i) < s.len() ==> !is_digit(s[digits_end(s, i)]),
    decreases s.len() - i,
{
    if i < s.len() && is_digit(s[i]) {
        lemma_digits_end_props(s, i + 1);
    }
}

pub proof fn lemma_name_end_props(s: Seq<char>, i: int)
    requires
        0 <= i <= s.len(),
    ensures
        i <= name_end(s, i) <= s.len(),
        forall|k: int| i <= k < name_end(s, i) ==> is_name_char(s[k]),
        name_end(s, i) < s.len() ==> !is_name_char(s[name_end(s, i)]),
    decreases s.len() - i,
{
    if i < s.len() && is_name_char(s[i]) {
        lemma_name_end_props(s, i + 1);
    }
}

/// A digit run's value is below `pow10` of its width.
pub proof fn lemma_digits_val_bound(s: Seq<char>, i: int, j: int)
    requires
        0 <= i <= j <= s.len(),
        forall|k: int| i <= k < j ==> is_digit(s[k]),
    ensures
        0 <= digits_val(s, i, j) < pow10(j - i),
    decreases j - i,
{
    if i < j {
        lemma_digits_val_bound(s, i, j - 1);
        let v: int = digits_val(s, i, j - 1);
        let p: int = pow10(j - 1 - i);
        assert(v <= p - 1);
        assert(v * 10 <= (p - 1) * 10) by (nonlinear_arith)
            requires
                v <= p - 1,
        {}
    }
}

/// The characters of `s`, as a vector indexable by position.
pub fn chars_of(s: &str) -> (v: Vec<char>)
    ensures
        v@ == s@,
{
    let n: usize = s.unicode_len();
    let mut v: Vec<char> = Vec::new();
    let mut i: usize = 0;
    while i < n
        invariant
            n == s@.len(),
            i <= n,
            v@ == s@.subrange(0, i as int),
        decreases n - i,
    {
        v.push(s.get_char(i));
        assert(v@ =~= s@.subrange(0, i + 1 as int));
        i = i + 1;
    }
    proof {
        assert(v@ =~= s@);
    }
    v
}

pub fn find_ws_end(v: &Vec<char>, i: usize) -> (j: usize)
    requires
        i <= v.len(),
    ensures
        j == ws_end(v@, i as int),
        i <= j <= v.len(),
    decreases v.len() - i,
{
    proof {
        lemma_ws_end_props(v@, i as int);
    }
    if i < v.len() {
        let c: char = v[i];
        let u: u32 = c as u32;
        if u == 32 || u == 9 || u == 10 || u == 13 || u == 12 {
            return find_ws_end(v, i + 1);
        }
    }
    i
}

pub fn find_digits_end(v: &Vec<char>, i: usize) -> (j: usize)
    requires
        i <= v.len(),
    ensures
        j == digits_end(v@, i as int),
        i <= j <= v.len(),
    decreases v.len() - i,
{
    proof {
        lemma_digits_end_props(v@, i as int);
    }
    if i < v.len() {
        let u: u32 = v[i] as u32;
        if 48 <= u && u <= 57 {
            return find_digits_end(v, i + 1);
        }
    }
    i
}

pub fn find_name_end(v: &Vec<char>, i: usize) -> (j: usize)
    requires
        i <= v.len(),
    ensures
        j == name_end(v@, i as int),
        i <= j <= v.len(),
    decreases v.len() - i,
{
    proof {
        lemma_name_end_props(v@, i as int);
    }
    if i < v.len() {
        let c: char = v[i];
        let u: u32 = c as u32;
        if (65 <= u && u <= 90) || (97 <= u && u <= 122) || u == 95 || u == 45 || u > 127 || (48
            <= u && u <= 57) {
            return find_name_end(v, i + 1);
        }
    }
    i
}

/// Reads the digit run `v[i..j]` as a decimal numeral; the 15-digit cap
/// keeps the value exactly representable.
pub fn digits_value(v: &Vec<char>, i: usize, j: usize) -> (r: i64)
    requires
        i <= j <= v.len(),
        j - i <= 15,
        forall|k: int| i <= k < j ==> is_digit(v@[k]),
    ensures
        r == digits_val(v@, i as int, j as int),
        0 <= r < pow10(j - i),
    decreases j - i,
{
    proof {
        lemma_pow10_fifteen();
        lemma_pow10_mono(j - i, 15);
    }
    if i >= j {
        0
    } else {
        let sub: i64 = digits_value(v, i, j - 1);
        proof {
            lemma_pow10_mono(j - i - 1, 14);
        }
        let u: u32 = v[j - 1] as u32;
        let d: i64 = (u - 48) as i64;
        let ghost p: int = pow10(j - i - 1);
        assert(sub * 10 <= (p - 1) * 10 && (p - 1) * 10 + 10 == p * 10) by (nonlinear_arith)
            requires
                0 <= sub <= p - 1,
        {}
        sub * 10 + d
    }
}

pub proof fn lemma_pow10_fifteen()
    ensures
        pow10(15) == 0x38d7ea4c68000,
        pow10(14) == 0x5af3107a4000,
{
    reveal_with_fuel(pow10, 17);
}

/// An identifier token starts at position `i`: an identifier-start
/// character stands there, except that a `-` right before a digit
/// begins a number, not an identifier.
pub open spec fn starts_ident(s: Seq<char>, i: int) -> bool {
    0 <= i < s.len() && is_name_start(s[i]) && !(s[i] as u32 == 45 && i + 1 < s.len() && is_digit(
        s[i + 1],
    ))
}

pub fn ident_starts_at(v: &Vec<char>, i: usize) -> (b: bool)
    requires
        i <= v.len(),
    ensures
        b == starts_ident(v@, i as int),
{
    if i < v.len() && name_start_char(v[i]) {
        if v[i] as u32 == 45 && i + 1 < v.len() {
            let u: u32 = v[i + 1] as u32;
            !(48 <= u && u <= 57)
        } else {
            true
        }
    } else {
        false
    }
}

/// Position of the first occurrence of the quote code `q` at or after
/// `i`, or the sequence's length when there is none.
pub open spec fn string_close(s: Seq<char>, i: int, q: u32) -> int
    decreases s.len() - i,
{
    if 0 <= i < s.len() {
        if s[i] as u32 == q {
            i
        } else {
            string_close(s, i + 1, q)
        }
    } else {
        s.len() as int
    }
}

pub proof fn lemma_string_close_props(s: Seq<char>, i: int, q: u32)
    requires
        0 <= i <= s.len(),
    ensures
        i <= string_close(s, i, q) <= s.len(),
    decreases s.len() - i,
{
    if i < s.len() && s[i] as u32 != q {
        lemma_string_close_props(s, i + 1, q);
    }
}

pub fn find_string_close(v: &Vec<char>, i: usize, q: u32) -> (j: usize)
    requires
        i <= v.len(),
    ensures
        j == string_close(v@, i as int, q),
        i <= j <= v.len(),
    decreases v.len() - i,
{
    proof {
        lemma_string_close_props(v@, i as int, q);
    }
    if i < v.len() {
        let u: u32 = v[i] as u32;
        if u == q {
            i
        } else {
            find_string_close(v, i + 1, q)
        }
    } else {
        v.len()
    }
}

/// Position after an optional `+` or `-` sign at `i`.
pub open spec fn sign_end(s: Seq<char>, i: int) -> int {
    if 0 <= i < s.len() && (s[i] as u32 == 43 || s[i] as u32 == 45) {
        i + 1
    } else {
        i
    }
}

pub open spec fn number_is_neg(s: Seq<char>, i: int) -> bool {
    0 <= i < s.len() && s[i] as u32 == 45
}

pub open spec fn int_part_end(s: Seq<char>, i: int) -> int {
    digits_end(s, sign_end(s, i))
}

/// The number at `i` has a fractional part: a `.` right after the
/// integer digits, itself followed by at least one digit.
pub open spec fn number_has_frac(s: Seq<char>, i: int) -> bool {
    let e = int_part_end(s, i);
    e < s.len() && s[e] as u32 == 46 && digits_end(s, e + 1) > e + 1
}

pub open spec fn number_end(s: Seq<char>, i: int) -> int {
    if number_has_frac(s, i) {
        digits_end(s, int_part_end(s, i) + 1)
    } else {
        int_part_end(s, i)
    }
}

pub open spec fn number_int_digits(s: Seq<char>, i: int) -> int {
    int_part_end(s, i) - sign_end(s, i)
}

pub open spec fn number_frac_digits(s: Seq<char>, i: int) -> int {
    if number_has_frac(s, i) {
        number_end(s, i) - int_part_end(s, i) - 1
    } else {
        0
    }
}

/// A signed decimal number starts at `i` and its value is exactly
/// representable: at most 15 digits in all.
pub open spec fn number_ok(s: Seq<char>, i: int) -> bool {
    (number_int_digits(s, i) > 0 || number_has_frac(s, i)) && number_int_digits(s, i)
        + number_frac_digits(s, i) <= 15
}

/// The unsigned numerator of the number at `i`, over the denominator
/// `pow10` of the count of fractional digits.
pub open spec fn number_mantissa(s: Seq<char>, i: int) -> int {
    digits_val(s, sign_end(s, i), int_part_end(s, i)) * pow10(number_frac_digits(s, i)) + (
    if number_has_frac(s, i) {
        digits_val(s, int_part_end(s, i) + 1, number_end(s, i))
    } else {
        0
    })
}

pub open spec fn number_num(s: Seq<char>, i: int) -> int {
    if number_is_neg(s, i) {
        -number_mantissa(s, i)
    } else {
        number_mantissa(s, i)
    }
}

pub open spec fn number_den(s: Seq<char>, i: int) -> int {
    pow10(number_frac_digits(s, i))
}

/// A scanned decimal number token: its exact value `num / den`, whether
/// it is an integer (no fractional part), and the position after it.
#[derive(Clone, Copy, Debug, PartialEq, Eq, Structural)]
pub struct NumberToken {
    pub num: i64,
    pub den: i64,
    pub integer: bool,
    pub end: usize,
}

pub fn pow10_val(n: usize) -> (r: i64)
    requires
        n <= 15,
    ensures
        r == pow10(n as int),
        1 <= r <= 0x38d7ea4c68000,
    decreases n,
{
    proof {
        lemma_pow10_fifteen();
        lemma_pow10_mono(n as int, 15);
        lemma_pow10_pos(n as int);
    }
    if n == 0 {
        1
    } else {
        let sub: i64 = pow10_val(n - 1);
        10 * sub
    }
}

/// Scans the signed decimal number starting at `i` (no whitespace
/// skipping). `None` exactly when no number starts there or its exact
/// value is not representable within the 15-digit cap.
pub fn scan_number(v: &Vec<char>, i: usize) -> (r: Option<NumberToken>)
    requires
        i <= v.len(),
    ensures
        match r {
            Some(t) => {
                &&& number_ok(v@, i as int)
                &&& t.num == number_num(v@, i as int)
                &&& t.den == number_den(v@, i as int)
                &&& t.integer == !number_has_frac(v@, i as int)
                &&& t.end == number_end(v@, i as int)
                &&& 1 <= t.den <= 0x38d7ea4c68000
                &&& -0x38d7ea4c68000 < t.num < 0x38d7ea4c68000
                &&& i <= t.end <= v.len()
            },
            None => !number_ok(v@, i as int),
        },
{
    let ghost s: Seq<char> = v@;
    proof {
        lemma_pow10_fifteen();
    }
    let mut neg: bool = false;
    let mut i1: usize = i;
    if i < v.len() {
        let u: u32 = v[i] as u32;
        if u == 43 || u == 45 {
            i1 = i + 1;
            neg = u == 45;
        }
    }
    assert(i1 == sign_end(s, i as int));
    assert(neg == number_is_neg(s, i as int));
    let ie: usize = find_digits_end(v, i1);
    proof {
        lemma_digits_end_props(s, i1 as int);
    }
    let mut has_frac: bool = false;
    let mut fend: usize = ie;
    if ie < v.len() {
        let u: u32 = v[ie] as u32;
        if u == 46 {
            let fe: usize = find_digits_end(v, ie + 1);
            proof {
                lemma_digits_end_props(s, ie + 1 as int);
            }
            if fe > ie + 1 {
                has_frac = true;
                fend = fe;
            }
        }
    }
    assert(has_frac == number_has_frac(s, i as int));
    let nend: usize = if has_frac {
        fend
    } else {
        ie
    };
    assert(nend == number_end(s, i as int));
    let di: usize = ie - i1;
    let df: usize = if has_frac {
        fend - ie - 1
    } else {
        0
    };
    if di == 0 && !has_frac {
        return None;
    }
    if di + df > 15 {
        return None;
    }
    let ival: i64 = digits_value(v, i1, ie);
    let fval: i64 = if has_frac {
        proof {
            lemma_digits_end_props(s, ie + 1 as int);
        }
        digits_value(v, ie + 1, fend)
    } else {
        0
    };
    let p: i64 = pow10_val(df);
    proof {
        let divi: int = digits_val(s, i1 as int, ie as int);
        let dfvi: int = if has_frac {
            digits_val(s, ie + 1 as int, fend as int)
        } else {
            0
        };
        lemma_pow10_pos(df as int);
        lemma_pow10_add(di as int, df as int);
        lemma_pow10_mono(di as int + df as int, 15);
        assert(divi * pow10(df as int) <= (pow10(di as int) - 1) * pow10(df as int) && (pow10(
            di as int,
        ) - 1) * pow10(df as int) == pow10(di as int) * pow10(df as int) - pow10(df as int))
            by (nonlinear_arith)
            requires
                0 <= divi <= pow10(di as int) - 1,
                pow10(df as int) >= 1,
        {}
        assert(divi * pow10(df as int) + dfvi < pow10(di as int + df as int));
    }
    let mant: i64 = ival * p + fval;
    let num: i64 = if neg {
        -mant
    } else {
        mant
    };
    Some(NumberToken { num, den: p, integer: !has_frac, end: nend })
}

/// Case-insensitive match of the token `v[i..j]` against the (all
/// lower-case) keyword `kw`.
pub open spec fn token_matches_kw(s: Seq<char>, i: int, j: int, kw: Seq<char>) -> bool {
    j - i == kw.len() && forall|k: int|
        0 <= k < kw.len() ==> lower_code(s[i + k]) == lower_code(kw[k])
}

pub fn token_eq_ignore_case(v: &Vec<char>, i: usize, j: usize, kw: &str) -> (b: bool)
    requires
        i <= j <= v.len(),
    ensures
        b == token_matches_kw(v@, i as int, j as int, kw@),
{
    let n: usize = kw.unicode_len();
    if j - i != n {
        return false;
    }
    let mut k: usize = 0;
    while k < n
        invariant
            k <= n,
            n == kw@.len(),
            i <= j <= v.len(),
            j - i == n,
            forall|m: int| 0 <= m < k ==> lower_code(v@[i + m]) == lower_code(kw@[m]),
        decreases n - k,
    {
        let cu: u32 = v[i + k] as u32;
        let cl: u32 = if 65 <= cu && cu <= 90 {
            cu + 32
        } else {
            cu
        };
        let du: u32 = kw.get_char(k) as u32;
        let dl: u32 = if 65 <= du && du <= 90 {
            du + 32
        } else {
            du
        };
        if cl != dl {
            return false;
        }
        k = k + 1;
    }
    true
}

/// Exact (case-sensitive) match of the token `v[i..j]` against `t`.
pub open spec fn token_matches_exact(s: Seq<char>, i: int, j: int, t: Seq<char>) -> bool {
    j - i == t.len() && forall|k: int| 0 <= k < t.len() ==> s[i + k] == t[k]
}

pub fn token_eq_exact(v: &Vec<char>, i: usize, j: usize, t: &str) -> (b: bool)
    requires
        i <= j <= v.len(),
    ensures
        b == token_matches_exact(v@, i as int, j as int, t@),
{
    let n: usize = t.unicode_len();
    if j - i != n {
        return false;
    }
    let mut k: usize = 0;
    while k < n
        invariant
            k <= n,
            n == t@.len(),
            i <= j <= v.len(),
            j - i == n,
            forall|m: int| 0 <= m < k ==> v@[i + m] == t@[m],
        decreases n - k,
    {
        if v[i + k] != t.get_char(k) {
            return false;
        }
        k = k + 1;
    }
    true
}

} // verus!
