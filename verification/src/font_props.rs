//! CSS font properties: font-size, font-weight, letter-spacing and
//! font-family.
//!
//! Each property family parses its text by trying an ordered list of
//! alternative sub-grammars and returning the first that matches; the
//! error of the last alternative is reported when none does. The
//! cascade `compute` steps resolve keyword variants into absolute
//! values from the inherited style.

use vstd::prelude::*;
use crate::error::{CssParseError, ValueErrorKind};
use crate::length::{
    normalize, spec_length_token, spec_normalize, scan_length, Axis, ComputedValues, Length,
    LengthUnit, ViewParams,
};
use crate::num::Frac;
use crate::scan::{
    chars_of, find_name_end, find_ws_end, is_name_start, name_end, name_start_char, number_end,
    number_has_frac, number_num, number_ok, scan_number, token_eq_ignore_case, token_matches_kw,
    ws_end, is_name_char, name_char, string_close, find_string_close, starts_ident,
    ident_starts_at,
};

verus! {

/// The specified value of the font-size property: a relative keyword,
/// an absolute-size keyword, or an explicit length.
#[derive(Clone, Copy, Debug, PartialEq, Eq, Structural)]
pub enum FontSizeSpec {
    Smaller,
    Larger,
    XXSmall,
    XSmall,
    Small,
    Medium,
    Large,
    XLarge,
    XXLarge,
    Value(Length),
}

/// The absolute-size keyword for step `k` of the geometric progression
/// resolves to `12pt * 1.2^k` expressed in inches, that is
/// `(1/6) * (6/5)^k` inches; `Medium` is step 0.
pub open spec fn spec_font_size_step(k: int) -> Frac {
    if k == -3 {
        Frac { num: 125, den: 1296 }
    } else if k == -2 {
        Frac { num: 25, den: 216 }
    } else if k == -1 {
        Frac { num: 5, den: 36 }
    } else if k == 0 {
        Frac { num: 1, den: 6 }
    } else if k == 1 {
        Frac { num: 1, den: 5 }
    } else if k == 2 {
        Frac { num: 6, den: 25 }
    } else {
        Frac { num: 36, den: 125 }
    }
}

pub open spec fn spec_absolute_size_length(k: int) -> Length {
    Length { mag: spec_font_size_step(k), unit: LengthUnit::In, axis: Axis::Both }
}

/// The cascade arithmetic of `compute` stays within the machine
/// representation: scaling the inherited font-size by 6/5 (or 5/6), or
/// by a percentage, must not overflow the fraction fields.
pub open spec fn spec_font_size_compute_fits(fs: FontSizeSpec, v: ComputedValues) -> bool {
    match fs {
        FontSizeSpec::Smaller => v.font_size.mag.mul_fits(Frac { num: 5, den: 6 }),
        FontSizeSpec::Larger => v.font_size.mag.mul_fits(Frac { num: 6, den: 5 }),
        FontSizeSpec::Value(l) => l.unit == LengthUnit::Percent ==> v.font_size.mag.mul_fits(
            l.mag,
        ),
        _ => true,
    }
}

/// The computed font-size. `Smaller` and `Larger` scale the inherited
/// resolved font-size by 5/6 and 6/5, keeping its unit; absolute-size
/// keywords resolve to the fixed progression independently of the
/// inherited value; a percentage scales the inherited magnitude by the
/// percentage fraction, keeping the inherited unit; any other explicit
/// value passes through unchanged. The result is always a `Value`.
pub open spec fn spec_font_size_compute(fs: FontSizeSpec, v: ComputedValues) -> FontSizeSpec {
    let inherited = v.font_size.mag;
    match fs {
        FontSizeSpec::Smaller => FontSizeSpec::Value(
            Length {
                mag: inherited.spec_mul(Frac { num: 5, den: 6 })->Some_0,
                unit: v.font_size.unit,
                axis: Axis::Both,
            },
        ),
        FontSizeSpec::Larger => FontSizeSpec::Value(
            Length {
                mag: inherited.spec_mul(Frac { num: 6, den: 5 })->Some_0,
                unit: v.font_size.unit,
                axis: Axis::Both,
            },
        ),
        FontSizeSpec::XXSmall => FontSizeSpec::Value(spec_absolute_size_length(-3)),
        FontSizeSpec::XSmall => FontSizeSpec::Value(spec_absolute_size_length(-2)),
        FontSizeSpec::Small => FontSizeSpec::Value(spec_absolute_size_length(-1)),
        FontSizeSpec::Medium => FontSizeSpec::Value(spec_absolute_size_length(0)),
        FontSizeSpec::Large => FontSizeSpec::Value(spec_absolute_size_length(1)),
        FontSizeSpec::XLarge => FontSizeSpec::Value(spec_absolute_size_length(2)),
        FontSizeSpec::XXLarge => FontSizeSpec::Value(spec_absolute_size_length(3)),
        FontSizeSpec::Value(l) => if l.unit == LengthUnit::Percent {
            FontSizeSpec::Value(
                Length {
                    mag: inherited.spec_mul(l.mag)->Some_0,
                    unit: v.font_size.unit,
                    axis: Axis::Both,
                },
            )
        } else {
            FontSizeSpec::Value(l)
        },
    }
}

/// The font-size keyword denoted by the identifier `s[i..j]`, if any.
pub open spec fn spec_font_size_keyword(s: Seq<char>, i: int, j: int) -> Option<FontSizeSpec> {
    if token_matches_kw(s, i, j, "smaller"@) {
        Some(FontSizeSpec::Smaller)
    } else if token_matches_kw(s, i, j, "larger"@) {
        Some(FontSizeSpec::Larger)
    } else if token_matches_kw(s, i, j, "xx-small"@) {
        Some(FontSizeSpec::XXSmall)
    } else if token_matches_kw(s, i, j, "x-small"@) {
        Some(FontSizeSpec::XSmall)
    } else if token_matches_kw(s, i, j, "small"@) {
        Some(FontSizeSpec::Small)
    } else if token_matches_kw(s, i, j, "medium"@) {
        Some(FontSizeSpec::Medium)
    } else if token_matches_kw(s, i, j, "large"@) {
        Some(FontSizeSpec::Large)
    } else if token_matches_kw(s, i, j, "x-large"@) {
        Some(FontSizeSpec::XLarge)
    } else if token_matches_kw(s, i, j, "xx-large"@) {
        Some(FontSizeSpec::XXLarge)
    } else {
        None
    }
}

/// What parsing a font-size from `s` yields: first the length
/// alternative, then the keyword alternative, then the error of the
/// last alternative; trailing input after a matched value is a syntax
/// error at its position.
pub open spec fn spec_parse_font_size(s: Seq<char>) -> Result<FontSizeSpec, CssParseError> {
    let iws = ws_end(s, 0);
    match spec_length_token(s, iws, Axis::Both) {
        Some((l, j)) => if ws_end(s, j) == s.len() {
            Ok(FontSizeSpec::Value(l))
        } else {
            Err(CssParseError { kind: ValueErrorKind::Syntax, pos: ws_end(s, j) as usize })
        },
        None => if iws < s.len() && is_name_start(s[iws]) {
            let ke = name_end(s, iws);
            match spec_font_size_keyword(s, iws, ke) {
                Some(k) => if ws_end(s, ke) == s.len() {
                    Ok(k)
                } else {
                    Err(
                        CssParseError {
                            kind: ValueErrorKind::Syntax,
                            pos: ws_end(s, ke) as usize,
                        },
                    )
                },
                None => Err(CssParseError { kind: ValueErrorKind::Syntax, pos: iws as usize }),
            }
        } else {
            Err(CssParseError { kind: ValueErrorKind::Syntax, pos: iws as usize })
        },
    }
}

impl FontSizeSpec {
    /// An explicit value, when present, is a well-formed length;
    /// parsing only ever yields such variants.
    pub open spec fn wf(self) -> bool {
        match self {
            FontSizeSpec::Value(l) => l.wf(),
            _ => true,
        }
    }

    /// The explicit length held by a `Value` variant; the cascade only
    /// calls this after `compute`, which always yields a `Value`.
    pub fn value(&self) -> (r: Length)
        requires
            self is Value,
        ensures
            r == self->Value_0,
    {
        match self {
            FontSizeSpec::Value(s) => *s,
            _ => {
                proof {
                    assert(false);
                }
                Length::new(0, 1, LengthUnit::Px, Axis::Both)
            },
        }
    }

    /// Parses a font-size property value.
    pub fn parse_str(s: &str) -> (r: Result<FontSizeSpec, CssParseError>)
        ensures
            r == spec_parse_font_size(s@),
    {
        let v: Vec<char> = chars_of(s);
        let iws: usize = find_ws_end(&v, 0);
        match scan_length(&v, iws, Axis::Both) {
            Some((l, j)) => {
                let e2: usize = find_ws_end(&v, j);
                if e2 == v.len() {
                    Ok(FontSizeSpec::Value(l))
                } else {
                    Err(CssParseError::syntax_at(e2))
                }
            },
            None => {
                if iws < v.len() && name_start_char(v[iws]) {
                    let ke: usize = find_name_end(&v, iws);
                    let k: Option<FontSizeSpec> = if token_eq_ignore_case(&v, iws, ke, "smaller") {
                        Some(FontSizeSpec::Smaller)
                    } else if token_eq_ignore_case(&v, iws, ke, "larger") {
                        Some(FontSizeSpec::Larger)
                    } else if token_eq_ignore_case(&v, iws, ke, "xx-small") {
                        Some(FontSizeSpec::XXSmall)
                    } else if token_eq_ignore_case(&v, iws, ke, "x-small") {
                        Some(FontSizeSpec::XSmall)
                    } else if token_eq_ignore_case(&v, iws, ke, "small") {
                        Some(FontSizeSpec::Small)
                    } else if token_eq_ignore_case(&v, iws, ke, "medium") {
                        Some(FontSizeSpec::Medium)
                    } else if token_eq_ignore_case(&v, iws, ke, "large") {
                        Some(FontSizeSpec::Large)
                    } else if token_eq_ignore_case(&v, iws, ke, "x-large") {
                        Some(FontSizeSpec::XLarge)
                    } else if token_eq_ignore_case(&v, iws, ke, "xx-large") {
                        Some(FontSizeSpec::XXLarge)
                    } else {
                        None
                    };
                    match k {
                        Some(k) => {
                            let e2: usize = find_ws_end(&v, ke);
                            if e2 == v.len() {
                                Ok(k)
                            } else {
                                Err(CssParseError::syntax_at(e2))
                            }
                        },
                        None => Err(CssParseError::syntax_at(iws)),
                    }
                } else {
                    Err(CssParseError::syntax_at(iws))
                }
            },
        }
    }

    /// The cascade compute step for font-size; see
    /// [`spec_font_size_compute`].
    pub fn compute(&self, v: &ComputedValues) -> (r: FontSizeSpec)
        requires
            self.wf(),
            v.wf(),
            spec_font_size_compute_fits(*self, *v),
        ensures
            r == spec_font_size_compute(*self, *v),
            r is Value,
            r->Value_0.wf(),
    {
        let size: Frac = v.font_size.mag;
        let new_size: Length = match self {
            FontSizeSpec::Smaller => {
                let m: Frac = match size.checked_mul(Frac::new(5, 6)) {
                    Some(m) => m,
                    None => {
                        proof {
                            assert(false);
                        }
                        size
                    },
                };
                Length { mag: m, unit: v.font_size.unit, axis: Axis::Both }
            },
            FontSizeSpec::Larger => {
                let m: Frac = match size.checked_mul(Frac::new(6, 5)) {
                    Some(m) => m,
                    None => {
                        proof {
                            assert(false);
                        }
                        size
                    },
                };
                Length { mag: m, unit: v.font_size.unit, axis: Axis::Both }
            },
            FontSizeSpec::XXSmall => Length::new(125, 1296, LengthUnit::In, Axis::Both),
            FontSizeSpec::XSmall => Length::new(25, 216, LengthUnit::In, Axis::Both),
            FontSizeSpec::Small => Length::new(5, 36, LengthUnit::In, Axis::Both),
            FontSizeSpec::Medium => Length::new(1, 6, LengthUnit::In, Axis::Both),
            FontSizeSpec::Large => Length::new(1, 5, LengthUnit::In, Axis::Both),
            FontSizeSpec::XLarge => Length::new(6, 25, LengthUnit::In, Axis::Both),
            FontSizeSpec::XXLarge => Length::new(36, 125, LengthUnit::In, Axis::Both),
            FontSizeSpec::Value(l) => {
                if matches!(l.unit, LengthUnit::Percent) {
                    let m: Frac = match size.checked_mul(l.mag) {
                        Some(m) => m,
                        None => {
                            proof {
                                assert(false);
                            }
                            size
                        },
                    };
                    Length { mag: m, unit: v.font_size.unit, axis: Axis::Both }
                } else {
                    *l
                }
            },
        };
        FontSizeSpec::Value(new_size)
    }

    /// Normalizes the explicit length held by a `Value` variant into
    /// user-space pixels; see [`spec_normalize`]. `None` exactly when
    /// the exact rational result does not fit the machine
    /// representation.
    pub fn normalize(&self, values: &ComputedValues, params: &ViewParams) -> (r: Option<Frac>)
        requires
            self is Value,
            self.wf(),
            values.wf(),
            params.wf(),
        ensures
            r == spec_normalize(self->Value_0, *values, *params),
            r is Some ==> r->Some_0.wf(),
    {
        let l: Length = self.value();
        normalize(&l, values, params)
    }
}

/// The fraction `b` equals the fraction `a` scaled by `n/d` as
/// rational numbers, by cross-multiplication (denominators positive).
pub open spec fn rat_scaled(a: Frac, n: int, d: int, b: Frac) -> bool {
    b.num * (a.den * d) == (a.num * n) * b.den
}

/// For every inherited font-size X, `Smaller` computes to `X / 1.2`
/// and `Larger` to `X * 1.2` as exact rational numbers, each keeping
/// the inherited unit.
pub proof fn lemma_relative_font_size_scaling(v: ComputedValues)
    requires
        v.wf(),
        spec_font_size_compute_fits(FontSizeSpec::Smaller, v),
        spec_font_size_compute_fits(FontSizeSpec::Larger, v),
    ensures
        ({
            let r = spec_font_size_compute(FontSizeSpec::Smaller, v);
            &&& r is Value
            &&& r->Value_0.unit == v.font_size.unit
            &&& rat_scaled(v.font_size.mag, 5, 6, r->Value_0.mag)
        }),
        ({
            let r = spec_font_size_compute(FontSizeSpec::Larger, v);
            &&& r is Value
            &&& r->Value_0.unit == v.font_size.unit
            &&& rat_scaled(v.font_size.mag, 6, 5, r->Value_0.mag)
        }),
{
    let a = v.font_size.mag;
    let s = spec_font_size_compute(FontSizeSpec::Smaller, v)->Value_0.mag;
    let l = spec_font_size_compute(FontSizeSpec::Larger, v)->Value_0.mag;
    assert(s.num == a.num * 5 && s.den == a.den * 6);
    assert(l.num == a.num * 6 && l.den == a.den * 5);
    assert((a.num * 5) * (a.den * 6) == (a.num * 5) * (a.den * 6)) by (nonlinear_arith);
    assert(s.num * (a.den * 6) == (a.num * 5) * s.den) by (nonlinear_arith)
        requires
            s.num == a.num * 5 && s.den == a.den * 6,
    {}
    assert(l.num * (a.den * 5) == (a.num * 6) * l.den) by (nonlinear_arith)
        requires
            l.num == a.num * 6 && l.den == a.den * 5,
    {}
}

/// `Medium` computes to the fixed step-0 absolute value regardless of
/// the inherited font-size, and the absolute-size steps from `XXSmall`
/// to `XXLarge` form a strictly increasing geometric sequence with
/// ratio 1.2.
pub proof fn lemma_absolute_size_progression(v: ComputedValues)
    ensures
        spec_font_size_compute(FontSizeSpec::Medium, v) == FontSizeSpec::Value(
            spec_absolute_size_length(0),
        ),
        forall|k: int|
            -3 <= k < 3 ==> rat_scaled(
                #[trigger] spec_font_size_step(k),
                6,
                5,
                spec_font_size_step(k + 1),
            ),
        forall|k: int|
            -3 <= k < 3 ==> (#[trigger] spec_font_size_step(k)).below(spec_font_size_step(k + 1)),
{
    assert forall|k: int| -3 <= k < 3 implies rat_scaled(
        #[trigger] spec_font_size_step(k),
        6,
        5,
        spec_font_size_step(k + 1),
    ) && (spec_font_size_step(k)).below(spec_font_size_step(k + 1)) by {
        assert(-3 <= k < 3);
    }
}

/// The specified value of the letter-spacing property.
#[derive(Clone, Copy, Debug, PartialEq, Eq, Structural)]
pub enum LetterSpacingSpec {
    Normal,
    Value(Length),
}

/// The computed letter-spacing: `Normal` resolves to a zero-magnitude
/// pixel length; an explicit value passes through unchanged. The
/// result is always a `Value`.
pub open spec fn spec_letter_spacing_compute(ls: LetterSpacingSpec) -> LetterSpacingSpec {
    match ls {
        LetterSpacingSpec::Normal => LetterSpacingSpec::Value(
            Length {
                mag: Frac { num: 0, den: 1 },
                unit: LengthUnit::Px,
                axis: Axis::Horizontal,
            },
        ),
        LetterSpacingSpec::Value(l) => LetterSpacingSpec::Value(l),
    }
}

/// What parsing a letter-spacing from `s` yields: first the length
/// alternative, then the `normal` keyword. The length alternative is
/// the shared length grammar, so percentages are accepted here and
/// resolve against the viewport width — letter-spacing is on the
/// allow-list for percentages, as its horizontal axis tag records.
pub open spec fn spec_parse_letter_spacing(s: Seq<char>) -> Result<
    LetterSpacingSpec,
    CssParseError,
> {
    let iws = ws_end(s, 0);
    match spec_length_token(s, iws, Axis::Horizontal) {
        Some((l, j)) => if ws_end(s, j) == s.len() {
            Ok(LetterSpacingSpec::Value(l))
        } else {
            Err(CssParseError { kind: ValueErrorKind::Syntax, pos: ws_end(s, j) as usize })
        },
        None => if iws < s.len() && is_name_start(s[iws]) && token_matches_kw(
            s,
            iws,
            name_end(s, iws),
            "normal"@,
        ) {
            if ws_end(s, name_end(s, iws)) == s.len() {
                Ok(LetterSpacingSpec::Normal)
            } else {
                Err(
                    CssParseError {
                        kind: ValueErrorKind::Syntax,
                        pos: ws_end(s, name_end(s, iws)) as usize,
                    },
                )
            }
        } else {
            Err(CssParseError { kind: ValueErrorKind::Syntax, pos: iws as usize })
        },
    }
}

impl LetterSpacingSpec {
    /// The explicit length held by a `Value` variant; the cascade only
    /// calls this after `compute`, which always yields a `Value`.
    pub fn value(&self) -> (r: Length)
        requires
            self is Value,
        ensures
            r == self->Value_0,
    {
        match self {
            LetterSpacingSpec::Value(s) => *s,
            _ => {
                proof {
                    assert(false);
                }
                Length::new(0, 1, LengthUnit::Px, Axis::Horizontal)
            },
        }
    }

    /// Parses a letter-spacing property value.
    pub fn parse_str(s: &str) -> (r: Result<LetterSpacingSpec, CssParseError>)
        ensures
            r == spec_parse_letter_spacing(s@),
    {
        let v: Vec<char> = chars_of(s);
        let iws: usize = find_ws_end(&v, 0);
        match scan_length(&v, iws, Axis::Horizontal) {
            Some((l, j)) => {
                let e2: usize = find_ws_end(&v, j);
                if e2 == v.len() {
                    Ok(LetterSpacingSpec::Value(l))
                } else {
                    Err(CssParseError::syntax_at(e2))
                }
            },
            None => {
                if iws < v.len() && name_start_char(v[iws]) {
                    let ke: usize = find_name_end(&v, iws);
                    if token_eq_ignore_case(&v, iws, ke, "normal") {
                        let e2: usize = find_ws_end(&v, ke);
                        if e2 == v.len() {
                            Ok(LetterSpacingSpec::Normal)
                        } else {
                            Err(CssParseError::syntax_at(e2))
                        }
                    } else {
                        Err(CssParseError::syntax_at(iws))
                    }
                } else {
                    Err(CssParseError::syntax_at(iws))
                }
            },
        }
    }

    /// The cascade compute step for letter-spacing; see
    /// [`spec_letter_spacing_compute`]. No cascaded scaling applies.
    pub fn compute(&self) -> (r: LetterSpacingSpec)
        ensures
            r == spec_letter_spacing_compute(*self),
            r is Value,
    {
        let spacing: Length = match self {
            LetterSpacingSpec::Normal => Length::new(0, 1, LengthUnit::Px, Axis::Horizontal),
            LetterSpacingSpec::Value(s) => *s,
        };
        LetterSpacingSpec::Value(spacing)
    }

    /// Normalizes the explicit length held by a `Value` variant into
    /// user-space pixels; see [`spec_normalize`]. `None` exactly when
    /// the exact rational result does not fit the machine
    /// representation.
    pub fn normalize(&self, values: &ComputedValues, params: &ViewParams) -> (r: Option<Frac>)
        requires
            self is Value,
            self->Value_0.wf(),
            values.wf(),
            params.wf(),
        ensures
            r == spec_normalize(self->Value_0, *values, *params),
            r is Some ==> r->Some_0.wf(),
    {
        let l: Length = self.value();
        normalize(&l, values, params)
    }
}


/// `normal` letter-spacing computes to a zero-magnitude pixel length;
/// any explicit value computes to itself, unchanged.
pub proof fn lemma_letter_spacing_compute_cases(l: Length)
    ensures
        spec_letter_spacing_compute(LetterSpacingSpec::Normal) == LetterSpacingSpec::Value(
            (Length {
                mag: Frac { num: 0, den: 1 },
                unit: LengthUnit::Px,
                axis: Axis::Horizontal,
            }),
        ),
        spec_letter_spacing_compute(LetterSpacingSpec::Value(l)) == LetterSpacingSpec::Value(l),
{
}

/// The specified value of the font-weight property. `Bolder` and
/// `Lighter` are kept as unresolved terminal variants: this core
/// defines no resolution of them against the inherited weight.
#[derive(Clone, Copy, Debug, PartialEq, Eq, Structural)]
pub enum FontWeightSpec {
    Normal,
    Bold,
    Bolder,
    Lighter,
    W100,
    W200,
    W300,
    W400,
    W500,
    W600,
    W700,
    W800,
    W900,
}

/// The weight variant for an integer, defined exactly on the nine
/// multiples of 100 from 100 to 900.
pub open spec fn spec_weight_of_int(n: int) -> Option<FontWeightSpec> {
    if n == 100 {
        Some(FontWeightSpec::W100)
    } else if n == 200 {
        Some(FontWeightSpec::W200)
    } else if n == 300 {
        Some(FontWeightSpec::W300)
    } else if n == 400 {
        Some(FontWeightSpec::W400)
    } else if n == 500 {
        Some(FontWeightSpec::W500)
    } else if n == 600 {
        Some(FontWeightSpec::W600)
    } else if n == 700 {
        Some(FontWeightSpec::W700)
    } else if n == 800 {
        Some(FontWeightSpec::W800)
    } else if n == 900 {
        Some(FontWeightSpec::W900)
    } else {
        None
    }
}

pub open spec fn spec_weight_keyword(s: Seq<char>, i: int, j: int) -> Option<FontWeightSpec> {
    if token_matches_kw(s, i, j, "normal"@) {
        Some(FontWeightSpec::Normal)
    } else if token_matches_kw(s, i, j, "bold"@) {
        Some(FontWeightSpec::Bold)
    } else if token_matches_kw(s, i, j, "bolder"@) {
        Some(FontWeightSpec::Bolder)
    } else if token_matches_kw(s, i, j, "lighter"@) {
        Some(FontWeightSpec::Lighter)
    } else {
        None
    }
}

/// The number token at `i` is followed by a `%` or an identifier
/// character, making it a percentage or dimension token rather than a
/// bare integer.
pub open spec fn spec_number_has_suffix(s: Seq<char>, i: int) -> bool {
    let e = number_end(s, i);
    e < s.len() && (s[e] as u32 == 37 || is_name_char(s[e]))
}

/// What parsing a font-weight from `s` yields: first the keyword
/// alternative, then a bare integer, which must be one of the nine
/// multiples of 100 from 100 to 900; any other integer is a semantic
/// error, and any other token a syntax error.
pub open spec fn spec_parse_font_weight(s: Seq<char>) -> Result<FontWeightSpec, CssParseError> {
    let iws = ws_end(s, 0);
    if starts_ident(s, iws) {
        let ke = name_end(s, iws);
        match spec_weight_keyword(s, iws, ke) {
            Some(k) => if ws_end(s, ke) == s.len() {
                Ok(k)
            } else {
                Err(CssParseError { kind: ValueErrorKind::Syntax, pos: ws_end(s, ke) as usize })
            },
            None => Err(CssParseError { kind: ValueErrorKind::Syntax, pos: iws as usize }),
        }
    } else if number_ok(s, iws) && !number_has_frac(s, iws) && !spec_number_has_suffix(s, iws) {
        match spec_weight_of_int(number_num(s, iws)) {
            Some(w) => if ws_end(s, number_end(s, iws)) == s.len() {
                Ok(w)
            } else {
                Err(
                    CssParseError {
                        kind: ValueErrorKind::Syntax,
                        pos: ws_end(s, number_end(s, iws)) as usize,
                    },
                )
            },
            None => Err(CssParseError { kind: ValueErrorKind::Semantic, pos: iws as usize }),
        }
    } else {
        Err(CssParseError { kind: ValueErrorKind::Syntax, pos: iws as usize })
    }
}

impl FontWeightSpec {
    /// Parses a font-weight property value.
    pub fn parse_str(s: &str) -> (r: Result<FontWeightSpec, CssParseError>)
        ensures
            r == spec_parse_font_weight(s@),
    {
        let v: Vec<char> = chars_of(s);
        let iws: usize = find_ws_end(&v, 0);
        if ident_starts_at(&v, iws) {
            let ke: usize = find_name_end(&v, iws);
            let k: Option<FontWeightSpec> = if token_eq_ignore_case(&v, iws, ke, "normal") {
                Some(FontWeightSpec::Normal)
            } else if token_eq_ignore_case(&v, iws, ke, "bold") {
                Some(FontWeightSpec::Bold)
            } else if token_eq_ignore_case(&v, iws, ke, "bolder") {
                Some(FontWeightSpec::Bolder)
            } else if token_eq_ignore_case(&v, iws, ke, "lighter") {
                Some(FontWeightSpec::Lighter)
            } else {
                None
            };
            match k {
                Some(k) => {
                    let e2: usize = find_ws_end(&v, ke);
                    if e2 == v.len() {
                        Ok(k)
                    } else {
                        Err(CssParseError::syntax_at(e2))
                    }
                },
                None => Err(CssParseError::syntax_at(iws)),
            }
        } else {
            match scan_number(&v, iws) {
                Some(t) => {
                    let suffixed: bool = t.end < v.len() && {
                        let u: u32 = v[t.end] as u32;
                        u == 37 || name_char(v[t.end])
                    };
                    if t.integer && !suffixed {
                        let w: Option<FontWeightSpec> = if t.num == 100 {
                            Some(FontWeightSpec::W100)
                        } else if t.num == 200 {
                            Some(FontWeightSpec::W200)
                        } else if t.num == 300 {
                            Some(FontWeightSpec::W300)
                        } else if t.num == 400 {
                            Some(FontWeightSpec::W400)
                        } else if t.num == 500 {
                            Some(FontWeightSpec::W500)
                        } else if t.num == 600 {
                            Some(FontWeightSpec::W600)
                        } else if t.num == 700 {
                            Some(FontWeightSpec::W700)
                        } else if t.num == 800 {
                            Some(FontWeightSpec::W800)
                        } else if t.num == 900 {
                            Some(FontWeightSpec::W900)
                        } else {
                            None
                        };
                        match w {
                            Some(w) => {
                                let e2: usize = find_ws_end(&v, t.end);
                                if e2 == v.len() {
                                    Ok(w)
                                } else {
                                    Err(CssParseError::syntax_at(e2))
                                }
                            },
                            None => Err(CssParseError::semantic_at(iws)),
                        }
                    } else {
                        Err(CssParseError::syntax_at(iws))
                    }
                },
                None => Err(CssParseError::syntax_at(iws)),
            }
        }
    }
}

/// The space-joined identifiers that continue a font-family name after
/// its first identifier token, and the position where they stop: each
/// further identifier is preceded by one ASCII space in the joined
/// name, whatever whitespace separated the tokens.
pub open spec fn spec_family_tail(s: Seq<char>, i: int) -> (Seq<char>, int)
    decreases s.len() - i,
        via spec_family_tail_dec
{
    if 0 <= i <= s.len() {
        let j = ws_end(s, i);
        if starts_ident(s, j) {
            let e = name_end(s, j);
            let rest = spec_family_tail(s, e);
            (" "@ + s.subrange(j, e) + rest.0, rest.1)
        } else {
            (Seq::empty(), i)
        }
    } else {
        (Seq::empty(), i)
    }
}

#[via_fn]
proof fn spec_family_tail_dec(s: Seq<char>, i: int) {
    if 0 <= i <= s.len() {
        crate::scan::lemma_ws_end_props(s, i);
        let j = ws_end(s, i);
        if j < s.len() && is_name_start(s[j]) {
            crate::scan::lemma_name_end_props(s, j + 1);
        }
    }
}

/// What parsing a font-family from `s` yields, as the character
/// sequence of the family name: either a non-empty quoted string taken
/// verbatim (an empty one is a semantic error; a string still open at
/// the end of input ends there), or one or more identifier tokens
/// joined with single spaces; a leading numeric or other non-identifier
/// token is a syntax error.
pub open spec fn spec_parse_font_family(s: Seq<char>) -> Result<Seq<char>, CssParseError> {
    let iws = ws_end(s, 0);
    if iws < s.len() && (s[iws] as u32 == 34 || s[iws] as u32 == 39) {
        let close = string_close(s, iws + 1, s[iws] as u32);
        if close == iws + 1 {
            Err(CssParseError { kind: ValueErrorKind::Semantic, pos: iws as usize })
        } else if close == s.len() {
            Ok(s.subrange(iws + 1, s.len() as int))
        } else if ws_end(s, close + 1) == s.len() {
            Ok(s.subrange(iws + 1, close))
        } else {
            Err(CssParseError { kind: ValueErrorKind::Syntax, pos: ws_end(s, close + 1) as usize })
        }
    } else if starts_ident(s, iws) {
        let e1 = name_end(s, iws);
        let ft = spec_family_tail(s, e1);
        if ws_end(s, ft.1) == s.len() {
            Ok(s.subrange(iws, e1) + ft.0)
        } else {
            Err(CssParseError { kind: ValueErrorKind::Syntax, pos: ws_end(s, ft.1) as usize })
        }
    } else {
        Err(CssParseError { kind: ValueErrorKind::Syntax, pos: iws as usize })
    }
}

/// A single font-family name, resolved to the exact family string.
#[derive(Debug, Clone)]
pub struct SingleFontFamily(pub String);

impl PartialEq for SingleFontFamily {
    fn eq(&self, other: &SingleFontFamily) -> (r: bool) {
        self.0.eq(&other.0)
    }
}

impl Eq for SingleFontFamily {

}

impl vstd::std_specs::cmp::PartialEqSpecImpl for SingleFontFamily {
    open spec fn obeys_eq_spec() -> bool {
        true
    }

    open spec fn eq_spec(&self, other: &SingleFontFamily) -> bool {
        self.0@ == other.0@
    }
}

/// Appends the space-joined identifier tokens that follow position `i`
/// to `out` and returns the position where they stop.
fn family_tail(st: &str, v: &Vec<char>, i: usize, out: &mut String) -> (end: usize)
    requires
        v@ == st@,
        i <= v.len(),
    ensures
        final(out)@ == old(out)@ + spec_family_tail(v@, i as int).0,
        end as int == spec_family_tail(v@, i as int).1,
        i <= end <= v.len(),
    decreases v.len() - i,
{
    let j: usize = find_ws_end(v, i);
    if ident_starts_at(v, j) {
        let e: usize = find_name_end(v, j);
        proof {
            crate::scan::lemma_name_end_props(v@, j + 1 as int);
            assert(name_end(v@, j as int) == name_end(v@, j + 1 as int));
        }
        out.append(" ");
        out.append(st.substring_char(j, e));
        let end: usize = family_tail(st, v, e, out);
        proof {
            assert(out@ =~= old(out)@ + spec_family_tail(v@, i as int).0);
        }
        end
    } else {
        i
    }
}

impl SingleFontFamily {
    /// Parses a font-family property value into the family name.
    pub fn parse_str(s: &str) -> (r: Result<SingleFontFamily, CssParseError>)
        ensures
            match r {
                Ok(f) => spec_parse_font_family(s@) == Ok::<Seq<char>, CssParseError>(f.0@),
                Err(e) => spec_parse_font_family(s@) == Err::<Seq<char>, CssParseError>(e),
            },
    {
        let v: Vec<char> = chars_of(s);
        let iws: usize = find_ws_end(&v, 0);
        if iws < v.len() && {
            let u: u32 = v[iws] as u32;
            u == 34 || u == 39
        } {
            let q: u32 = v[iws] as u32;
            let close: usize = find_string_close(&v, iws + 1, q);
            if close == iws + 1 {
                Err(CssParseError::semantic_at(iws))
            } else if close == v.len() {
                Ok(SingleFontFamily(s.substring_char(iws + 1, close).to_owned()))
            } else {
                let e2: usize = find_ws_end(&v, close + 1);
                if e2 == v.len() {
                    Ok(SingleFontFamily(s.substring_char(iws + 1, close).to_owned()))
                } else {
                    Err(CssParseError::syntax_at(e2))
                }
            }
        } else if ident_starts_at(&v, iws) {
            let e1: usize = find_name_end(&v, iws);
            let mut out: String = s.substring_char(iws, e1).to_owned();
            let end: usize = family_tail(s, &v, e1, &mut out);
            let e2: usize = find_ws_end(&v, end);
            if e2 == v.len() {
                Ok(SingleFontFamily(out))
            } else {
                Err(CssParseError::syntax_at(e2))
            }
        } else {
            Err(CssParseError::syntax_at(iws))
        }
    }
}

} // verus!
