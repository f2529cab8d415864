//! Lengths: a rational magnitude tagged with a unit and an axis, and
//! normalization of a length into user-space pixels.

use vstd::prelude::*;
use crate::num::Frac;
use crate::scan::{
    name_end, number_den, number_end, number_num, number_ok, scan_number, token_eq_ignore_case,
    token_matches_kw, find_name_end,
};

verus! {

/// The unit of a length. `Px`, `Pt`, `In`, `Cm`, `Mm` and `Pc` are
/// absolute; `Em` and `Ex` are font-size-relative; `Percent` is
/// relative to a viewport dimension.
#[derive(Clone, Copy, Debug, PartialEq, Eq, Structural)]
pub enum LengthUnit {
    Px,
    Em,
    Ex,
    In,
    Cm,
    Mm,
    Pt,
    Pc,
    Percent,
}

/// Which viewport extent a relative unit of this length resolves
/// against: the width, the height, or the diagonal. Fixed when the
/// length is constructed and never changed afterwards.
#[derive(Clone, Copy, Debug, PartialEq, Eq, Structural)]
pub enum Axis {
    Horizontal,
    Vertical,
    Both,
}

/// A numeric magnitude tagged with a unit and an axis. Immutable once
/// constructed.
#[derive(Clone, Copy, Debug, PartialEq, Eq, Structural)]
pub struct Length {
    pub mag: Frac,
    pub unit: LengthUnit,
    pub axis: Axis,
}

pub open spec fn is_absolute_unit(u: LengthUnit) -> bool {
    u == LengthUnit::Px || u == LengthUnit::In || u == LengthUnit::Cm || u == LengthUnit::Mm
        || u == LengthUnit::Pt || u == LengthUnit::Pc
}

impl Length {
    pub open spec fn wf(self) -> bool {
        self.mag.wf()
    }

    pub fn new(num: i64, den: i64, unit: LengthUnit, axis: Axis) -> (r: Length)
        requires
            den >= 1,
        ensures
            r == (Length { mag: Frac { num, den }, unit, axis }),
            r.wf(),
    {
        Length { mag: Frac { num, den }, unit, axis }
    }
}

/// The length token starting at position `i` (no leading whitespace):
/// a signed decimal number followed immediately by `%`, by a known
/// unit identifier, or by no unit at all (which reads as device
/// pixels). `None` when no number starts at `i`, when its exact value
/// is not representable, or when the unit identifier is unknown.
/// A percentage's magnitude is the number divided by 100.
pub open spec fn spec_length_token(s: Seq<char>, i: int, axis: Axis) -> Option<(Length, int)> {
    if !number_ok(s, i) {
        None
    } else {
        let e = number_end(s, i);
        if e < s.len() && s[e] as u32 == 37 {
            Some(
                (
                    Length {
                        mag: Frac {
                            num: number_num(s, i) as i64,
                            den: (number_den(s, i) * 100) as i64,
                        },
                        unit: LengthUnit::Percent,
                        axis,
                    },
                    e + 1,
                ),
            )
        } else {
            let ue = name_end(s, e);
            if ue > e {
                match spec_unit_name(s, e, ue) {
                    Some(unit) => Some(
                        (
                            Length {
                                mag: Frac {
                                    num: number_num(s, i) as i64,
                                    den: number_den(s, i) as i64,
                                },
                                unit,
                                axis,
                            },
                            ue,
                        ),
                    ),
                    None => None,
                }
            } else {
                Some(
                    (
                        Length {
                            mag: Frac {
                                num: number_num(s, i) as i64,
                                den: number_den(s, i) as i64,
                            },
                            unit: LengthUnit::Px,
                            axis,
                        },
                        e,
                    ),
                )
            }
        }
    }
}

/// The unit denoted by the identifier `s[e..ue]`, matched
/// case-insensitively against the known unit names.
pub open spec fn spec_unit_name(s: Seq<char>, e: int, ue: int) -> Option<LengthUnit> {
    if token_matches_kw(s, e, ue, "px"@) {
        Some(LengthUnit::Px)
    } else if token_matches_kw(s, e, ue, "em"@) {
        Some(LengthUnit::Em)
    } else if token_matches_kw(s, e, ue, "ex"@) {
        Some(LengthUnit::Ex)
    } else if token_matches_kw(s, e, ue, "in"@) {
        Some(LengthUnit::In)
    } else if token_matches_kw(s, e, ue, "cm"@) {
        Some(LengthUnit::Cm)
    } else if token_matches_kw(s, e, ue, "mm"@) {
        Some(LengthUnit::Mm)
    } else if token_matches_kw(s, e, ue, "pt"@) {
        Some(LengthUnit::Pt)
    } else if token_matches_kw(s, e, ue, "pc"@) {
        Some(LengthUnit::Pc)
    } else {
        None
    }
}

fn unit_name(v: &Vec<char>, e: usize, ue: usize) -> (r: Option<LengthUnit>)
    requires
        e <= ue <= v.len(),
    ensures
        r == spec_unit_name(v@, e as int, ue as int),
{
    if token_eq_ignore_case(v, e, ue, "px") {
        Some(LengthUnit::Px)
    } else if token_eq_ignore_case(v, e, ue, "em") {
        Some(LengthUnit::Em)
    } else if token_eq_ignore_case(v, e, ue, "ex") {
        Some(LengthUnit::Ex)
    } else if token_eq_ignore_case(v, e, ue, "in") {
        Some(LengthUnit::In)
    } else if token_eq_ignore_case(v, e, ue, "cm") {
        Some(LengthUnit::Cm)
    } else if token_eq_ignore_case(v, e, ue, "mm") {
        Some(LengthUnit::Mm)
    } else if token_eq_ignore_case(v, e, ue, "pt") {
        Some(LengthUnit::Pt)
    } else if token_eq_ignore_case(v, e, ue, "pc") {
        Some(LengthUnit::Pc)
    } else {
        None
    }
}

/// Scans the length token starting at `i`.
pub fn scan_length(v: &Vec<char>, i: usize, axis: Axis) -> (r: Option<(Length, usize)>)
    requires
        i <= v.len(),
    ensures
        match r {
            Some((l, j)) => {
                &&& spec_length_token(v@, i as int, axis) == Some((l, j as int))
                &&& l.wf()
                &&& i <= j <= v.len()
            },
            None => spec_length_token(v@, i as int, axis) is None,
        },
{
    let t = match scan_number(v, i) {
        Some(t) => t,
        None => { return None; },
    };
    if t.end < v.len() && {
        let u: u32 = v[t.end] as u32;
        u == 37
    } {
        Some(
            (
                Length {
                    mag: Frac { num: t.num, den: t.den * 100 },
                    unit: LengthUnit::Percent,
                    axis,
                },
                t.end + 1,
            ),
        )
    } else {
        let ue: usize = find_name_end(v, t.end);
        if ue > t.end {
            match unit_name(v, t.end, ue) {
                Some(unit) => Some((Length { mag: Frac { num: t.num, den: t.den }, unit, axis }, ue)),
                None => None,
            }
        } else {
            Some((Length { mag: Frac { num: t.num, den: t.den }, unit: LengthUnit::Px, axis }, t.end))
        }
    }
}

/// Viewport parameters supplied per render and used only during
/// normalization: width, height and diagonal extent of the viewport in
/// user-space pixels, and the dots-per-inch ratio that converts
/// physical units.
#[derive(Clone, Copy, Debug, PartialEq, Eq, Structural)]
pub struct ViewParams {
    pub width: Frac,
    pub height: Frac,
    pub diagonal: Frac,
    pub dpi: Frac,
}

impl ViewParams {
    pub open spec fn wf(self) -> bool {
        self.width.wf() && self.height.wf() && self.diagonal.wf() && self.dpi.wf()
    }
}

/// The per-node snapshot of cascade-resolved style this core reads:
/// the resolved font-size. The cascade stores it fully resolved, so its
/// unit is absolute and font-relative units of other properties can be
/// normalized against it without recursion.
#[derive(Clone, Copy, Debug, PartialEq, Eq, Structural)]
pub struct ComputedValues {
    pub font_size: Length,
}

impl ComputedValues {
    pub open spec fn wf(self) -> bool {
        self.font_size.wf() && self.font_size.axis == Axis::Both && is_absolute_unit(
            self.font_size.unit,
        )
    }
}

/// The fixed ratio of user-space pixels per one of the absolute unit
/// `u`, over a dots-per-inch ratio `dpi`: an inch is `dpi` pixels, a
/// point is `1/72` inch, a pica is `1/6` inch, and a centimeter is
/// `100/254` inch.
pub open spec fn spec_pixels_per_absolute_unit(u: LengthUnit, dpi: Frac) -> Option<Frac> {
    match u {
        LengthUnit::Px => Some(Frac { num: 1, den: 1 }),
        LengthUnit::In => Some(dpi),
        LengthUnit::Cm => dpi.spec_mul(Frac { num: 100, den: 254 }),
        LengthUnit::Mm => dpi.spec_mul(Frac { num: 10, den: 254 }),
        LengthUnit::Pt => dpi.spec_mul(Frac { num: 1, den: 72 }),
        LengthUnit::Pc => dpi.spec_mul(Frac { num: 1, den: 6 }),
        _ => None,
    }
}

/// The normalized magnitude, in user-space pixels, of an absolute
/// length of magnitude `mag` and unit `u`; `None` when the exact result
/// does not fit the machine representation (or `u` is not absolute).
pub open spec fn spec_absolute_pixels(mag: Frac, u: LengthUnit, dpi: Frac) -> Option<Frac> {
    match spec_pixels_per_absolute_unit(u, dpi) {
        Some(ratio) => mag.spec_mul(ratio),
        None => None,
    }
}

/// The normalized magnitude of `l` in user-space pixels: absolute
/// units convert by the fixed physical ratios, `Em` multiplies by the
/// computed font-size's own normalized magnitude, `Ex` by half of it,
/// and `Percent` by the viewport dimension selected by the length's
/// axis. `None` exactly when the exact result overflows the machine
/// representation.
pub open spec fn spec_normalize(l: Length, values: ComputedValues, params: ViewParams) -> Option<
    Frac,
> {
    match l.unit {
        LengthUnit::Em => match spec_font_size_pixels(values, params) {
            Some(fs) => l.mag.spec_mul(fs),
            None => None,
        },
        LengthUnit::Ex => match spec_font_size_pixels(values, params) {
            Some(fs) => match l.mag.spec_mul(fs) {
                Some(m) => m.spec_mul(Frac { num: 1, den: 2 }),
                None => None,
            },
            None => None,
        },
        LengthUnit::Percent => l.mag.spec_mul(spec_viewport_extent(l.axis, params)),
        _ => spec_absolute_pixels(l.mag, l.unit, params.dpi),
    }
}

/// The normalized magnitude of the computed font-size itself; its unit
/// is absolute by the `ComputedValues` invariant.
pub open spec fn spec_font_size_pixels(values: ComputedValues, params: ViewParams) -> Option<
    Frac,
> {
    spec_absolute_pixels(values.font_size.mag, values.font_size.unit, params.dpi)
}

/// The viewport extent selected by an axis: width for `Horizontal`,
/// height for `Vertical`, diagonal for `Both`.
pub open spec fn spec_viewport_extent(axis: Axis, params: ViewParams) -> Frac {
    match axis {
        Axis::Horizontal => params.width,
        Axis::Vertical => params.height,
        Axis::Both => params.diagonal,
    }
}

fn pixels_per_absolute_unit(u: LengthUnit, dpi: Frac) -> (r: Option<Frac>)
    requires
        dpi.wf(),
    ensures
        r == spec_pixels_per_absolute_unit(u, dpi),
        r is Some ==> r->Some_0.wf(),
{
    match u {
        LengthUnit::Px => Some(Frac::new(1, 1)),
        LengthUnit::In => Some(dpi),
        LengthUnit::Cm => dpi.checked_mul(Frac::new(100, 254)),
        LengthUnit::Mm => dpi.checked_mul(Frac::new(10, 254)),
        LengthUnit::Pt => dpi.checked_mul(Frac::new(1, 72)),
        LengthUnit::Pc => dpi.checked_mul(Frac::new(1, 6)),
        _ => None,
    }
}

fn absolute_pixels(mag: Frac, u: LengthUnit, dpi: Frac) -> (r: Option<Frac>)
    requires
        mag.wf(),
        dpi.wf(),
    ensures
        r == spec_absolute_pixels(mag, u, dpi),
        r is Some ==> r->Some_0.wf(),
{
    match pixels_per_absolute_unit(u, dpi) {
        Some(ratio) => mag.checked_mul(ratio),
        None => None,
    }
}

/// Normalizes `l` into user-space pixels given the computed style and
/// the viewport; `None` exactly when the exact rational result does not
/// fit the machine representation.
pub fn normalize(l: &Length, values: &ComputedValues, params: &ViewParams) -> (r: Option<Frac>)
    requires
        l.wf(),
        values.wf(),
        params.wf(),
    ensures
        r == spec_normalize(*l, *values, *params),
        r is Some ==> r->Some_0.wf(),
{
    match l.unit {
        LengthUnit::Em => {
            match absolute_pixels(values.font_size.mag, values.font_size.unit, params.dpi) {
                Some(fs) => l.mag.checked_mul(fs),
                None => None,
            }
        },
        LengthUnit::Ex => {
            match absolute_pixels(values.font_size.mag, values.font_size.unit, params.dpi) {
                Some(fs) => match l.mag.checked_mul(fs) {
                    Some(m) => m.checked_mul(Frac::new(1, 2)),
                    None => None,
                },
                None => None,
            }
        },
        LengthUnit::Percent => {
            let extent = match l.axis {
                Axis::Horizontal => params.width,
                Axis::Vertical => params.height,
                Axis::Both => params.diagonal,
            };
            l.mag.checked_mul(extent)
        },
        _ => absolute_pixels(l.mag, l.unit, params.dpi),
    }
}

} // verus!
