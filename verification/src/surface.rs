//! The drawing surface model the clip engine works against: an affine
//! transform, and a clip region kept as the set of clip paths installed
//! so far, whose visible region is their intersection.

use vstd::prelude::*;
use crate::num::Frac;

verus! {

/// An affine transform of the plane: the point `(u, v)` maps to
/// `(xx*u + xy*v + x0, yx*u + yy*v + y0)`.
#[derive(Clone, Copy, Debug, PartialEq, Eq, Structural)]
pub struct Matrix {
    pub xx: Frac,
    pub yx: Frac,
    pub xy: Frac,
    pub yy: Frac,
    pub x0: Frac,
    pub y0: Frac,
}

impl Matrix {
    pub open spec fn wf(self) -> bool {
        self.xx.wf() && self.yx.wf() && self.xy.wf() && self.yy.wf() && self.x0.wf()
            && self.y0.wf()
    }

    pub fn identity() -> (r: Matrix)
        ensures
            r == (Matrix {
                xx: Frac { num: 1, den: 1 },
                yx: Frac { num: 0, den: 1 },
                xy: Frac { num: 0, den: 1 },
                yy: Frac { num: 1, den: 1 },
                x0: Frac { num: 0, den: 1 },
                y0: Frac { num: 0, den: 1 },
            }),
            r.wf(),
    {
        Matrix {
            xx: Frac::new(1, 1),
            yx: Frac::new(0, 1),
            xy: Frac::new(0, 1),
            yy: Frac::new(1, 1),
            x0: Frac::new(0, 1),
            y0: Frac::new(0, 1),
        }
    }

    /// The composition of `self` with the map sending the unit square
    /// onto `r` (scale by the rectangle's extent, then translate to its
    /// corner): clip geometry drawn in the unit square is thereby
    /// expressed in `r`'s space before `self` applies. `None` exactly
    /// when a field of the exact result would overflow.
    pub open spec fn spec_compose_unit_rect(self, r: Rect) -> Option<Matrix> {
        let xx = self.xx.spec_mul(r.width);
        let yx = self.yx.spec_mul(r.width);
        let xy = self.xy.spec_mul(r.height);
        let yy = self.yy.spec_mul(r.height);
        let x0 = spec_dot(self.xx, r.x, self.xy, r.y, self.x0);
        let y0 = spec_dot(self.yx, r.x, self.yy, r.y, self.y0);
        if xx is Some && yx is Some && xy is Some && yy is Some && x0 is Some && y0 is Some {
            Some(
                (Matrix {
                    xx: xx->Some_0,
                    yx: yx->Some_0,
                    xy: xy->Some_0,
                    yy: yy->Some_0,
                    x0: x0->Some_0,
                    y0: y0->Some_0,
                }),
            )
        } else {
            None
        }
    }

    /// Executable composition with the unit-square-to-rectangle map.
    pub fn compose_unit_rect(&self, r: &Rect) -> (res: Option<Matrix>)
        requires
            self.wf(),
            r.wf(),
        ensures
            res == self.spec_compose_unit_rect(*r),
            res is Some ==> res->Some_0.wf(),
    {
        let xx = self.xx.checked_mul(r.width);
        let yx = self.yx.checked_mul(r.width);
        let xy = self.xy.checked_mul(r.height);
        let yy = self.yy.checked_mul(r.height);
        let x0 = dot(self.xx, r.x, self.xy, r.y, self.x0);
        let y0 = dot(self.yx, r.x, self.yy, r.y, self.y0);
        match (xx, yx, xy, yy, x0, y0) {
            (Some(xx), Some(yx), Some(xy), Some(yy), Some(x0), Some(y0)) => Some(
                Matrix { xx, yx, xy, yy, x0, y0 },
            ),
            _ => None,
        }
    }
}

/// The exact value of `a*b + c*d + e`, when every step fits.
pub open spec fn spec_dot(a: Frac, b: Frac, c: Frac, d: Frac, e: Frac) -> Option<Frac> {
    match (a.spec_mul(b), c.spec_mul(d)) {
        (Some(ab), Some(cd)) => match ab.spec_add(cd) {
            Some(s) => s.spec_add(e),
            None => None,
        },
        _ => None,
    }
}

fn dot(a: Frac, b: Frac, c: Frac, d: Frac, e: Frac) -> (r: Option<Frac>)
    requires
        a.wf(),
        b.wf(),
        c.wf(),
        d.wf(),
        e.wf(),
    ensures
        r == spec_dot(a, b, c, d, e),
        r is Some ==> r->Some_0.wf(),
{
    match (a.checked_mul(b), c.checked_mul(d)) {
        (Some(ab), Some(cd)) => match ab.checked_add(cd) {
            Some(s) => s.checked_add(e),
            None => None,
        },
        _ => None,
    }
}

/// An axis-aligned rectangle in user-space units.
#[derive(Clone, Copy, Debug, PartialEq, Eq, Structural)]
pub struct Rect {
    pub x: Frac,
    pub y: Frac,
    pub width: Frac,
    pub height: Frac,
}

impl Rect {
    pub open spec fn wf(self) -> bool {
        self.x.wf() && self.y.wf() && self.width.wf() && self.height.wf()
    }
}

/// The bounding box of the element being clipped; `None` means the
/// element has no extent.
#[derive(Clone, Copy, Debug, PartialEq, Eq, Structural)]
pub struct BoundingBox {
    pub rect: Option<Rect>,
}

impl BoundingBox {
    pub open spec fn wf(self) -> bool {
        match self.rect {
            Some(r) => r.wf(),
            None => true,
        }
    }
}

/// Path geometry accumulated by painting clip shapes, recorded as the
/// union of axis-aligned rectangles in the painting coordinates.
#[derive(Clone, Debug, PartialEq)]
pub struct Path {
    pub rects: Vec<Rect>,
}

impl Path {
    pub open spec fn wf(self) -> bool {
        forall|i: int| 0 <= i < self.rects@.len() ==> (#[trigger] self.rects@[i]).wf()
    }

    pub fn empty() -> (r: Path)
        ensures
            r.rects@.len() == 0,
            r.wf(),
    {
        Path { rects: Vec::new() }
    }
}

/// One installed clip: path geometry together with the transform that
/// was active when it was painted, so the clip region it contributes is
/// the image of the path under the transform.
#[derive(Clone, Debug, PartialEq)]
pub struct ClipEntry {
    pub matrix: Matrix,
    pub path: Path,
}

impl ClipEntry {
    pub open spec fn wf(self) -> bool {
        self.matrix.wf() && self.path.wf()
    }
}

/// `a/b <= c/d` for positive denominators, by cross-multiplication.
pub open spec fn rat_le(a: int, b: int, c: int, d: int) -> bool {
    a * d <= c * b
}

/// The rational point `(un/ud, vn/vd)` lies in the rectangle.
pub open spec fn rect_contains(r: Rect, un: int, ud: int, vn: int, vd: int) -> bool {
    &&& rat_le(r.x.num as int, r.x.den as int, un, ud)
    &&& rat_le(
        un,
        ud,
        r.x.num * r.width.den + r.width.num * r.x.den,
        r.x.den * r.width.den,
    )
    &&& rat_le(r.y.num as int, r.y.den as int, vn, vd)
    &&& rat_le(
        vn,
        vd,
        r.y.num * r.height.den + r.height.num * r.y.den,
        r.y.den * r.height.den,
    )
}

/// The affine image of the rational point `(un/ud, vn/vd)` under `m`
/// equals the rational point `(pxn/pxd, pyn/pyd)`, written out by
/// cross-multiplication over a common denominator.
pub open spec fn maps_to(
    m: Matrix,
    un: int,
    ud: int,
    vn: int,
    vd: int,
    pxn: int,
    pxd: int,
    pyn: int,
    pyd: int,
) -> bool {
    &&& (m.xx.num * un * (m.xy.den * vd * m.x0.den) + m.xy.num * vn * (m.xx.den * ud * m.x0.den)
        + m.x0.num * (m.xx.den * ud * m.xy.den * vd)) * pxd == pxn * (m.xx.den * ud * m.xy.den * vd
        * m.x0.den)
    &&& (m.yx.num * un * (m.yy.den * vd * m.y0.den) + m.yy.num * vn * (m.yx.den * ud * m.y0.den)
        + m.y0.num * (m.yx.den * ud * m.yy.den * vd)) * pyd == pyn * (m.yx.den * ud * m.yy.den * vd
        * m.y0.den)
}

/// The rational point `(pxn/pxd, pyn/pyd)` is visible through one
/// installed clip: some rectangle of its path, carried through its
/// transform, reaches the point.
pub open spec fn entry_covers(e: ClipEntry, pxn: int, pxd: int, pyn: int, pyd: int) -> bool {
    exists|i: int, un: int, ud: int, vn: int, vd: int|
        {
            &&& 0 <= i < e.path.rects@.len()
            &&& ud >= 1
            &&& vd >= 1
            &&& #[trigger] rect_contains(e.path.rects@[i], un, ud, vn, vd)
            &&& maps_to(e.matrix, un, ud, vn, vd, pxn, pxd, pyn, pyd)
        }
}

/// The rational point is visible through the whole clip region: every
/// installed clip covers it, so the region is the intersection of the
/// installed clips.
pub open spec fn region_visible(clip: Seq<ClipEntry>, pxn: int, pxd: int, pyn: int, pyd: int) -> bool {
    forall|k: int| 0 <= k < clip.len() ==> entry_covers(#[trigger] clip[k], pxn, pxd, pyn, pyd)
}

/// The drawing surface's shared mutable state: the active transform and
/// the active clip region.
#[derive(Clone, Debug, PartialEq)]
pub struct DrawingSurface {
    pub transform: Matrix,
    pub clip: Vec<ClipEntry>,
}

impl DrawingSurface {
    pub open spec fn wf(self) -> bool {
        self.transform.wf() && forall|i: int|
            0 <= i < self.clip@.len() ==> (#[trigger] self.clip@[i]).wf()
    }

    /// A fresh surface: identity transform and no clip installed, so
    /// every point is visible.
    pub fn new() -> (r: DrawingSurface)
        ensures
            r.transform == (Matrix {
                xx: Frac { num: 1, den: 1 },
                yx: Frac { num: 0, den: 1 },
                xy: Frac { num: 0, den: 1 },
                yy: Frac { num: 1, den: 1 },
                x0: Frac { num: 0, den: 1 },
                y0: Frac { num: 0, den: 1 },
            }),
            r.clip@.len() == 0,
            r.wf(),
    {
        DrawingSurface { transform: Matrix::identity(), clip: Vec::new() }
    }
}

/// An installed clip with no path geometry covers no point at all.
pub proof fn lemma_empty_clip_entry_excludes(
    e: ClipEntry,
    pxn: int,
    pxd: int,
    pyn: int,
    pyd: int,
)
    requires
        e.path.rects@.len() == 0,
    ensures
        !entry_covers(e, pxn, pxd, pyn, pyd),
{
    if entry_covers(e, pxn, pxd, pyn, pyd) {
        let (i, un, ud, vn, vd): (int, int, int, int, int) = choose|
            i: int,
            un: int,
            ud: int,
            vn: int,
            vd: int,
        |
            {
                &&& 0 <= i < e.path.rects@.len()
                &&& ud >= 1
                &&& vd >= 1
                &&& #[trigger] rect_contains(e.path.rects@[i], un, ud, vn, vd)
                &&& maps_to(e.matrix, un, ud, vn, vd, pxn, pxd, pyn, pyd)
            };
        assert(0 <= i < 0);
    }
}

/// A clip region holding one clip with no path geometry excludes
/// every point: nothing is visible through the surface afterwards.
pub proof fn lemma_fully_excluding_clip(
    clip: Seq<ClipEntry>,
    k: int,
    pxn: int,
    pxd: int,
    pyn: int,
    pyd: int,
)
    requires
        0 <= k < clip.len(),
        clip[k].path.rects@.len() == 0,
    ensures
        !region_visible(clip, pxn, pxd, pyn, pyd),
{
    lemma_empty_clip_entry_excludes(clip[k], pxn, pxd, pyn, pyd);
}

/// Nested clip paths compose as intersection: after installing one
/// more clip, a point is visible exactly when it was visible before
/// and the new clip's geometry covers it — never their union.
pub proof fn lemma_nested_clips_intersect(
    clip: Seq<ClipEntry>,
    e: ClipEntry,
    pxn: int,
    pxd: int,
    pyn: int,
    pyd: int,
)
    ensures
        region_visible(clip.push(e), pxn, pxd, pyn, pyd) <==> (region_visible(
            clip,
            pxn,
            pxd,
            pyn,
            pyd,
        ) && entry_covers(e, pxn, pxd, pyn, pyd)),
{
    assert(clip.push(e)[clip.len() as int] == e);
    if region_visible(clip.push(e), pxn, pxd, pyn, pyd) {
        assert forall|k: int| 0 <= k < clip.len() implies entry_covers(
            #[trigger] clip[k],
            pxn,
            pxd,
            pyn,
            pyd,
        ) by {
            assert(clip.push(e)[k] == clip[k]);
        }
    }
    if region_visible(clip, pxn, pxd, pyn, pyd) && entry_covers(e, pxn, pxd, pyn, pyd) {
        assert forall|k: int| 0 <= k < clip.push(e).len() implies entry_covers(
            #[trigger] clip.push(e)[k],
            pxn,
            pxd,
            pyn,
            pyd,
        ) by {
            if k < clip.len() {
                assert(clip.push(e)[k] == clip[k]);
            }
        }
    }
}

} // verus!
