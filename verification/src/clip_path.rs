//! The clip-path node: its coordinate-system units attribute, and the
//! application of its painted clip geometry to a drawing surface.

use vstd::prelude::*;
use crate::error::{CssParseError, RenderingError, ValueErrorKind};
use crate::scan::{
    chars_of, find_name_end, find_ws_end, is_name_start, name_end, name_start_char,
    token_eq_exact, token_matches_exact, ws_end,
};
use crate::surface::{BoundingBox, ClipEntry, DrawingSurface, Matrix, Path};

verus! {

/// The coordinate system of clip geometry: absolute user space, or the
/// unit square mapped onto the clipped element's bounding box.
#[derive(Clone, Copy, Debug, PartialEq, Eq, Structural)]
pub enum CoordUnits {
    UserSpaceOnUse,
    ObjectBoundingBox,
}

/// The `clipPathUnits` attribute value; defaults to `UserSpaceOnUse`.
#[derive(Clone, Copy, Debug, PartialEq, Eq, Structural)]
pub struct ClipPathUnits(pub CoordUnits);

impl Default for ClipPathUnits {
    fn default() -> (r: ClipPathUnits)
        ensures
            r == ClipPathUnits(CoordUnits::UserSpaceOnUse),
    {
        ClipPathUnits(CoordUnits::UserSpaceOnUse)
    }
}

/// What parsing a `clipPathUnits` attribute yields: exactly the
/// identifier `userSpaceOnUse` or `objectBoundingBox` (case matters),
/// surrounded by nothing but whitespace.
pub open spec fn spec_parse_coord_units(s: Seq<char>) -> Result<ClipPathUnits, CssParseError> {
    let iws = ws_end(s, 0);
    if iws < s.len() && is_name_start(s[iws]) {
        let ke = name_end(s, iws);
        if ws_end(s, ke) != s.len() {
            Err(CssParseError { kind: ValueErrorKind::Syntax, pos: ws_end(s, ke) as usize })
        } else if token_matches_exact(s, iws, ke, "userSpaceOnUse"@) {
            Ok(ClipPathUnits(CoordUnits::UserSpaceOnUse))
        } else if token_matches_exact(s, iws, ke, "objectBoundingBox"@) {
            Ok(ClipPathUnits(CoordUnits::ObjectBoundingBox))
        } else {
            Err(CssParseError { kind: ValueErrorKind::Syntax, pos: iws as usize })
        }
    } else {
        Err(CssParseError { kind: ValueErrorKind::Syntax, pos: iws as usize })
    }
}

impl ClipPathUnits {
    /// Parses a `clipPathUnits` attribute value.
    pub fn parse_str(s: &str) -> (r: Result<ClipPathUnits, CssParseError>)
        ensures
            r == spec_parse_coord_units(s@),
    {
        let v: Vec<char> = chars_of(s);
        let iws: usize = find_ws_end(&v, 0);
        if iws < v.len() && name_start_char(v[iws]) {
            let ke: usize = find_name_end(&v, iws);
            let e2: usize = find_ws_end(&v, ke);
            if e2 != v.len() {
                Err(CssParseError::syntax_at(e2))
            } else if token_eq_exact(&v, iws, ke, "userSpaceOnUse") {
                Ok(ClipPathUnits(CoordUnits::UserSpaceOnUse))
            } else if token_eq_exact(&v, iws, ke, "objectBoundingBox") {
                Ok(ClipPathUnits(CoordUnits::ObjectBoundingBox))
            } else {
                Err(CssParseError::syntax_at(iws))
            }
        } else {
            Err(CssParseError::syntax_at(iws))
        }
    }
}

/// The read-only attribute name/value pairs handed to a node at
/// tree-build time.
pub struct PropertyBag {
    pub atts: Vec<(String, String)>,
}

/// Folding the attribute list over the units value: each
/// `clipPathUnits` attribute replaces the units with its parsed value,
/// other attributes are ignored, and the first failing parse aborts
/// the whole set with its error.
pub open spec fn spec_set_atts(atts: Seq<(String, String)>, units: ClipPathUnits) -> Result<
    ClipPathUnits,
    CssParseError,
>
    decreases atts.len(),
{
    if atts.len() == 0 {
        Ok(units)
    } else if atts[0].0@ == "clipPathUnits"@ {
        match spec_parse_coord_units(atts[0].1@) {
            Ok(u) => spec_set_atts(atts.drop_first(), u),
            Err(e) => Err(e),
        }
    } else {
        spec_set_atts(atts.drop_first(), units)
    }
}

/// The units value after attribute processing stops: the attributes
/// are applied one by one as in [`spec_set_atts`], and on the first
/// failing `clipPathUnits` value the updates made so far are kept.
pub open spec fn spec_units_after_atts(
    atts: Seq<(String, String)>,
    units: ClipPathUnits,
) -> ClipPathUnits
    decreases atts.len(),
{
    if atts.len() == 0 {
        units
    } else if atts[0].0@ == "clipPathUnits"@ {
        match spec_parse_coord_units(atts[0].1@) {
            Ok(u) => spec_units_after_atts(atts.drop_first(), u),
            Err(_) => units,
        }
    } else {
        spec_units_after_atts(atts.drop_first(), units)
    }
}

/// A clip-path node of the document tree: it owns the coordinate-units
/// mode under which its child subtree's shapes are painted.
pub struct NodeClipPath {
    units: ClipPathUnits,
}

impl NodeClipPath {
    pub fn new() -> (r: NodeClipPath)
        ensures
            r.units() == ClipPathUnits(CoordUnits::UserSpaceOnUse),
    {
        NodeClipPath { units: ClipPathUnits::default() }
    }

    /// The current coordinate-units mode, as a spec-level view.
    pub closed spec fn units(&self) -> ClipPathUnits {
        self.units
    }

    pub fn get_units(&self) -> (r: ClipPathUnits)
        ensures
            r == self.units(),
    {
        self.units
    }

    /// Processes a node's attributes: parses each `clipPathUnits`
    /// value in order, applying each successful parse as it goes, and
    /// aborts on the first failure with its error; the values applied
    /// before the failing attribute persist.
    pub fn set_atts(&mut self, pbag: &PropertyBag) -> (r: Result<(), CssParseError>)
        ensures
            final (self).units() == spec_units_after_atts(pbag.atts@, old(self).units()),
            match r {
                Ok(()) => spec_set_atts(pbag.atts@, old(self).units()) == Ok::<
                    ClipPathUnits,
                    CssParseError,
                >(final (self).units()),
                Err(e) => spec_set_atts(pbag.atts@, old(self).units()) == Err::<
                    ClipPathUnits,
                    CssParseError,
                >(e),
            },
    {
        let mut k: usize = 0;
        let n: usize = pbag.atts.len();
        proof {
            assert(pbag.atts@.skip(0) =~= pbag.atts@);
        }
        while k < n
            invariant
                k <= n,
                n == pbag.atts@.len(),
                spec_set_atts(pbag.atts@, old(self).units()) == spec_set_atts(
                    pbag.atts@.skip(k as int),
                    self.units(),
                ),
                spec_units_after_atts(pbag.atts@, old(self).units()) == spec_units_after_atts(
                    pbag.atts@.skip(k as int),
                    self.units(),
                ),
            decreases n - k,
        {
            let ghost pre: Seq<(String, String)> = pbag.atts@.skip(k as int);
            proof {
                assert(pre.len() > 0);
                assert(pre[0] == pbag.atts@[k as int]);
                assert(pre.drop_first() =~= pbag.atts@.skip(k + 1 as int));
            }
            let pair: &(String, String) = &pbag.atts[k];
            let key: String = "clipPathUnits".to_owned();
            if pair.0.eq(&key) {
                match ClipPathUnits::parse_str(pair.1.as_str()) {
                    Ok(u) => {
                        self.units = u;
                    },
                    Err(e) => {
                        return Err(e);
                    },
                }
            }
            k = k + 1;
        }
        proof {
            assert(pbag.atts@.skip(n as int) =~= Seq::<(String, String)>::empty());
        }
        Ok(())
    }

    /// The machine-representation bound on clip application: when the
    /// clip is evaluated relative to an existing bounding box, the
    /// pre-clip transform composed with the unit-square-to-rectangle
    /// map must fit the fraction fields exactly.
    pub open spec fn spec_clip_fits(&self, affine: Matrix, bbox: BoundingBox) -> bool {
        (self.units() == ClipPathUnits(CoordUnits::ObjectBoundingBox) && bbox.rect is Some)
            ==> affine.spec_compose_unit_rect(bbox.rect->Some_0) is Some
    }

    /// Applies this clip path to the drawing surface.
    ///
    /// The surface's transform is saved and the caller-supplied
    /// pre-clip transform installed, discarding whatever transform the
    /// clip definition's own ancestors would contribute. In
    /// `ObjectBoundingBox` mode with no bounding box, a fully excluding
    /// clip is installed and the call succeeds without drawing; with a
    /// bounding box, the unit-square-to-rectangle map is composed onto
    /// the installed transform. The child subtree is painted by the
    /// external painter in clip mode; its outcome is handed in as
    /// `children`. On success the painted path is intersected with the
    /// active clip region (installed, never replacing what was there);
    /// on failure no clip is installed and the failure is propagated.
    /// On every exit path the saved transform is restored.
    pub fn resolve_and_apply_clip(
        &self,
        affine_before_clip: &Matrix,
        surface: &mut DrawingSurface,
        bbox: &BoundingBox,
        children: Result<Path, RenderingError>,
    ) -> (r: Result<(), RenderingError>)
        requires
            affine_before_clip.wf(),
            old(surface).wf(),
            bbox.wf(),
            children is Ok ==> children->Ok_0.wf(),
            self.spec_clip_fits(*affine_before_clip, *bbox),
        ensures
            final (surface).transform == old(surface).transform,
            final (surface).wf(),
            if self.units() == ClipPathUnits(CoordUnits::ObjectBoundingBox) && bbox.rect is None {
                &&& r is Ok
                &&& final (surface).clip@.len() == old(surface).clip@.len() + 1
                &&& final (surface).clip@.subrange(0, old(surface).clip@.len() as int) == old(
                    surface,
                ).clip@
                &&& final (surface).clip@[old(surface).clip@.len() as int].path.rects@.len() == 0
                &&& final (surface).clip@[old(surface).clip@.len() as int].matrix
                    == *affine_before_clip
            } else {
                match children {
                    Ok(p) => r is Ok && final (surface).clip@ == old(surface).clip@.push(
                        (ClipEntry {
                            matrix: if self.units() == ClipPathUnits(
                                CoordUnits::ObjectBoundingBox,
                            ) {
                                affine_before_clip.spec_compose_unit_rect(
                                    bbox.rect->Some_0,
                                )->Some_0
                            } else {
                                *affine_before_clip
                            },
                            path: p,
                        }),
                    ),
                    Err(e) => r == Err::<(), RenderingError>(e) && final (surface).clip@ == old(
                        surface,
                    ).clip@,
                }
            },
    {
        let saved: Matrix = surface.transform;
        surface.transform = *affine_before_clip;
        if self.units == ClipPathUnits(CoordUnits::ObjectBoundingBox) {
            match &bbox.rect {
                None => {
                    // The clipped element has no extent, so the clip
                    // degenerates to excluding everything: success, no
                    // drawing.
                    let entry = ClipEntry { matrix: *affine_before_clip, path: Path::empty() };
                    surface.clip.push(entry);
                    surface.transform = saved;
                    proof {
                        assert forall|i: int| 0 <= i < surface.clip@.len() implies (
                        #[trigger] surface.clip@[i]).wf() by {
                            if i < old(surface).clip@.len() {
                                assert(surface.clip@[i] == old(surface).clip@[i]);
                            }
                        }
                        assert(surface.clip@.subrange(0, old(surface).clip@.len() as int) =~= old(
                            surface,
                        ).clip@);
                    }
                    return Ok(());
                },
                Some(rect) => {
                    match affine_before_clip.compose_unit_rect(rect) {
                        Some(m) => {
                            surface.transform = m;
                        },
                        None => {
                            proof {
                                assert(false);
                            }
                        },
                    }
                },
            }
        }
        match children {
            Ok(p) => {
                let entry = ClipEntry { matrix: surface.transform, path: p };
                surface.clip.push(entry);
                surface.transform = saved;
                proof {
                    assert forall|i: int| 0 <= i < surface.clip@.len() implies (
                    #[trigger] surface.clip@[i]).wf() by {
                        if i < old(surface).clip@.len() {
                            assert(surface.clip@[i] == old(surface).clip@[i]);
                        }
                    }
                }
                Ok(())
            },
            Err(e) => {
                surface.transform = saved;
                Err(e)
            },
        }
    }
}

} // verus!
