use rsvg_internals::clip_path::{ClipPathUnits, CoordUnits, NodeClipPath, PropertyBag};
use rsvg_internals::error::RenderingError;
use rsvg_internals::num::Frac;
use rsvg_internals::surface::{BoundingBox, DrawingSurface, Matrix, Path, Rect};

fn frac(num: i64, den: i64) -> Frac {
    Frac::new(num, den)
}

fn translation(x: i64, y: i64) -> Matrix {
    Matrix {
        xx: frac(1, 1),
        yx: frac(0, 1),
        xy: frac(0, 1),
        yy: frac(1, 1),
        x0: frac(x, 1),
        y0: frac(y, 1),
    }
}

fn unit_rect_path() -> Path {
    Path {
        rects: vec![Rect {
            x: frac(0, 1),
            y: frac(0, 1),
            width: frac(1, 1),
            height: frac(1, 1),
        }],
    }
}

#[test]
fn units_default_and_parse() {
    let node = NodeClipPath::new();
    assert_eq!(node.get_units(), ClipPathUnits(CoordUnits::UserSpaceOnUse));
    assert_eq!(
        ClipPathUnits::parse_str("userSpaceOnUse"),
        Ok(ClipPathUnits(CoordUnits::UserSpaceOnUse))
    );
    assert_eq!(
        ClipPathUnits::parse_str(" objectBoundingBox "),
        Ok(ClipPathUnits(CoordUnits::ObjectBoundingBox))
    );
    // The attribute value is case-sensitive.
    assert!(ClipPathUnits::parse_str("objectboundingbox").is_err());
    assert!(ClipPathUnits::parse_str("bogus").is_err());
}

#[test]
fn set_atts_takes_last_units_value() {
    let mut node = NodeClipPath::new();
    let bag = PropertyBag {
        atts: vec![
            ("id".to_owned(), "clip0".to_owned()),
            ("clipPathUnits".to_owned(), "objectBoundingBox".to_owned()),
        ],
    };
    assert_eq!(node.set_atts(&bag), Ok(()));
    assert_eq!(node.get_units(), ClipPathUnits(CoordUnits::ObjectBoundingBox));
}

#[test]
fn set_atts_aborts_on_invalid_units() {
    let mut node = NodeClipPath::new();
    let bag = PropertyBag {
        atts: vec![("clipPathUnits".to_owned(), "sideways".to_owned())],
    };
    assert!(node.set_atts(&bag).is_err());
    assert_eq!(node.get_units(), ClipPathUnits(CoordUnits::UserSpaceOnUse));
}

#[test]
fn set_atts_keeps_earlier_values_on_failure() {
    // Each successfully parsed clipPathUnits value is applied as it is
    // reached; a later failing attribute aborts processing but does
    // not roll the earlier updates back.
    let mut node = NodeClipPath::new();
    let bag = PropertyBag {
        atts: vec![
            ("clipPathUnits".to_owned(), "objectBoundingBox".to_owned()),
            ("clipPathUnits".to_owned(), "sideways".to_owned()),
        ],
    };
    assert!(node.set_atts(&bag).is_err());
    assert_eq!(node.get_units(), ClipPathUnits(CoordUnits::ObjectBoundingBox));
}

#[test]
fn clip_restores_transform_on_success_and_failure() {
    let node = NodeClipPath::new();
    let before = translation(7, 9);
    let mut surface = DrawingSurface::new();
    surface.transform = before.clone();

    let pre_clip = translation(1, 2);
    let bbox = BoundingBox { rect: None };

    let ok = node.resolve_and_apply_clip(&pre_clip, &mut surface, &bbox, Ok(unit_rect_path()));
    assert_eq!(ok, Ok(()));
    assert_eq!(surface.transform, before);

    let failure = Err(RenderingError { code: 42 });
    let r = node.resolve_and_apply_clip(&pre_clip, &mut surface, &bbox, failure);
    assert_eq!(r, Err(RenderingError { code: 42 }));
    assert_eq!(surface.transform, before);
}

#[test]
fn failed_painting_installs_no_clip() {
    let node = NodeClipPath::new();
    let mut surface = DrawingSurface::new();
    let pre_clip = translation(1, 2);
    let bbox = BoundingBox { rect: None };

    let r = node.resolve_and_apply_clip(
        &pre_clip,
        &mut surface,
        &bbox,
        Err(RenderingError { code: 3 }),
    );
    assert_eq!(r, Err(RenderingError { code: 3 }));
    assert_eq!(surface.clip.len(), 0);
}

#[test]
fn object_bounding_box_without_extent_excludes_everything() {
    let mut node = NodeClipPath::new();
    let bag = PropertyBag {
        atts: vec![("clipPathUnits".to_owned(), "objectBoundingBox".to_owned())],
    };
    node.set_atts(&bag).unwrap();

    let mut surface = DrawingSurface::new();
    let pre_clip = translation(0, 0);
    let bbox = BoundingBox { rect: None };

    // Success, no error — and the installed clip has no geometry, so
    // nothing is visible through it.
    let r = node.resolve_and_apply_clip(&pre_clip, &mut surface, &bbox, Ok(unit_rect_path()));
    assert_eq!(r, Ok(()));
    assert_eq!(surface.clip.len(), 1);
    assert!(surface.clip[0].path.rects.is_empty());
}

#[test]
fn object_bounding_box_maps_unit_square_onto_rect() {
    let mut node = NodeClipPath::new();
    let bag = PropertyBag {
        atts: vec![("clipPathUnits".to_owned(), "objectBoundingBox".to_owned())],
    };
    node.set_atts(&bag).unwrap();

    let mut surface = DrawingSurface::new();
    let pre_clip = Matrix {
        xx: frac(1, 1),
        yx: frac(0, 1),
        xy: frac(0, 1),
        yy: frac(1, 1),
        x0: frac(0, 1),
        y0: frac(0, 1),
    };
    let bbox = BoundingBox {
        rect: Some(Rect {
            x: frac(1, 1),
            y: frac(2, 1),
            width: frac(3, 1),
            height: frac(4, 1),
        }),
    };

    let r = node.resolve_and_apply_clip(&pre_clip, &mut surface, &bbox, Ok(unit_rect_path()));
    assert_eq!(r, Ok(()));
    assert_eq!(surface.clip.len(), 1);
    let installed = &surface.clip[0].matrix;
    assert_eq!(installed.xx, frac(3, 1));
    assert_eq!(installed.yy, frac(4, 1));
    assert_eq!(installed.x0, frac(1, 1));
    assert_eq!(installed.y0, frac(2, 1));
    assert_eq!(installed.yx, frac(0, 1));
    assert_eq!(installed.xy, frac(0, 1));
}

#[test]
fn nested_clips_accumulate_as_intersection() {
    let node = NodeClipPath::new();
    let mut surface = DrawingSurface::new();

    let first = translation(1, 0);
    let second = translation(0, 1);

    node.resolve_and_apply_clip(
        &first,
        &mut surface,
        &BoundingBox { rect: None },
        Ok(unit_rect_path()),
    )
    .unwrap();
    node.resolve_and_apply_clip(
        &second,
        &mut surface,
        &BoundingBox { rect: None },
        Ok(unit_rect_path()),
    )
    .unwrap();

    // Both clips stay installed: the visible region is what passes
    // through every installed clip, the intersection of the two.
    assert_eq!(surface.clip.len(), 2);
    assert_eq!(surface.clip[0].matrix, first);
    assert_eq!(surface.clip[1].matrix, second);
}
