//! The static arena boundary and the background plane.
//!
//! The playfield is a square of side `SIZE` enclosed by four axis-aligned
//! rectangular wall segments of thickness `MARGIN`, built once at startup as
//! a single static compound collider. The walls absorb a tenth of the kinetic
//! energy per bounce (restitution 0.9, carried as 90 hundredths).

use vstd::prelude::*;
use crate::geom::{Vec2I, reflect_across_x_axis, reflect_across_y_axis};

verus! {

/// Side length of the square playfield, in world units.
pub const SIZE: i64 = 1024;

/// Thickness of each wall segment, in world units.
pub const MARGIN: i64 = 128;

/// Restitution of the boundary, in hundredths.
pub const WALL_RESTITUTION_CENTI: i64 = 90;

/// One axis-aligned rectangular wall segment of the compound boundary
/// collider: a center and half-extents, both in world units.
#[derive(Clone, Copy, PartialEq, Eq, Structural, Debug)]
pub struct WallSegment {
    pub center: Vec2I,
    pub half_extents: Vec2I,
}

/// Mirror a wall segment across the vertical axis. Half-extents are
/// magnitudes, so only the center moves.
pub open spec fn reflect_segment_across_y_axis(s: WallSegment) -> WallSegment {
    WallSegment { center: reflect_across_y_axis(s.center), half_extents: s.half_extents }
}

/// Mirror a wall segment across the horizontal axis.
pub open spec fn reflect_segment_across_x_axis(s: WallSegment) -> WallSegment {
    WallSegment { center: reflect_across_x_axis(s.center), half_extents: s.half_extents }
}

/// The four wall segments enclosing a square playfield of side `size` with
/// wall thickness `margin`: top, bottom, left, right, in that order. Top and
/// bottom span the playfield width and sit just beyond it; left and right sit
/// just beyond it sideways and are extended by a full margin vertically so
/// the four rectangles close the corners.
pub open spec fn boundary_spec(size: int, margin: int) -> Seq<WallSegment> {
    let offset = size / 2 + margin / 2;
    seq![
        WallSegment {
            center: Vec2I { x: 0, y: offset as i64 },
            half_extents: Vec2I { x: (size / 2) as i64, y: (margin / 2) as i64 },
        },
        WallSegment {
            center: Vec2I { x: 0, y: (-offset) as i64 },
            half_extents: Vec2I { x: (size / 2) as i64, y: (margin / 2) as i64 },
        },
        WallSegment {
            center: Vec2I { x: (-offset) as i64, y: 0 },
            half_extents: Vec2I { x: (margin / 2) as i64, y: (size / 2 + margin) as i64 },
        },
        WallSegment {
            center: Vec2I { x: offset as i64, y: 0 },
            half_extents: Vec2I { x: (margin / 2) as i64, y: (size / 2 + margin) as i64 },
        },
    ]
}

/// Build the boundary's four wall segments for a playfield of side `size`
/// and wall thickness `margin`.
pub fn boundary_segments(size: i64, margin: i64) -> (segs: Vec<WallSegment>)
    requires
        0 < size <= 1_000_000,
        0 < margin <= 1_000_000,
        size % 2 == 0,
        margin % 2 == 0,
    ensures
        segs@ == boundary_spec(size as int, margin as int),
        segs@.len() == 4,
{
    let offset: i64 = size / 2 + margin / 2;
    let mut segs: Vec<WallSegment> = Vec::new();
    segs.push(WallSegment {
        center: Vec2I { x: 0, y: offset },
        half_extents: Vec2I { x: size / 2, y: margin / 2 },
    });
    segs.push(WallSegment {
        center: Vec2I { x: 0, y: -offset },
        half_extents: Vec2I { x: size / 2, y: margin / 2 },
    });
    segs.push(WallSegment {
        center: Vec2I { x: -offset, y: 0 },
        half_extents: Vec2I { x: margin / 2, y: size / 2 + margin },
    });
    segs.push(WallSegment {
        center: Vec2I { x: offset, y: 0 },
        half_extents: Vec2I { x: margin / 2, y: size / 2 + margin },
    });
    proof {
        assert(segs@ =~= boundary_spec(size as int, margin as int));
    }
    segs
}

/// The boundary is symmetric about both axes: mirroring any wall segment
/// across either axis yields another wall segment of the same boundary.
pub proof fn lemma_boundary_symmetric(size: int, margin: int)
    requires
        0 < size <= 1_000_000,
        0 < margin <= 1_000_000,
    ensures
        forall|i: int| 0 <= i < 4 ==> exists|j: int|
            0 <= j < 4 && boundary_spec(size, margin)[j]
                == reflect_segment_across_y_axis(#[trigger] boundary_spec(size, margin)[i]),
        forall|i: int| 0 <= i < 4 ==> exists|j: int|
            0 <= j < 4 && boundary_spec(size, margin)[j]
                == reflect_segment_across_x_axis(#[trigger] boundary_spec(size, margin)[i]),
{
    let b = boundary_spec(size, margin);
    // Across the vertical axis: top and bottom map to themselves, left and
    // right swap.
    assert(b[0] == reflect_segment_across_y_axis(b[0]));
    assert(b[1] == reflect_segment_across_y_axis(b[1]));
    assert(b[3] == reflect_segment_across_y_axis(b[2]));
    assert(b[2] == reflect_segment_across_y_axis(b[3]));
    // Across the horizontal axis: top and bottom swap, left and right map to
    // themselves.
    assert(b[1] == reflect_segment_across_x_axis(b[0]));
    assert(b[0] == reflect_segment_across_x_axis(b[1]));
    assert(b[2] == reflect_segment_across_x_axis(b[2]));
    assert(b[3] == reflect_segment_across_x_axis(b[3]));
}

/// The visual backdrop: a static plane matching the playfield, drawn one
/// layer below the gameplay bodies in a fixed dark color.
#[derive(Clone, Copy, PartialEq, Eq, Structural, Debug)]
pub struct BackgroundPlane {
    pub width: i64,
    pub height: i64,
    /// Draw layer; negative puts the plane behind every body.
    pub layer: i64,
    pub red: u8,
    pub green: u8,
    pub blue: u8,
}

/// The background plane of the arena: a `SIZE` by `SIZE` dark plane behind
/// the gameplay layer.
pub fn background_plane() -> (p: BackgroundPlane)
    ensures
        p.width == SIZE,
        p.height == SIZE,
        p.layer == -1,
        p.red == 43,
        p.green == 44,
        p.blue == 47,
{
    BackgroundPlane { width: SIZE, height: SIZE, layer: -1, red: 43, green: 44, blue: 47 }
}

} // verus!
