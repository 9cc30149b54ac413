use ball_arena::arena::{background_plane, boundary_segments, WallSegment, MARGIN, SIZE};
use ball_arena::geom::Vec2I;
use ball_arena::world::{ball_positions, ball_spawn_config, player_spawn_config};

#[test]
fn boundary_has_four_walls_at_exact_positions() {
    let segs = boundary_segments(SIZE, MARGIN);
    assert_eq!(segs.len(), 4);
    // SIZE/2 + MARGIN/2 = 512 + 64 = 576.
    assert_eq!(
        segs[0],
        WallSegment {
            center: Vec2I { x: 0, y: 576 },
            half_extents: Vec2I { x: 512, y: 64 },
        }
    );
    assert_eq!(
        segs[1],
        WallSegment {
            center: Vec2I { x: 0, y: -576 },
            half_extents: Vec2I { x: 512, y: 64 },
        }
    );
    assert_eq!(
        segs[2],
        WallSegment {
            center: Vec2I { x: -576, y: 0 },
            half_extents: Vec2I { x: 64, y: 640 },
        }
    );
    assert_eq!(
        segs[3],
        WallSegment {
            center: Vec2I { x: 576, y: 0 },
            half_extents: Vec2I { x: 64, y: 640 },
        }
    );
}

#[test]
fn boundary_is_symmetric_about_both_axes() {
    let segs = boundary_segments(SIZE, MARGIN);
    // Mirroring any segment across either axis yields a segment of the set.
    for s in &segs {
        let across_y = WallSegment {
            center: Vec2I { x: -s.center.x, y: s.center.y },
            half_extents: s.half_extents,
        };
        let across_x = WallSegment {
            center: Vec2I { x: s.center.x, y: -s.center.y },
            half_extents: s.half_extents,
        };
        assert!(segs.contains(&across_y));
        assert!(segs.contains(&across_x));
    }
}

#[test]
fn background_matches_playfield() {
    let p = background_plane();
    assert_eq!(p.width, 1024);
    assert_eq!(p.height, 1024);
    assert_eq!(p.layer, -1);
    assert_eq!((p.red, p.green, p.blue), (43, 44, 47));
}

#[test]
fn exactly_84_ball_positions() {
    let ps = ball_positions();
    assert_eq!(ps.len(), 84);
}

#[test]
fn ball_positions_cover_the_ring() {
    let ps = ball_positions();
    // First lattice step: -360.
    assert_eq!(ps[0], Vec2I { x: -360, y: 384 });
    assert_eq!(ps[1], Vec2I { x: -360, y: -384 });
    assert_eq!(ps[2], Vec2I { x: 384, y: -360 });
    assert_eq!(ps[3], Vec2I { x: -384, y: -360 });
    // Middle step (index 10): 0.
    assert_eq!(ps[40], Vec2I { x: 0, y: 384 });
    // Last lattice step (index 20): 360.
    assert_eq!(ps[80], Vec2I { x: 360, y: 384 });
    assert_eq!(ps[83], Vec2I { x: -384, y: 360 });
    // Every position sits on one of the four ring edges.
    for p in &ps {
        assert!(p.x == 384 || p.x == -384 || p.y == 384 || p.y == -384);
    }
}

#[test]
fn spawn_configs_match_the_contract() {
    let p = player_spawn_config();
    assert_eq!(p.radius, 64);
    assert_eq!(p.restitution_centi, 100);
    assert!(p.never_sleep);
    assert!(!p.report_collisions);

    let b = ball_spawn_config();
    assert_eq!(b.radius, 16);
    assert_eq!(b.restitution_centi, 100);
    assert!(b.never_sleep);
    assert!(b.report_collisions);
}
