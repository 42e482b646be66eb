use blame_game::camera::camera_rect;
use blame_game::geom::{Rect, Vec2i};
use blame_game::game::{Platform, Player};
use blame_game::render::plan_frame;
use blame_game::world::World;

#[test]
fn camera_rect_matches_the_offset_formula() {
    // position - viewport/2 + body/2 on each axis, size = viewport.
    let r = camera_rect(
        Vec2i { x: 10_000_000, y: 50_000_000 },
        30_000_000,
        30_000_000,
        500_000_000,
        400_000_000,
    );
    assert_eq!(r, Rect { x: -225_000_000, y: -135_000_000, w: 500_000_000, h: 400_000_000 });
}

#[test]
fn camera_center_is_the_player_center_for_any_viewport() {
    let pos = Vec2i { x: 10_000_000, y: 50_000_000 };
    for (vw, vh) in [(500_000_000, 400_000_000), (500_000_001, 400_000_001), (2, 2), (999_999_999, 1)] {
        let r = camera_rect(pos, 30_000_000, 30_000_000, vw, vh);
        assert_eq!(r.x + r.w / 2, pos.x + 15_000_000);
        assert_eq!(r.y + r.h / 2, pos.y + 15_000_000);
    }
}

#[test]
fn frame_plan_draws_what_the_world_reports() {
    let mut world = World::new();
    let actor = world.add_actor(Vec2i { x: 10_000_000, y: 50_000_000 }, 30_000_000, 30_000_000);
    let solid = world.add_solid(Vec2i { x: 0, y: 0 }, 100_000_000, 30_000_000);
    let player = Player {
        name: "sussy baka".to_string(),
        velocity: Vec2i { x: 0, y: 0 },
        speed: 100_000,
        x_length: 30_000_000,
        y_length: 30_000_000,
        collider: Some(actor),
    };
    let platform = Platform { x_length: 100_000_000, y_length: 30_000_000, collider: Some(solid) };

    let plan = plan_frame(&world, &player, &platform, 500_000_000, 400_000_000);
    assert_eq!(plan.player_rect, Rect { x: 10_000_000, y: 50_000_000, w: 30_000_000, h: 30_000_000 });
    assert_eq!(plan.platform_rect, Rect { x: 0, y: 0, w: 100_000_000, h: 30_000_000 });
    assert_eq!(plan.camera, Rect { x: -225_000_000, y: -135_000_000, w: 500_000_000, h: 400_000_000 });
    assert_eq!(plan.label_pos, Vec2i { x: 10_000_000, y: 50_000_000 });
    assert_eq!(plan.debug_pos, Vec2i { x: 10_000_000, y: 50_000_000 });
}

#[test]
fn frame_plan_follows_the_moved_player() {
    let mut world = World::new();
    let actor = world.add_actor(Vec2i { x: 10_000_000, y: 50_000_000 }, 30_000_000, 30_000_000);
    let solid = world.add_solid(Vec2i { x: 0, y: 0 }, 100_000_000, 30_000_000);
    world.move_h(actor, 5_000_000);
    let player = Player {
        name: "sussy baka".to_string(),
        velocity: Vec2i { x: 0, y: 0 },
        speed: 100_000,
        x_length: 30_000_000,
        y_length: 30_000_000,
        collider: Some(actor),
    };
    let platform = Platform { x_length: 100_000_000, y_length: 30_000_000, collider: Some(solid) };

    let plan = plan_frame(&world, &player, &platform, 500_000_000, 400_000_000);
    assert_eq!(plan.player_rect.x, 15_000_000);
    assert_eq!(plan.camera.x, -220_000_000);
    assert_eq!(plan.debug_pos, Vec2i { x: 15_000_000, y: 50_000_000 });
}
