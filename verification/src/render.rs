use vstd::prelude::*;
use crate::camera::{camera_origin, camera_rect};
use crate::geom::{Rect, Vec2i, rect_at, rect_wf, SIZE_LIMIT};
use crate::game::{Platform, Player, platform_wf, player_wf};
use crate::world::World;

verus! {

/// Everything one frame draws, as plain world-space data. The first
/// pass draws `platform_rect`, `player_rect` and the name label under
/// the `camera` transform; the second pass resets the camera and prints
/// the coordinates of `debug_pos` at a fixed screen offset. The drawing
/// layer executes this plan with its own calls.
pub struct FramePlan {
    pub camera: Rect,
    pub platform_rect: Rect,
    pub player_rect: Rect,
    pub label_pos: Vec2i,
    pub debug_pos: Vec2i,
}

/// Composes the draw data for one frame from the world-reported
/// positions: each entity is drawn at the position the world stores for
/// its handle, with the entity's own display size; the camera is
/// centered on the player's visual center; the label and the debug
/// readout both report the player's position.
pub fn plan_frame(
    world: &World,
    player: &Player,
    platform: &Platform,
    view_w: i64,
    view_h: i64,
) -> (plan: FramePlan)
    requires
        world.wf(),
        player_wf(*player),
        platform_wf(*platform),
        player.collider is Some,
        player.collider.unwrap().index < world.actors@.len(),
        platform.collider is Some,
        platform.collider.unwrap().index < world.solids@.len(),
        0 < view_w <= SIZE_LIMIT,
        0 < view_h <= SIZE_LIMIT,
    ensures
        ({
            let player_pos = Vec2i {
                x: world.actors@[player.collider.unwrap().index as int].x,
                y: world.actors@[player.collider.unwrap().index as int].y,
            };
            let platform_pos = Vec2i {
                x: world.solids@[platform.collider.unwrap().index as int].x,
                y: world.solids@[platform.collider.unwrap().index as int].y,
            };
            &&& plan.player_rect == rect_at(player_pos, player.x_length, player.y_length)
            &&& plan.platform_rect == rect_at(platform_pos, platform.x_length, platform.y_length)
            &&& plan.camera.x == camera_origin(
                player_pos.x as int,
                player.x_length as int,
                view_w as int,
            )
            &&& plan.camera.y == camera_origin(
                player_pos.y as int,
                player.y_length as int,
                view_h as int,
            )
            &&& plan.camera.w == view_w
            &&& plan.camera.h == view_h
            &&& plan.label_pos == player_pos
            &&& plan.debug_pos == player_pos
        }),
{
    let player_handle = player.collider.unwrap();
    let platform_handle = platform.collider.unwrap();
    let player_pos = world.actor_pos(player_handle);
    let platform_pos = world.solid_pos(platform_handle);
    proof {
        assert(rect_wf(world.actors@[player_handle.index as int]));
    }
    let camera = camera_rect(player_pos, player.x_length, player.y_length, view_w, view_h);
    FramePlan {
        camera,
        platform_rect: Rect {
            x: platform_pos.x,
            y: platform_pos.y,
            w: platform.x_length,
            h: platform.y_length,
        },
        player_rect: Rect {
            x: player_pos.x,
            y: player_pos.y,
            w: player.x_length,
            h: player.y_length,
        },
        label_pos: player_pos,
        debug_pos: player_pos,
    }
}

} // verus!
