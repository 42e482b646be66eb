use vstd::prelude::*;
use crate::geom::{Rect, Vec2i, half_nonneg, in_coord_range, SIZE_LIMIT};

verus! {

/// Top-left coordinate of a viewport of length `view_len` along one
/// axis, placed so that its center sits half a body length beyond the
/// body's top-left coordinate `body_pos`.
pub open spec fn camera_origin(body_pos: int, body_len: int, view_len: int) -> int {
    body_pos - view_len / 2 + body_len / 2
}

/// Center of a rectangle along the X axis, with the same halving the
/// camera uses.
pub open spec fn rect_center_x(r: Rect) -> int {
    r.x + r.w / 2
}

/// Center of a rectangle along the Y axis.
pub open spec fn rect_center_y(r: Rect) -> int {
    r.y + r.h / 2
}

/// Computes the world-space viewport rectangle for one frame: a
/// `view_w` by `view_h` rectangle whose center is the player's visual
/// center, that is its top-left position offset by half its display
/// size. The viewport is never clamped to any world bound.
pub fn camera_rect(player_pos: Vec2i, player_w: i64, player_h: i64, view_w: i64, view_h: i64) -> (r:
    Rect)
    requires
        in_coord_range(player_pos.x as int),
        in_coord_range(player_pos.y as int),
        0 < player_w <= SIZE_LIMIT,
        0 < player_h <= SIZE_LIMIT,
        0 < view_w <= SIZE_LIMIT,
        0 < view_h <= SIZE_LIMIT,
    ensures
        r.x == camera_origin(player_pos.x as int, player_w as int, view_w as int),
        r.y == camera_origin(player_pos.y as int, player_h as int, view_h as int),
        r.w == view_w,
        r.h == view_h,
{
    let half_pw = half_nonneg(player_w);
    let half_ph = half_nonneg(player_h);
    let half_vw = half_nonneg(view_w);
    let half_vh = half_nonneg(view_h);
    Rect {
        x: player_pos.x - half_vw + half_pw,
        y: player_pos.y - half_vh + half_ph,
        w: view_w,
        h: view_h,
    }
}

/// Law: the camera rectangle's center equals the player position offset
/// by half the player's display size, whatever the viewport size: the
/// half viewport length subtracted from the origin is added back when
/// taking the center.
pub proof fn lemma_camera_centered_on_player(
    player_pos: Vec2i,
    player_w: i64,
    player_h: i64,
    view_w: i64,
    view_h: i64,
    r: Rect,
)
    requires
        r.x == camera_origin(player_pos.x as int, player_w as int, view_w as int),
        r.y == camera_origin(player_pos.y as int, player_h as int, view_h as int),
        r.w == view_w,
        r.h == view_h,
    ensures
        rect_center_x(r) == player_pos.x + player_w as int / 2,
        rect_center_y(r) == player_pos.y + player_h as int / 2,
{
}

} // verus!
