use vstd::prelude::*;
use crate::geom::{Vec2i, in_coord_range, rect_wf, COORD_LIMIT, DISP_LIMIT, DT_LIMIT, SIZE_LIMIT,
    SPEED_LIMIT};
use crate::input::{InputState, vel_x, vel_y, velocity_from_input, lemma_no_keys_zero_velocity};
use crate::world::{Actor, Solid, World, moved_h, moved_v};

verus! {

/// The player entity: display size, per-frame velocity, configured
/// speed, and a handle into the kinematic world. The handle is `None`
/// until the body is registered; no move or draw may happen before
/// that.
pub struct Player {
    pub name: String,
    pub velocity: Vec2i,
    pub speed: i64,
    pub x_length: i64,
    pub y_length: i64,
    pub collider: Option<Actor>,
}

/// The static platform entity: display size and a handle into the
/// kinematic world, `None` until registered.
pub struct Platform {
    pub x_length: i64,
    pub y_length: i64,
    pub collider: Option<Solid>,
}

/// Player configuration the frame step relies on: nonnegative bounded
/// speed and a positive bounded display size.
pub open spec fn player_wf(p: Player) -> bool {
    &&& 0 <= p.speed <= SPEED_LIMIT
    &&& 0 < p.x_length <= SIZE_LIMIT
    &&& 0 < p.y_length <= SIZE_LIMIT
}

/// Platform configuration: a positive bounded display size.
pub open spec fn platform_wf(p: Platform) -> bool {
    &&& 0 < p.x_length <= SIZE_LIMIT
    &&& 0 < p.y_length <= SIZE_LIMIT
}

/// The player state a frame leaves behind: the velocity is rebuilt from
/// this frame's keys and speed alone; every other field is kept.
pub open spec fn spec_refreshed(p: Player, input: InputState) -> Player {
    Player {
        velocity: Vec2i {
            x: vel_x(input, p.speed as int) as i64,
            y: vel_y(input, p.speed as int) as i64,
        },
        ..p
    }
}

/// Rebuilds the player's velocity from the keys held this frame. The
/// previous velocity is discarded, never accumulated into.
pub fn refresh_velocity(player: &mut Player, input: InputState)
    requires
        player_wf(*old(player)),
    ensures
        *final(player) == spec_refreshed(*old(player), input),
{
    let v = velocity_from_input(input, player.speed);
    player.velocity = v;
}

/// Law: the velocity a frame computes depends only on the keys held and
/// the configured speed; the velocity carried over from earlier frames
/// never enters it.
pub proof fn lemma_velocity_recomputed_each_frame(a: Player, b: Player, input: InputState)
    requires
        a.speed == b.speed,
    ensures
        spec_refreshed(a, input).velocity == spec_refreshed(b, input).velocity,
{
}

/// Law: a frame with no held keys leaves the zero velocity, whatever the
/// prior frame's velocity was.
pub proof fn lemma_idle_frame_zero_velocity(p: Player, input: InputState)
    requires
        !input.up && !input.left && !input.down && !input.right,
    ensures
        spec_refreshed(p, input).velocity == (Vec2i { x: 0, y: 0 }),
{
    lemma_no_keys_zero_velocity(input, p.speed as int);
}

/// Distance covered in `dt_ms` milliseconds at `v` subunits per
/// millisecond: the exact product, with nothing rounded away.
pub open spec fn displacement(v: int, dt_ms: int) -> int {
    v * dt_ms
}

/// Law: the per-frame displacement is exactly linear in the elapsed
/// frame time. Splitting a stretch of time into two frames covers the
/// same distance as one frame over the whole stretch, and in particular
/// a frame twice as long covers exactly twice the distance: no fraction
/// of a subunit is carried into or lost between frames.
pub proof fn lemma_displacement_linear_in_frame_time(v: int, dt_a: int, dt_b: int)
    ensures
        displacement(v, dt_a + dt_b) == displacement(v, dt_a) + displacement(v, dt_b),
        displacement(v, 2 * dt_a) == 2 * displacement(v, dt_a),
{
    assert(v * (dt_a + dt_b) == v * dt_a + v * dt_b) by (nonlinear_arith);
    assert(v * (2 * dt_a) == 2 * (v * dt_a)) by (nonlinear_arith);
}

/// Scales a velocity by the elapsed frame time: the per-axis distance
/// the body is asked to travel this frame.
pub fn velocity_to_displacement(v: i64, dt_ms: i64) -> (d: i64)
    requires
        -SPEED_LIMIT <= v <= SPEED_LIMIT,
        0 <= dt_ms <= DT_LIMIT,
    ensures
        d == displacement(v as int, dt_ms as int),
        -DISP_LIMIT <= d <= DISP_LIMIT,
{
    proof {
        assert(-(SPEED_LIMIT as int * (DT_LIMIT as int)) <= v as int * (dt_ms as int)
            <= SPEED_LIMIT as int * (DT_LIMIT as int)) by (nonlinear_arith)
            requires
                -(SPEED_LIMIT as int) <= v as int <= SPEED_LIMIT as int,
                0 <= dt_ms as int <= DT_LIMIT as int,
        ;
        assert(SPEED_LIMIT as int * (DT_LIMIT as int) == DISP_LIMIT as int);
    }
    v * dt_ms
}

/// One gameplay step of the loop driver: rebuild the player's velocity
/// from the held keys, scale it by the elapsed frame time, and ask the
/// world to move the player's body horizontally then vertically, each
/// axis resolved against the solids on its own.
///
/// The one departure from an idealized unbounded plane: a step whose
/// target coordinate would leave the world's representable range moves
/// nothing and returns `false`, so that the world's bodies always stay
/// in range. Within range the step always applies and returns `true`.
pub fn advance_player(world: &mut World, player: &mut Player, input: InputState, dt_ms: i64) -> (applied:
    bool)
    requires
        old(world).wf(),
        player_wf(*old(player)),
        old(player).collider is Some,
        old(player).collider.unwrap().index < old(world).actors@.len(),
        0 <= dt_ms <= DT_LIMIT,
    ensures
        *final(player) == spec_refreshed(*old(player), input),
        final(world).wf(),
        final(world).solids@ == old(world).solids@,
        ({
            let aid = old(player).collider.unwrap().index as int;
            let a0 = old(world).actors@[aid];
            let dx = displacement(vel_x(input, old(player).speed as int), dt_ms as int);
            let dy = displacement(vel_y(input, old(player).speed as int), dt_ms as int);
            if in_coord_range(a0.x + dx) && in_coord_range(a0.y + dy) {
                applied && final(world).actors@ == old(world).actors@.update(
                    aid,
                    moved_v(moved_h(a0, old(world).solids@, dx), old(world).solids@, dy),
                )
            } else {
                !applied && final(world).actors@ == old(world).actors@
            }
        }),
{
    refresh_velocity(player, input);
    let handle = player.collider.unwrap();
    let dx = velocity_to_displacement(player.velocity.x, dt_ms);
    let dy = velocity_to_displacement(player.velocity.y, dt_ms);
    let pos = world.actor_pos(handle);
    proof {
        assert(rect_wf(old(world).actors@[handle.index as int]));
    }
    let target_x = pos.x + dx;
    let target_y = pos.y + dy;
    if -COORD_LIMIT <= target_x && target_x <= COORD_LIMIT && -COORD_LIMIT <= target_y && target_y
        <= COORD_LIMIT {
        world.move_h(handle, dx);
        world.move_v(handle, dy);
        proof {
            let aid = handle.index as int;
            let a0 = old(world).actors@[aid];
            assert(world.actors@ =~= old(world).actors@.update(
                aid,
                moved_v(moved_h(a0, old(world).solids@, dx as int), old(world).solids@, dy as int),
            ));
        }
        true
    } else {
        false
    }
}

} // verus!
