use vstd::prelude::*;
use crate::geom::{Rect, Vec2i, rect_at, rect_wf, in_coord_range, COORD_LIMIT};

verus! {

/// Handle of a moving body registered with a [`World`]. Obtained from
/// [`World::add_actor`] and only meaningful for that world.
#[derive(Clone, Copy, PartialEq, Eq, Structural, Debug)]
pub struct Actor {
    pub index: usize,
}

/// Handle of a static body registered with a [`World`]. Obtained from
/// [`World::add_solid`] and only meaningful for that world.
#[derive(Clone, Copy, PartialEq, Eq, Structural, Debug)]
pub struct Solid {
    pub index: usize,
}

/// The kinematic collision world: the single source of truth for body
/// positions. Moving bodies (actors) are moved one axis at a time and
/// stop at the first static body (solid) in their way; solids never
/// move. Entities keep handles into the world and never cache positions.
///
/// Only solids wholly ahead of the moving edge clamp a move (see the
/// `blocks_*` functions): a body that already overlaps a solid is not
/// blocked by it and slides out of it freely.
pub struct World {
    pub actors: Vec<Rect>,
    pub solids: Vec<Rect>,
}

/// The vertical extents of the two rectangles intersect.
pub open spec fn overlaps_y(a: Rect, s: Rect) -> bool {
    a.y < s.y + s.h && s.y < a.y + a.h
}

/// The horizontal extents of the two rectangles intersect.
pub open spec fn overlaps_x(a: Rect, s: Rect) -> bool {
    a.x < s.x + s.w && s.x < a.x + a.w
}

/// `s` stands in the way of `a` moving right: it shares vertical extent
/// with `a` and starts at or beyond `a`'s right edge.
pub open spec fn blocks_right(a: Rect, s: Rect) -> bool {
    overlaps_y(a, s) && a.x + a.w <= s.x
}

/// Free distance between `a`'s right edge and `s`'s left edge.
pub open spec fn gap_right(a: Rect, s: Rect) -> int {
    s.x - (a.x + a.w)
}

/// `s` stands in the way of `a` moving left.
pub open spec fn blocks_left(a: Rect, s: Rect) -> bool {
    overlaps_y(a, s) && s.x + s.w <= a.x
}

/// Free distance between `s`'s right edge and `a`'s left edge.
pub open spec fn gap_left(a: Rect, s: Rect) -> int {
    a.x - (s.x + s.w)
}

/// `s` stands in the way of `a` moving down (towards positive Y).
pub open spec fn blocks_down(a: Rect, s: Rect) -> bool {
    overlaps_x(a, s) && a.y + a.h <= s.y
}

/// Free distance between `a`'s bottom edge and `s`'s top edge.
pub open spec fn gap_down(a: Rect, s: Rect) -> int {
    s.y - (a.y + a.h)
}

/// `s` stands in the way of `a` moving up (towards negative Y).
pub open spec fn blocks_up(a: Rect, s: Rect) -> bool {
    overlaps_x(a, s) && s.y + s.h <= a.y
}

/// Free distance between `s`'s bottom edge and `a`'s top edge.
pub open spec fn gap_up(a: Rect, s: Rect) -> int {
    a.y - (s.y + s.h)
}

/// How far right `a` actually travels when asked to move by `dx >= 0`:
/// the request, shortened to the smallest gap of any solid in the way.
pub open spec fn allowed_right(a: Rect, solids: Seq<Rect>, dx: int) -> int
    decreases solids.len(),
{
    if solids.len() == 0 {
        dx
    } else {
        let rest = allowed_right(a, solids.drop_last(), dx);
        let s = solids.last();
        if blocks_right(a, s) && gap_right(a, s) < rest {
            gap_right(a, s)
        } else {
            rest
        }
    }
}

/// How far left `a` actually travels when asked to move by `dx <= 0`
/// (a negative delta, clamped towards zero by solids in the way).
pub open spec fn allowed_left(a: Rect, solids: Seq<Rect>, dx: int) -> int
    decreases solids.len(),
{
    if solids.len() == 0 {
        dx
    } else {
        let rest = allowed_left(a, solids.drop_last(), dx);
        let s = solids.last();
        if blocks_left(a, s) && -gap_left(a, s) > rest {
            -gap_left(a, s)
        } else {
            rest
        }
    }
}

/// How far down `a` actually travels when asked to move by `dy >= 0`.
pub open spec fn allowed_down(a: Rect, solids: Seq<Rect>, dy: int) -> int
    decreases solids.len(),
{
    if solids.len() == 0 {
        dy
    } else {
        let rest = allowed_down(a, solids.drop_last(), dy);
        let s = solids.last();
        if blocks_down(a, s) && gap_down(a, s) < rest {
            gap_down(a, s)
        } else {
            rest
        }
    }
}

/// How far up `a` actually travels when asked to move by `dy <= 0`.
pub open spec fn allowed_up(a: Rect, solids: Seq<Rect>, dy: int) -> int
    decreases solids.len(),
{
    if solids.len() == 0 {
        dy
    } else {
        let rest = allowed_up(a, solids.drop_last(), dy);
        let s = solids.last();
        if blocks_up(a, s) && -gap_up(a, s) > rest {
            -gap_up(a, s)
        } else {
            rest
        }
    }
}

/// Where a horizontal move by `dx` puts the body `a` among `solids`.
pub open spec fn moved_h(a: Rect, solids: Seq<Rect>, dx: int) -> Rect {
    let step = if dx >= 0 {
        allowed_right(a, solids, dx)
    } else {
        allowed_left(a, solids, dx)
    };
    Rect { x: (a.x + step) as i64, y: a.y, w: a.w, h: a.h }
}

/// Where a vertical move by `dy` puts the body `a` among `solids`.
pub open spec fn moved_v(a: Rect, solids: Seq<Rect>, dy: int) -> Rect {
    let step = if dy >= 0 {
        allowed_down(a, solids, dy)
    } else {
        allowed_up(a, solids, dy)
    };
    Rect { x: a.x, y: (a.y + step) as i64, w: a.w, h: a.h }
}

/// Largest right step the solids admit, equal to [`allowed_right`].
fn slide_right(a: Rect, solids: &Vec<Rect>, dx: i64) -> (step: i64)
    requires
        rect_wf(a),
        forall|j: int| 0 <= j < solids@.len() ==> rect_wf(#[trigger] solids@[j]),
        0 <= dx,
    ensures
        step == allowed_right(a, solids@, dx as int),
        0 <= step <= dx,
{
    let mut step: i64 = dx;
    let n = solids.len();
    for i in 0..n
        invariant
            rect_wf(a),
            forall|j: int| 0 <= j < solids@.len() ==> rect_wf(#[trigger] solids@[j]),
            0 <= dx,
            n == solids@.len(),
            0 <= step <= dx,
            step == allowed_right(a, solids@.take(i as int), dx as int),
    {
        let s = solids[i];
        if a.y < s.y + s.h && s.y < a.y + a.h && a.x + a.w <= s.x {
            let gap = s.x - (a.x + a.w);
            if gap < step {
                step = gap;
            }
        }
        proof {
            assert(solids@.take(i as int + 1).drop_last() =~= solids@.take(i as int));
            assert(solids@.take(i as int + 1).last() == solids@[i as int]);
        }
    }
    proof {
        assert(solids@.take(n as int) =~= solids@);
    }
    step
}

/// Largest (most negative) left step the solids admit, equal to
/// [`allowed_left`].
fn slide_left(a: Rect, solids: &Vec<Rect>, dx: i64) -> (step: i64)
    requires
        rect_wf(a),
        forall|j: int| 0 <= j < solids@.len() ==> rect_wf(#[trigger] solids@[j]),
        dx <= 0,
    ensures
        step == allowed_left(a, solids@, dx as int),
        dx <= step <= 0,
{
    let mut step: i64 = dx;
    let n = solids.len();
    for i in 0..n
        invariant
            rect_wf(a),
            forall|j: int| 0 <= j < solids@.len() ==> rect_wf(#[trigger] solids@[j]),
            dx <= 0,
            n == solids@.len(),
            dx <= step <= 0,
            step == allowed_left(a, solids@.take(i as int), dx as int),
    {
        let s = solids[i];
        if a.y < s.y + s.h && s.y < a.y + a.h && s.x + s.w <= a.x {
            let reach = -(a.x - (s.x + s.w));
            if reach > step {
                step = reach;
            }
        }
        proof {
            assert(solids@.take(i as int + 1).drop_last() =~= solids@.take(i as int));
            assert(solids@.take(i as int + 1).last() == solids@[i as int]);
        }
    }
    proof {
        assert(solids@.take(n as int) =~= solids@);
    }
    step
}

/// Largest down step the solids admit, equal to [`allowed_down`].
fn slide_down(a: Rect, solids: &Vec<Rect>, dy: i64) -> (step: i64)
    requires
        rect_wf(a),
        forall|j: int| 0 <= j < solids@.len() ==> rect_wf(#[trigger] solids@[j]),
        0 <= dy,
    ensures
        step == allowed_down(a, solids@, dy as int),
        0 <= step <= dy,
{
    let mut step: i64 = dy;
    let n = solids.len();
    for i in 0..n
        invariant
            rect_wf(a),
            forall|j: int| 0 <= j < solids@.len() ==> rect_wf(#[trigger] solids@[j]),
            0 <= dy,
            n == solids@.len(),
            0 <= step <= dy,
            step == allowed_down(a, solids@.take(i as int), dy as int),
    {
        let s = solids[i];
        if a.x < s.x + s.w && s.x < a.x + a.w && a.y + a.h <= s.y {
            let gap = s.y - (a.y + a.h);
            if gap < step {
                step = gap;
            }
        }
        proof {
            assert(solids@.take(i as int + 1).drop_last() =~= solids@.take(i as int));
            assert(solids@.take(i as int + 1).last() == solids@[i as int]);
        }
    }
    proof {
        assert(solids@.take(n as int) =~= solids@);
    }
    step
}

/// Largest (most negative) up step the solids admit, equal to
/// [`allowed_up`].
fn slide_up(a: Rect, solids: &Vec<Rect>, dy: i64) -> (step: i64)
    requires
        rect_wf(a),
        forall|j: int| 0 <= j < solids@.len() ==> rect_wf(#[trigger] solids@[j]),
        dy <= 0,
    ensures
        step == allowed_up(a, solids@, dy as int),
        dy <= step <= 0,
{
    let mut step: i64 = dy;
    let n = solids.len();
    for i in 0..n
        invariant
            rect_wf(a),
            forall|j: int| 0 <= j < solids@.len() ==> rect_wf(#[trigger] solids@[j]),
            dy <= 0,
            n == solids@.len(),
            dy <= step <= 0,
            step == allowed_up(a, solids@.take(i as int), dy as int),
    {
        let s = solids[i];
        if a.x < s.x + s.w && s.x < a.x + a.w && s.y + s.h <= a.y {
            let reach = -(a.y - (s.y + s.h));
            if reach > step {
                step = reach;
            }
        }
        proof {
            assert(solids@.take(i as int + 1).drop_last() =~= solids@.take(i as int));
            assert(solids@.take(i as int + 1).last() == solids@[i as int]);
        }
    }
    proof {
        assert(solids@.take(n as int) =~= solids@);
    }
    step
}

impl World {
    /// All registered bodies are well-formed rectangles.
    pub open spec fn wf(self) -> bool {
        &&& forall|i: int| 0 <= i < self.actors@.len() ==> rect_wf(#[trigger] self.actors@[i])
        &&& forall|i: int| 0 <= i < self.solids@.len() ==> rect_wf(#[trigger] self.solids@[i])
    }

    /// An empty world with no bodies.
    pub fn new() -> (w: World)
        ensures
            w.wf(),
            w.actors@.len() == 0,
            w.solids@.len() == 0,
    {
        World { actors: Vec::new(), solids: Vec::new() }
    }

    /// Registers a moving body at `pos` with the given size and returns
    /// its handle. The body occupies exactly the supplied rectangle
    /// until a move call changes it.
    pub fn add_actor(&mut self, pos: Vec2i, width: i64, height: i64) -> (handle: Actor)
        requires
            old(self).wf(),
            rect_wf(rect_at(pos, width, height)),
        ensures
            final(self).wf(),
            handle.index == old(self).actors@.len(),
            final(self).actors@ == old(self).actors@.push(rect_at(pos, width, height)),
            final(self).solids@ == old(self).solids@,
    {
        let handle = Actor { index: self.actors.len() };
        self.actors.push(Rect { x: pos.x, y: pos.y, w: width, h: height });
        handle
    }

    /// Registers a static body at `pos` with the given size and returns
    /// its handle. Solids never move.
    pub fn add_solid(&mut self, pos: Vec2i, width: i64, height: i64) -> (handle: Solid)
        requires
            old(self).wf(),
            rect_wf(rect_at(pos, width, height)),
        ensures
            final(self).wf(),
            handle.index == old(self).solids@.len(),
            final(self).solids@ == old(self).solids@.push(rect_at(pos, width, height)),
            final(self).actors@ == old(self).actors@,
    {
        let handle = Solid { index: self.solids.len() };
        self.solids.push(Rect { x: pos.x, y: pos.y, w: width, h: height });
        handle
    }

    /// Current position of a moving body: the top-left corner of the
    /// rectangle the world stores for it.
    pub fn actor_pos(&self, handle: Actor) -> (pos: Vec2i)
        requires
            handle.index < self.actors@.len(),
        ensures
            pos == (Vec2i {
                x: self.actors@[handle.index as int].x,
                y: self.actors@[handle.index as int].y,
            }),
    {
        let a = self.actors[handle.index];
        Vec2i { x: a.x, y: a.y }
    }

    /// Current position of a static body.
    pub fn solid_pos(&self, handle: Solid) -> (pos: Vec2i)
        requires
            handle.index < self.solids@.len(),
        ensures
            pos == (Vec2i {
                x: self.solids@[handle.index as int].x,
                y: self.solids@[handle.index as int].y,
            }),
    {
        let s = self.solids[handle.index];
        Vec2i { x: s.x, y: s.y }
    }

    /// Moves a body horizontally by `dx`, stopping at the first solid in
    /// the way. Returns whether a solid cut the move short.
    pub fn move_h(&mut self, handle: Actor, dx: i64) -> (collided: bool)
        requires
            old(self).wf(),
            handle.index < old(self).actors@.len(),
            in_coord_range(old(self).actors@[handle.index as int].x + dx),
        ensures
            final(self).wf(),
            final(self).solids@ == old(self).solids@,
            final(self).actors@ == old(self).actors@.update(
                handle.index as int,
                moved_h(old(self).actors@[handle.index as int], old(self).solids@, dx as int),
            ),
            collided == (final(self).actors@[handle.index as int].x
                != old(self).actors@[handle.index as int].x + dx),
    {
        let a = self.actors[handle.index];
        let step: i64 = if dx >= 0 {
            slide_right(a, &self.solids, dx)
        } else {
            slide_left(a, &self.solids, dx)
        };
        let moved = Rect { x: a.x + step, y: a.y, w: a.w, h: a.h };
        self.actors[handle.index] = moved;
        proof {
            assert(moved == moved_h(a, self.solids@, dx as int));
            assert forall|i: int| 0 <= i < self.actors@.len() implies rect_wf(
                #[trigger] self.actors@[i],
            ) by {
                if i != handle.index as int {
                    assert(self.actors@[i] == old(self).actors@[i]);
                }
            }
        }
        step != dx
    }

    /// Moves a body vertically by `dy`, stopping at the first solid in
    /// the way. Returns whether a solid cut the move short.
    pub fn move_v(&mut self, handle: Actor, dy: i64) -> (collided: bool)
        requires
            old(self).wf(),
            handle.index < old(self).actors@.len(),
            in_coord_range(old(self).actors@[handle.index as int].y + dy),
        ensures
            final(self).wf(),
            final(self).solids@ == old(self).solids@,
            final(self).actors@ == old(self).actors@.update(
                handle.index as int,
                moved_v(old(self).actors@[handle.index as int], old(self).solids@, dy as int),
            ),
            collided == (final(self).actors@[handle.index as int].y
                != old(self).actors@[handle.index as int].y + dy),
    {
        let a = self.actors[handle.index];
        let step: i64 = if dy >= 0 {
            slide_down(a, &self.solids, dy)
        } else {
            slide_up(a, &self.solids, dy)
        };
        let moved = Rect { x: a.x, y: a.y + step, w: a.w, h: a.h };
        self.actors[handle.index] = moved;
        proof {
            assert(moved == moved_v(a, self.solids@, dy as int));
            assert forall|i: int| 0 <= i < self.actors@.len() implies rect_wf(
                #[trigger] self.actors@[i],
            ) by {
                if i != handle.index as int {
                    assert(self.actors@[i] == old(self).actors@[i]);
                }
            }
        }
        step != dy
    }
}

/// Law: registering a moving body and immediately querying its position
/// returns exactly the initial position supplied at registration.
/// `actors` is the register of moving bodies before the registration;
/// the new handle designates the entry `actors.len()`.
pub proof fn lemma_register_round_trip(actors: Seq<Rect>, pos: Vec2i, width: i64, height: i64)
    ensures
        ({
            let after = actors.push(rect_at(pos, width, height));
            let handle = actors.len() as int;
            after[handle].x == pos.x && after[handle].y == pos.y
        }),
{
}

/// Law: in a world with no solids, a horizontal move by `dx` followed by
/// a vertical move by `dy` translates the body by exactly `(dx, dy)`:
/// the core movement contract adds no gravity and no damping.
pub proof fn lemma_unobstructed_translation(a: Rect, solids: Seq<Rect>, dx: int, dy: int)
    requires
        solids.len() == 0,
        rect_wf(a),
        in_coord_range(a.x + dx),
        in_coord_range(a.y + dy),
    ensures
        ({
            let afterward = moved_v(moved_h(a, solids, dx), solids, dy);
            afterward.x == a.x + dx && afterward.y == a.y + dy
        }),
{
}

} // verus!
