use vstd::prelude::*;
use crate::attributes::{EntityId, KindSet, Position, Velocity, SUBPIXELS};
use crate::world::{EntityView, World};

verus! {

/// Width of the viewport, in pixels.
pub const VIEWPORT_WIDTH: i64 = 1280;

/// Height of the viewport, in pixels.
pub const VIEWPORT_HEIGHT: i64 = 720;

/// Largest in-range x, in subpixels.
pub const X_LIMIT: i64 = VIEWPORT_WIDTH * SUBPIXELS;

/// Largest in-range y, in subpixels.
pub const Y_LIMIT: i64 = VIEWPORT_HEIGHT * SUBPIXELS;

/// `x` held to the range of `i64`.
pub open spec fn saturate(x: int) -> int {
    if x < i64::MIN {
        i64::MIN as int
    } else if x > i64::MAX {
        i64::MAX as int
    } else {
        x
    }
}

/// One axis after one frame: the coordinate moves by the speed (held to `i64`),
/// and the speed changes sign when the moved coordinate lies outside `[0, limit]`.
/// The coordinate itself is not pulled back into range.
pub open spec fn axis_step(p: i64, v: i64, limit: int) -> (i64, i64) {
    let np = saturate(p + v) as i64;
    let nv = if np < 0 || np > limit {
        -v
    } else {
        v as int
    };
    (np, nv as i64)
}

/// The position and velocity of an entity after one frame of motion.
pub open spec fn motion_step(p: Position, v: Velocity) -> (Position, Velocity) {
    let (x, dx) = axis_step(p.x, v.dx, X_LIMIT as int);
    let (y, dy) = axis_step(p.y, v.dy, Y_LIMIT as int);
    (Position { x, y }, Velocity { dx, dy })
}

/// An entity after one Update: one carrying both position and velocity moves;
/// any other is left as it was.
pub open spec fn moved(e: EntityView) -> EntityView {
    match (e.position, e.velocity) {
        (Some(p), Some(v)) => EntityView {
            position: Some(motion_step(p, v).0),
            velocity: Some(motion_step(p, v).1),
            renderable: e.renderable,
        },
        _ => e,
    }
}

/// An entity after `n` Updates.
pub open spec fn moved_n(e: EntityView, n: nat) -> EntityView
    decreases n,
{
    if n == 0 {
        e
    } else {
        moved(moved_n(e, (n - 1) as nat))
    }
}

fn axis_advance(p: i64, v: i64, limit: i64) -> (r: (i64, i64))
    requires
        v != i64::MIN,
    ensures
        r == axis_step(p, v, limit as int),
        r.1 != i64::MIN,
{
    let np: i64 = if v > 0 && p > i64::MAX - v {
        i64::MAX
    } else if v < 0 && p < i64::MIN - v {
        i64::MIN
    } else {
        p + v
    };
    let nv: i64 = if np < 0 || np > limit {
        -v
    } else {
        v
    };
    (np, nv)
}

/// Advances one entity's position by its velocity and reflects the velocity
/// on each axis where the new position left the viewport.
pub fn advance(p: Position, v: Velocity) -> (r: (Position, Velocity))
    requires
        v.wf(),
    ensures
        r == motion_step(p, v),
        r.1.wf(),
{
    let (x, dx) = axis_advance(p.x, v.dx, X_LIMIT);
    let (y, dy) = axis_advance(p.y, v.dy, Y_LIMIT);
    (Position { x, y }, Velocity { dx, dy })
}

impl World {
    /// The Update stage: moves every entity that carries both a position and a
    /// velocity, and leaves every other attribute and entity as it was.
    pub fn run_update(&mut self)
        requires
            old(self).wf(),
        ensures
            final(self).wf(),
            final(self)@.len() == old(self)@.len(),
            forall|i: int| 0 <= i < old(self)@.len() ==> final(self)@[i] == moved(#[trigger] old(self)@[i]),
    {
        let n = self.len();
        let mut i: usize = 0;
        let required = KindSet { position: true, velocity: true, renderable: false };
        while i < n
            invariant
                self.wf(),
                n == old(self)@.len(),
                self@.len() == n,
                required.position && required.velocity && !required.renderable,
                i <= n,
                forall|j: int| 0 <= j < i ==> self@[j] == moved(#[trigger] old(self)@[j]),
                forall|j: int| i <= j < n ==> #[trigger] self@[j] == old(self)@[j],
            decreases n - i,
        {
            let e = EntityId(i);
            assert(self@[i as int] == old(self)@[i as int]);
            if self.has(e, &required) {
                let p = self.position(e);
                let v = self.velocity(e);
                match (p, v) {
                    (Ok(p), Ok(v)) => {
                        proof {
                            self.lemma_velocity_wf(i as int);
                        }
                        let (np, nv) = advance(p, v);
                        self.attach_position(e, np);
                        self.attach_velocity(e, nv);
                    },
                    _ => {},
                }
            }
            assert(self@[i as int] == moved(old(self)@[i as int]));
            i = i + 1;
        }
    }
}

/// Updates never add or remove an attribute.
pub proof fn lemma_updates_keep_kinds(e: EntityView, n: nat)
    ensures
        moved_n(e, n).kinds() == e.kinds(),
    decreases n,
{
    if n > 0 {
        lemma_updates_keep_kinds(e, (n - 1) as nat);
    }
}

/// One Update with no boundary crossed moves the entity by exactly its velocity
/// and keeps the velocity.
pub proof fn lemma_update_translates(e: EntityView)
    requires
        e.position is Some,
        e.velocity is Some,
        0 <= e.position->Some_0.x + e.velocity->Some_0.dx <= X_LIMIT,
        0 <= e.position->Some_0.y + e.velocity->Some_0.dy <= Y_LIMIT,
    ensures
        moved(e).position->Some_0.x == e.position->Some_0.x + e.velocity->Some_0.dx,
        moved(e).position->Some_0.y == e.position->Some_0.y + e.velocity->Some_0.dy,
        moved(e).velocity == e.velocity,
        moved(e).renderable == e.renderable,
{
}

/// One Update reflects the velocity on each axis whose moved coordinate left the
/// viewport, and keeps it on each axis whose coordinate stayed inside.
pub proof fn lemma_update_reflects(e: EntityView)
    requires
        e.position is Some,
        e.velocity is Some,
        e.velocity->Some_0.wf(),
    ensures
        ({
            let (p, v) = (e.position->Some_0, e.velocity->Some_0);
            &&& (p.x + v.dx < 0 || p.x + v.dx > X_LIMIT) ==> moved(e).velocity->Some_0.dx == -v.dx
            &&& (0 <= p.x + v.dx <= X_LIMIT) ==> moved(e).velocity->Some_0.dx == v.dx
            &&& (p.y + v.dy < 0 || p.y + v.dy > Y_LIMIT) ==> moved(e).velocity->Some_0.dy == -v.dy
            &&& (0 <= p.y + v.dy <= Y_LIMIT) ==> moved(e).velocity->Some_0.dy == v.dy
        }),
{
}

/// Repeated Updates that cross no boundary extrapolate linearly: after `n` of
/// them the position is the start plus `n` times the unchanged velocity.
pub proof fn lemma_updates_extrapolate(e: EntityView, n: nat)
    requires
        e.position is Some,
        e.velocity is Some,
        forall|k: int|
            1 <= k <= n ==> 0 <= #[trigger] (e.position->Some_0.x + k * e.velocity->Some_0.dx)
                <= X_LIMIT,
        forall|k: int|
            1 <= k <= n ==> 0 <= #[trigger] (e.position->Some_0.y + k * e.velocity->Some_0.dy)
                <= Y_LIMIT,
    ensures
        moved_n(e, n).position == Some(
            Position {
                x: (e.position->Some_0.x + n * e.velocity->Some_0.dx) as i64,
                y: (e.position->Some_0.y + n * e.velocity->Some_0.dy) as i64,
            },
        ),
        moved_n(e, n).velocity == e.velocity,
        moved_n(e, n).renderable == e.renderable,
    decreases n,
{
    let (p, v) = (e.position->Some_0, e.velocity->Some_0);
    if n > 0 {
        let m = (n - 1) as nat;
        assert forall|k: int| 1 <= k <= m implies 0 <= #[trigger] (p.x + k * v.dx) <= X_LIMIT by {
            assert(p.x + k * v.dx == e.position->Some_0.x + k * e.velocity->Some_0.dx);
        }
        assert forall|k: int| 1 <= k <= m implies 0 <= #[trigger] (p.y + k * v.dy) <= Y_LIMIT by {
            assert(p.y + k * v.dy == e.position->Some_0.y + k * e.velocity->Some_0.dy);
        }
        lemma_updates_extrapolate(e, m);
        assert(p.x + n * v.dx == (p.x + m * v.dx) + v.dx) by (nonlinear_arith)
            requires
                n == m + 1,
        ;
        assert(p.y + n * v.dy == (p.y + m * v.dy) + v.dy) by (nonlinear_arith)
            requires
                n == m + 1,
        ;
        assert(0 <= p.x + n * v.dx <= X_LIMIT);
        assert(0 <= p.y + n * v.dy <= Y_LIMIT);
    } else {
        assert(p.x + n * v.dx == p.x) by (nonlinear_arith)
            requires
                n == 0,
        ;
        assert(p.y + n * v.dy == p.y) by (nonlinear_arith)
            requires
                n == 0,
        ;
    }
}

} // verus!
