use vstd::prelude::*;
use crate::assets::{lookup, AssetHandle, AssetTable};
use crate::attributes::{Position, Renderable, Velocity, SUBPIXELS};
use crate::motion::{lemma_updates_keep_kinds, moved_n};
use crate::render::{drawn_count, is_drawn, lemma_drawn_count_by_kinds};
use crate::world::{EntityView, World};

verus! {

/// Columns of the spawned grid.
pub const GRID_WIDTH: usize = 20;

/// Rows of the spawned grid.
pub const GRID_HEIGHT: usize = 20;

/// Number of entities the grid spawns.
pub const GRID_SIZE: usize = GRID_WIDTH * GRID_HEIGHT;

/// Bound on each initial velocity component, in subpixels: components are drawn
/// from `[-MAX_SPEED, MAX_SPEED)`.
pub const MAX_SPEED: i64 = 2 * SUBPIXELS;

/// Name under which the entities' texture is registered.
pub const TEXTURE_NAME: &'static str = "goblin";

/// Entity `k` of the grid: column `k / GRID_HEIGHT`, row `k % GRID_HEIGHT`, one
/// pixel apart, with the given velocity and texture name.
pub open spec fn grid_entity(k: int, name: Seq<char>, v: Velocity) -> EntityView {
    EntityView {
        position: Some(
            Position {
                x: ((k / GRID_HEIGHT as int) * SUBPIXELS) as i64,
                y: ((k % GRID_HEIGHT as int) * SUBPIXELS) as i64,
            },
        ),
        velocity: Some(v),
        renderable: Some(name),
    }
}

/// Spawns the grid: entity `k` gets grid position `k`, velocity `velocities[k]`
/// and a renderable naming `name`.
pub fn spawn_grid(world: &mut World, name: &String, velocities: &Vec<Velocity>)
    requires
        old(world).wf(),
        old(world)@.len() + GRID_SIZE < usize::MAX,
        velocities@.len() == GRID_SIZE,
        forall|k: int| 0 <= k < velocities@.len() ==> (#[trigger] velocities@[k]).wf(),
    ensures
        final(world).wf(),
        final(world)@.len() == old(world)@.len() + GRID_SIZE,
        forall|i: int| 0 <= i < old(world)@.len() ==> #[trigger] final(world)@[i] == old(world)@[i],
        forall|k: int|
            0 <= k < GRID_SIZE ==> #[trigger] final(world)@[old(world)@.len() + k] == grid_entity(
                k,
                name@,
                velocities@[k],
            ),
{
    let base = world.len();
    let mut k: usize = 0;
    while k < GRID_SIZE
        invariant
            world.wf(),
            base == old(world)@.len(),
            base + GRID_SIZE < usize::MAX,
            k <= GRID_SIZE,
            velocities@.len() == GRID_SIZE,
            forall|j: int| 0 <= j < velocities@.len() ==> (#[trigger] velocities@[j]).wf(),
            world@.len() == base + k,
            forall|i: int| 0 <= i < base ==> #[trigger] world@[i] == old(world)@[i],
            forall|j: int|
                0 <= j < k ==> #[trigger] world@[base + j] == grid_entity(j, name@, velocities@[j]),
        decreases GRID_SIZE - k,
    {
        let e = world.create_entity();
        let column = (k / GRID_HEIGHT) as i64;
        let row = (k % GRID_HEIGHT) as i64;
        world.attach_position(e, Position { x: column * SUBPIXELS, y: row * SUBPIXELS });
        world.attach_velocity(e, velocities[k]);
        world.attach_renderable(e, Renderable { resource_name: name.clone() });
        assert(world@[base + k as int] == grid_entity(k as int, name@, velocities@[k as int]));
        k = k + 1;
    }
}

proof fn lemma_all_drawn(s: Seq<EntityView>, n: nat)
    requires
        n <= s.len(),
        forall|i: int| 0 <= i < n ==> is_drawn(#[trigger] s[i]),
    ensures
        drawn_count(s, n) == n,
    decreases n,
{
    if n > 0 {
        lemma_all_drawn(s, (n - 1) as nat);
    }
}

/// A world set up with the grid draws every one of its entities, in the first
/// frame and after any number of Updates.
pub proof fn lemma_grid_drawn_every_frame(w: Seq<EntityView>, updates: nat)
    requires
        w.len() == GRID_SIZE,
        forall|k: int|
            0 <= k < GRID_SIZE ==> #[trigger] w[k] == grid_entity(
                k,
                TEXTURE_NAME@,
                w[k].velocity->Some_0,
            ),
    ensures
        drawn_count(Seq::new(w.len(), |i: int| moved_n(w[i], updates)), GRID_SIZE as nat)
            == GRID_SIZE,
{
    let after = Seq::new(w.len(), |i: int| moved_n(w[i], updates));
    assert forall|i: int| 0 <= i < GRID_SIZE implies (#[trigger] w[i]).kinds() == after[i].kinds() by {
        lemma_updates_keep_kinds(w[i], updates);
    }
    assert forall|i: int| 0 <= i < GRID_SIZE implies is_drawn(#[trigger] w[i]) by {
        assert(w[i] == grid_entity(i, TEXTURE_NAME@, w[i].velocity->Some_0));
    }
    lemma_all_drawn(w, GRID_SIZE as nat);
    lemma_drawn_count_by_kinds(w, after, GRID_SIZE as nat);
}

/// Relies on rand's `Rng::gen_range` over a half-open integer range, drawn from
/// `thread_rng()`: the value lies in `[low, high)`; the call panics on an empty range.
#[verifier::external_body]
fn random_in(low: i64, high: i64) -> (r: i64)
    requires
        low < high,
    ensures
        low <= r < high,
{
    rand::Rng::gen_range(&mut rand::thread_rng(), low..high)
}

/// `n` velocities whose components are drawn independently from
/// `[-MAX_SPEED, MAX_SPEED)`.
pub fn random_velocities(n: usize) -> (r: Vec<Velocity>)
    ensures
        r@.len() == n,
        forall|k: int|
            0 <= k < n ==> -MAX_SPEED <= (#[trigger] r@[k]).dx < MAX_SPEED && -MAX_SPEED
                <= r@[k].dy < MAX_SPEED,
{
    let mut r: Vec<Velocity> = Vec::new();
    let mut k: usize = 0;
    while k < n
        invariant
            k <= n,
            r@.len() == k,
            forall|j: int|
                0 <= j < k ==> -MAX_SPEED <= (#[trigger] r@[j]).dx < MAX_SPEED && -MAX_SPEED
                    <= r@[j].dy < MAX_SPEED,
        decreases n - k,
    {
        let dx = random_in(-MAX_SPEED, MAX_SPEED);
        let dy = random_in(-MAX_SPEED, MAX_SPEED);
        r.push(Velocity { dx, dy });
        k = k + 1;
    }
    r
}

/// The Setup stage: registers `texture` under `TEXTURE_NAME`, then spawns the grid
/// with the given velocities, every entity naming that texture.
pub fn setup_with(
    world: &mut World,
    assets: &mut AssetTable,
    texture: AssetHandle,
    velocities: &Vec<Velocity>,
)
    requires
        old(world).wf(),
        old(assets).wf(),
        old(world)@.len() + GRID_SIZE < usize::MAX,
        velocities@.len() == GRID_SIZE,
        forall|k: int| 0 <= k < velocities@.len() ==> (#[trigger] velocities@[k]).wf(),
    ensures
        final(world).wf(),
        final(assets).wf(),
        final(assets)@ == old(assets)@.push((TEXTURE_NAME@, texture)),
        lookup(final(assets)@, TEXTURE_NAME@) == Some(texture),
        final(world)@.len() == old(world)@.len() + GRID_SIZE,
        forall|i: int| 0 <= i < old(world)@.len() ==> #[trigger] final(world)@[i] == old(world)@[i],
        forall|k: int|
            0 <= k < GRID_SIZE ==> #[trigger] final(world)@[old(world)@.len() + k] == grid_entity(
                k,
                TEXTURE_NAME@,
                velocities@[k],
            ),
{
    let name = TEXTURE_NAME.to_owned();
    assets.insert(name.clone(), texture);
    spawn_grid(world, &name, velocities);
}

/// The Setup stage with velocities drawn at random from `[-MAX_SPEED, MAX_SPEED)`.
pub fn setup(world: &mut World, assets: &mut AssetTable, texture: AssetHandle)
    requires
        old(world).wf(),
        old(assets).wf(),
        old(world)@.len() + GRID_SIZE < usize::MAX,
    ensures
        final(world).wf(),
        final(assets).wf(),
        lookup(final(assets)@, TEXTURE_NAME@) == Some(texture),
        final(world)@.len() == old(world)@.len() + GRID_SIZE,
        forall|i: int| 0 <= i < old(world)@.len() ==> #[trigger] final(world)@[i] == old(world)@[i],
        forall|k: int|
            0 <= k < GRID_SIZE ==> {
                let e = #[trigger] final(world)@[old(world)@.len() + k];
                let v = e.velocity->Some_0;
                &&& e == grid_entity(k, TEXTURE_NAME@, v)
                &&& -MAX_SPEED <= v.dx < MAX_SPEED
                &&& -MAX_SPEED <= v.dy < MAX_SPEED
            },
{
    let velocities = random_velocities(GRID_SIZE);
    setup_with(world, assets, texture, &velocities);
}

} // verus!
