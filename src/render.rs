use vstd::prelude::*;
use crate::assets::{lookup, AssetHandle, AssetTable};
use crate::attributes::{EntityId, KindSet, SUBPIXELS};
use crate::world::{EntityView, World};

verus! {

/// One textured quad to draw, at integer pixel coordinates.
#[derive(Clone, Copy, Debug, PartialEq, Eq, Structural)]
pub struct DrawCommand {
    pub handle: AssetHandle,
    pub x: i32,
    pub y: i32,
}

/// A rendered entity's name resolves to no asset.
#[derive(Clone, Copy, Debug, PartialEq, Eq, Structural)]
pub enum RenderError {
    UnresolvedAsset { entity: EntityId },
}

/// Whether the Render stage draws the entity: it has a position and a renderable.
pub open spec fn is_drawn(e: EntityView) -> bool {
    e.position is Some && e.renderable is Some
}

/// Whether a drawn entity's resource name is missing from the asset table.
pub open spec fn is_unresolved(e: EntityView, assets: Seq<(Seq<char>, AssetHandle)>) -> bool {
    is_drawn(e) && lookup(assets, e.renderable->Some_0) is None
}

/// A subpixel coordinate as a pixel: divided with truncation toward zero, then
/// held to the range of `i32`.
pub open spec fn pixel_of(v: i64) -> i32 {
    let t: int = if v >= 0 {
        v as int / SUBPIXELS as int
    } else {
        -((-v) / SUBPIXELS as int)
    };
    if t > i32::MAX {
        i32::MAX
    } else if t < i32::MIN {
        i32::MIN
    } else {
        t as i32
    }
}

/// The draw for a drawn entity whose name resolves.
pub open spec fn draw_of(e: EntityView, assets: Seq<(Seq<char>, AssetHandle)>) -> DrawCommand {
    DrawCommand {
        handle: lookup(assets, e.renderable->Some_0)->Some_0,
        x: pixel_of(e.position->Some_0.x),
        y: pixel_of(e.position->Some_0.y),
    }
}

/// The draws for the drawn entities among the first `n`, in entity order.
pub open spec fn frame_draws(
    entities: Seq<EntityView>,
    assets: Seq<(Seq<char>, AssetHandle)>,
    n: nat,
) -> Seq<DrawCommand>
    decreases n,
{
    if n == 0 {
        Seq::empty()
    } else if is_drawn(entities[n - 1]) {
        frame_draws(entities, assets, (n - 1) as nat).push(draw_of(entities[n - 1], assets))
    } else {
        frame_draws(entities, assets, (n - 1) as nat)
    }
}

/// How many of the first `n` entities the Render stage draws.
pub open spec fn drawn_count(entities: Seq<EntityView>, n: nat) -> nat
    decreases n,
{
    if n == 0 {
        0
    } else if is_drawn(entities[n - 1]) {
        drawn_count(entities, (n - 1) as nat) + 1
    } else {
        drawn_count(entities, (n - 1) as nat)
    }
}

/// A frame holds one draw per drawn entity.
pub proof fn lemma_draws_counted(
    entities: Seq<EntityView>,
    assets: Seq<(Seq<char>, AssetHandle)>,
    n: nat,
)
    ensures
        frame_draws(entities, assets, n).len() == drawn_count(entities, n),
    decreases n,
{
    if n > 0 {
        lemma_draws_counted(entities, assets, (n - 1) as nat);
    }
}

/// Entities that carry the same kinds are drawn in the same number.
pub proof fn lemma_drawn_count_by_kinds(a: Seq<EntityView>, b: Seq<EntityView>, n: nat)
    requires
        n <= a.len(),
        n <= b.len(),
        forall|i: int| 0 <= i < n ==> (#[trigger] a[i]).kinds() == b[i].kinds(),
    ensures
        drawn_count(a, n) == drawn_count(b, n),
    decreases n,
{
    if n > 0 {
        assert(a[n - 1].kinds() == b[n - 1].kinds());
        lemma_drawn_count_by_kinds(a, b, (n - 1) as nat);
    }
}

fn pixel(v: i64) -> (r: i32)
    ensures
        r == pixel_of(v),
{
    let t: i64 = if v >= 0 {
        ((v as u64) / (SUBPIXELS as u64)) as i64
    } else {
        let m: u64 = (-(v + 1)) as u64 + 1;
        -((m / (SUBPIXELS as u64)) as i64)
    };
    if t > i32::MAX as i64 {
        i32::MAX
    } else if t < i32::MIN as i64 {
        i32::MIN
    } else {
        t as i32
    }
}

impl World {
    /// The Render stage's draw list: for each entity with a position and a
    /// renderable, in entity order, its resolved asset at its truncated pixel
    /// position. Fails on the first such entity whose name does not resolve.
    pub fn plan_frame(&self, assets: &AssetTable) -> (r: Result<Vec<DrawCommand>, RenderError>)
        requires
            self.wf(),
            assets.wf(),
        ensures
            r is Ok <==> forall|i: int| 0 <= i < self@.len() ==> !is_unresolved(#[trigger] self@[i], assets@),
            r matches Ok(d) ==> d@ == frame_draws(self@, assets@, self@.len()),
            r matches Err(RenderError::UnresolvedAsset { entity }) ==> {
                &&& entity.0 < self@.len()
                &&& is_unresolved(self@[entity.0 as int], assets@)
                &&& forall|j: int| 0 <= j < entity.0 ==> !is_unresolved(#[trigger] self@[j], assets@)
            },
    {
        let n = self.len();
        let required = KindSet { position: true, velocity: false, renderable: true };
        let mut draws: Vec<DrawCommand> = Vec::new();
        let mut i: usize = 0;
        while i < n
            invariant
                self.wf(),
                assets.wf(),
                n == self@.len(),
                i <= n,
                required.position && !required.velocity && required.renderable,
                draws@ == frame_draws(self@, assets@, i as nat),
                forall|j: int| 0 <= j < i ==> !is_unresolved(#[trigger] self@[j], assets@),
            decreases n - i,
        {
            let e = EntityId(i);
            if self.has(e, &required) {
                match (self.position(e), self.renderable(e)) {
                    (Ok(p), Ok(rend)) => {
                        match assets.resolve(&rend.resource_name) {
                            Some(h) => {
                                draws.push(DrawCommand { handle: h, x: pixel(p.x), y: pixel(p.y) });
                            },
                            None => {
                                return Err(RenderError::UnresolvedAsset { entity: e });
                            },
                        }
                    },
                    _ => {},
                }
            }
            i = i + 1;
        }
        Ok(draws)
    }
}

} // verus!
