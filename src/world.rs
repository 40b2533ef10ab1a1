use vstd::prelude::*;
use crate::attributes::{EntityId, KindSet, MissingAttribute, Position, Renderable, Velocity};
use crate::store::AttributeStore;

verus! {

/// Everything known of one entity: the attributes attached to it.
pub struct EntityView {
    pub position: Option<Position>,
    pub velocity: Option<Velocity>,
    pub renderable: Option<Seq<char>>,
}

impl EntityView {
    /// An entity with no attribute yet.
    pub open spec fn empty() -> EntityView {
        EntityView { position: None, velocity: None, renderable: None }
    }

    /// The kinds of attribute the entity carries.
    pub open spec fn kinds(self) -> KindSet {
        KindSet {
            position: self.position is Some,
            velocity: self.velocity is Some,
            renderable: self.renderable is Some,
        }
    }
}

/// The entity registry together with one attribute store per kind.
pub struct World {
    kinds: Vec<KindSet>,
    positions: AttributeStore<Position>,
    velocities: AttributeStore<Velocity>,
    renderables: AttributeStore<Renderable>,
}

impl View for World {
    type V = Seq<EntityView>;

    /// Entity `i` of the sequence is the one with identity `EntityId(i)`.
    closed spec fn view(&self) -> Seq<EntityView> {
        Seq::new(
            self.kinds@.len(),
            |i: int|
                EntityView {
                    position: if self.positions@.contains_key(i as usize) {
                        Some(self.positions@[i as usize])
                    } else {
                        None
                    },
                    velocity: if self.velocities@.contains_key(i as usize) {
                        Some(self.velocities@[i as usize])
                    } else {
                        None
                    },
                    renderable: if self.renderables@.contains_key(i as usize) {
                        Some(self.renderables@[i as usize].resource_name@)
                    } else {
                        None
                    },
                },
        )
    }
}

impl World {
    /// The registry records exactly the kinds that the stores hold, the stores
    /// hold values for issued identities only, and every velocity can be negated.
    pub closed spec fn wf(&self) -> bool {
        &&& self.kinds@.len() <= usize::MAX
        &&& forall|i: int|
            0 <= i < self.kinds@.len() ==> {
                &&& (#[trigger] self.kinds@[i]).position == self.positions@.contains_key(i as usize)
                &&& self.kinds@[i].velocity == self.velocities@.contains_key(i as usize)
                &&& self.kinds@[i].renderable == self.renderables@.contains_key(i as usize)
            }
        &&& forall|k: usize| #[trigger] self.positions@.contains_key(k) ==> k < self.kinds@.len()
        &&& forall|k: usize| #[trigger] self.velocities@.contains_key(k) ==> k < self.kinds@.len()
        &&& forall|k: usize| #[trigger] self.renderables@.contains_key(k) ==> k < self.kinds@.len()
        &&& forall|k: usize| #[trigger] self.velocities@.contains_key(k) ==> self.velocities@[k].wf()
    }

    proof fn lemma_kinds_match(&self, i: int)
        requires
            self.wf(),
            0 <= i < self@.len(),
        ensures
            self.kinds@[i] == self@[i].kinds(),
            self@[i].velocity matches Some(v) ==> v.wf(),
    {
    }

    /// Every velocity in a well-formed world can be negated.
    pub proof fn lemma_velocity_wf(&self, i: int)
        requires
            self.wf(),
            0 <= i < self@.len(),
        ensures
            self@[i].velocity matches Some(v) ==> v.wf(),
    {
    }

    pub fn new() -> (r: World)
        ensures
            r.wf(),
            r@ == Seq::<EntityView>::empty(),
    {
        let r = World {
            kinds: Vec::new(),
            positions: AttributeStore::new(),
            velocities: AttributeStore::new(),
            renderables: AttributeStore::new(),
        };
        assert(r@ =~= Seq::<EntityView>::empty());
        r
    }

    /// Number of entities issued so far.
    pub fn len(&self) -> (r: usize)
        ensures
            r == self@.len(),
    {
        self.kinds.len()
    }

    /// Issues a fresh identity, never issued before, with no attribute.
    pub fn create_entity(&mut self) -> (r: EntityId)
        requires
            old(self).wf(),
            old(self)@.len() < usize::MAX,
        ensures
            final(self).wf(),
            r.0 == old(self)@.len(),
            final(self)@ == old(self)@.push(EntityView::empty()),
    {
        let r = EntityId(self.kinds.len());
        self.kinds.push(KindSet::none());
        assert(self@ =~= old(self)@.push(EntityView::empty()));
        r
    }

    /// Attaches (or overwrites) the position of `e`.
    pub fn attach_position(&mut self, e: EntityId, p: Position)
        requires
            old(self).wf(),
            e.0 < old(self)@.len(),
        ensures
            final(self).wf(),
            final(self)@ == old(self)@.update(
                e.0 as int,
                EntityView { position: Some(p), ..old(self)@[e.0 as int] },
            ),
    {
        self.positions.set(e, p);
        let mut k = self.kinds[e.0];
        k.position = true;
        self.kinds.set(e.0, k);
        proof {
            assert forall|i: int| 0 <= i < self.kinds@.len() && i != e.0 implies (i as usize) != e.0
                && #[trigger] self.kinds@[i] == old(self).kinds@[i] by {}
            assert forall|i: int| 0 <= i < self.kinds@.len() && i == e.0 implies (i as usize) == e.0
                && #[trigger] self.kinds@[i] == k by {}
        }
        assert(self@ =~= old(self)@.update(
            e.0 as int,
            EntityView { position: Some(p), ..old(self)@[e.0 as int] },
        ));
    }

    /// Attaches (or overwrites) the velocity of `e`.
    pub fn attach_velocity(&mut self, e: EntityId, v: Velocity)
        requires
            old(self).wf(),
            e.0 < old(self)@.len(),
            v.wf(),
        ensures
            final(self).wf(),
            final(self)@ == old(self)@.update(
                e.0 as int,
                EntityView { velocity: Some(v), ..old(self)@[e.0 as int] },
            ),
    {
        self.velocities.set(e, v);
        let mut k = self.kinds[e.0];
        k.velocity = true;
        self.kinds.set(e.0, k);
        proof {
            assert forall|i: int| 0 <= i < self.kinds@.len() && i != e.0 implies (i as usize) != e.0
                && #[trigger] self.kinds@[i] == old(self).kinds@[i] by {}
            assert forall|i: int| 0 <= i < self.kinds@.len() && i == e.0 implies (i as usize) == e.0
                && #[trigger] self.kinds@[i] == k by {}
        }
        assert(self@ =~= old(self)@.update(
            e.0 as int,
            EntityView { velocity: Some(v), ..old(self)@[e.0 as int] },
        ));
    }

    /// Attaches (or overwrites) the renderable of `e`.
    pub fn attach_renderable(&mut self, e: EntityId, r: Renderable)
        requires
            old(self).wf(),
            e.0 < old(self)@.len(),
        ensures
            final(self).wf(),
            final(self)@ == old(self)@.update(
                e.0 as int,
                EntityView { renderable: Some(r.resource_name@), ..old(self)@[e.0 as int] },
            ),
    {
        let ghost name = r.resource_name@;
        self.renderables.set(e, r);
        let mut k = self.kinds[e.0];
        k.renderable = true;
        self.kinds.set(e.0, k);
        proof {
            assert forall|i: int| 0 <= i < self.kinds@.len() && i != e.0 implies (i as usize) != e.0
                && #[trigger] self.kinds@[i] == old(self).kinds@[i] by {}
            assert forall|i: int| 0 <= i < self.kinds@.len() && i == e.0 implies (i as usize) == e.0
                && #[trigger] self.kinds@[i] == k by {}
        }
        assert(self@ =~= old(self)@.update(
            e.0 as int,
            EntityView { renderable: Some(name), ..old(self)@[e.0 as int] },
        ));
    }

    /// Whether `e` exists and carries every kind in `required`.
    pub fn has(&self, e: EntityId, required: &KindSet) -> (r: bool)
        requires
            self.wf(),
        ensures
            r == (e.0 < self@.len() && required.subset_of(self@[e.0 as int].kinds())),
    {
        if e.0 < self.kinds.len() {
            proof {
                self.lemma_kinds_match(e.0 as int);
            }
            required.is_subset_of(&self.kinds[e.0])
        } else {
            false
        }
    }

    /// The position of `e`, or `MissingAttribute` where it has none.
    pub fn position(&self, e: EntityId) -> (r: Result<Position, MissingAttribute>)
        requires
            self.wf(),
        ensures
            e.0 < self@.len() && self@[e.0 as int].position is Some ==> r == Ok::<
                Position,
                MissingAttribute,
            >(self@[e.0 as int].position->Some_0),
            !(e.0 < self@.len() && self@[e.0 as int].position is Some) ==> r == Err::<
                Position,
                MissingAttribute,
            >(MissingAttribute { entity: e }),
    {
        match self.positions.get(e) {
            Ok(p) => Ok(*p),
            Err(m) => Err(m),
        }
    }

    /// The velocity of `e`, or `MissingAttribute` where it has none.
    pub fn velocity(&self, e: EntityId) -> (r: Result<Velocity, MissingAttribute>)
        requires
            self.wf(),
        ensures
            e.0 < self@.len() && self@[e.0 as int].velocity is Some ==> r == Ok::<
                Velocity,
                MissingAttribute,
            >(self@[e.0 as int].velocity->Some_0),
            !(e.0 < self@.len() && self@[e.0 as int].velocity is Some) ==> r == Err::<
                Velocity,
                MissingAttribute,
            >(MissingAttribute { entity: e }),
    {
        match self.velocities.get(e) {
            Ok(v) => Ok(*v),
            Err(m) => Err(m),
        }
    }

    /// The renderable of `e`, or `MissingAttribute` where it has none.
    pub fn renderable(&self, e: EntityId) -> (r: Result<&Renderable, MissingAttribute>)
        requires
            self.wf(),
        ensures
            match r {
                Ok(v) => e.0 < self@.len() && self@[e.0 as int].renderable == Some(
                    v.resource_name@,
                ),
                Err(m) => !(e.0 < self@.len() && self@[e.0 as int].renderable is Some)
                    && m.entity == e,
            },
    {
        self.renderables.get(e)
    }
}

} // verus!
