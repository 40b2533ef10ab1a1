use vstd::prelude::*;

verus! {

/// An opaque reference to a loaded presentation resource (the index under which
/// the presentation side keeps it).
#[derive(Clone, Copy, Debug, PartialEq, Eq, Structural)]
pub struct AssetHandle(pub usize);

/// The entry for `name` among the first `n` entries, the latest one winning.
pub open spec fn lookup_below(
    entries: Seq<(Seq<char>, AssetHandle)>,
    name: Seq<char>,
    n: nat,
) -> Option<AssetHandle>
    decreases n,
{
    if n == 0 {
        None
    } else if entries[n - 1].0 == name {
        Some(entries[n - 1].1)
    } else {
        lookup_below(entries, name, (n - 1) as nat)
    }
}

/// The handle that `name` resolves to: that of its latest entry.
pub open spec fn lookup(entries: Seq<(Seq<char>, AssetHandle)>, name: Seq<char>) -> Option<
    AssetHandle,
> {
    lookup_below(entries, name, entries.len())
}

/// Map from resource names to handles, filled during setup and read afterwards.
pub struct AssetTable {
    names: Vec<String>,
    handles: Vec<AssetHandle>,
}

impl View for AssetTable {
    type V = Seq<(Seq<char>, AssetHandle)>;

    /// The entries in the order they were inserted.
    closed spec fn view(&self) -> Seq<(Seq<char>, AssetHandle)> {
        Seq::new(self.names@.len(), |i: int| (self.names@[i]@, self.handles@[i]))
    }
}

proof fn lemma_lookup_below_push(
    entries: Seq<(Seq<char>, AssetHandle)>,
    entry: (Seq<char>, AssetHandle),
    name: Seq<char>,
    n: nat,
)
    requires
        n <= entries.len(),
    ensures
        lookup_below(entries.push(entry), name, n) == lookup_below(entries, name, n),
    decreases n,
{
    if n > 0 {
        lemma_lookup_below_push(entries, entry, name, (n - 1) as nat);
    }
}

/// Resolving a name is a function of the table and the name: resolving the same
/// name twice gives the same handle.
pub proof fn lemma_resolve_idempotent(
    entries: Seq<(Seq<char>, AssetHandle)>,
    first: Seq<char>,
    second: Seq<char>,
)
    requires
        first == second,
    ensures
        lookup(entries, first) == lookup(entries, second),
{
}

impl AssetTable {
    pub closed spec fn wf(&self) -> bool {
        self.names@.len() == self.handles@.len()
    }

    pub fn new() -> (r: AssetTable)
        ensures
            r.wf(),
            r@ == Seq::<(Seq<char>, AssetHandle)>::empty(),
    {
        let r = AssetTable { names: Vec::new(), handles: Vec::new() };
        assert(r@ =~= Seq::<(Seq<char>, AssetHandle)>::empty());
        r
    }

    /// Binds `name` to `handle`; a later binding of a name replaces an earlier one.
    pub fn insert(&mut self, name: String, handle: AssetHandle)
        requires
            old(self).wf(),
        ensures
            final(self).wf(),
            final(self)@ == old(self)@.push((name@, handle)),
            lookup(final(self)@, name@) == Some(handle),
            forall|other: Seq<char>|
                other != name@ ==> lookup(final(self)@, other) == lookup(old(self)@, other),
    {
        let ghost key = name@;
        self.names.push(name);
        self.handles.push(handle);
        assert(self@ =~= old(self)@.push((key, handle)));
        proof {
            assert forall|other: Seq<char>| other != key implies lookup(self@, other) == lookup(
                old(self)@,
                other,
            ) by {
                lemma_lookup_below_push(old(self)@, (key, handle), other, old(self)@.len());
            }
        }
    }

    /// The handle that `name` resolves to, if any.
    pub fn resolve(&self, name: &String) -> (r: Option<AssetHandle>)
        requires
            self.wf(),
        ensures
            r == lookup(self@, name@),
    {
        let mut i: usize = self.names.len();
        while i > 0
            invariant
                self.wf(),
                i <= self.names@.len(),
                lookup(self@, name@) == lookup_below(self@, name@, i as nat),
            decreases i,
        {
            i = i - 1;
            if self.names[i] == *name {
                return Some(self.handles[i]);
            }
        }
        None
    }
}

} // verus!
