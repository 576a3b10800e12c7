use vstd::prelude::*;

verus! {

/// `ids` with every occurrence of `id` taken out, the rest in order.
pub open spec fn without(ids: Seq<u64>, id: u64) -> Seq<u64>
    decreases ids.len(),
{
    if ids.len() == 0 {
        ids
    } else if ids.last() == id {
        without(ids.drop_last(), id)
    } else {
        without(ids.drop_last(), id).push(ids.last())
    }
}

/// `ids` with every member of `gone` taken out, the rest in order.
pub open spec fn without_all(ids: Seq<u64>, gone: Seq<u64>) -> Seq<u64>
    decreases gone.len(),
{
    if gone.len() == 0 {
        ids
    } else {
        without(without_all(ids, gone.drop_last()), gone.last())
    }
}

/// The set of open connections, each known by the id it was given when it
/// was registered. Ids are handed out in increasing order and never reused.
pub struct Registry {
    ids: Vec<u64>,
    next_id: u64,
}

impl View for Registry {
    type V = Seq<u64>;

    closed spec fn view(&self) -> Seq<u64> {
        self.ids@
    }
}

impl Registry {
    /// The id that the next registration will hand out.
    pub closed spec fn next_id(&self) -> u64 {
        self.next_id
    }

    /// Every id is below the next one to hand out, and ids come in
    /// increasing order of registration, so that none appears twice.
    pub closed spec fn wf(&self) -> bool {
        &&& forall|i: int| 0 <= i < self.ids@.len() ==> self.ids@[i] < self.next_id
        &&& forall|i: int, j: int|
            0 <= i < j < self.ids@.len() ==> self.ids@[i] < self.ids@[j]
    }

    pub fn new() -> (r: Self)
        ensures
            r.wf(),
            r@ == Seq::<u64>::empty(),
            r.next_id() == 0,
    {
        Registry { ids: Vec::new(), next_id: 0 }
    }

    /// Adds a new connection and returns its id; `None` once every id has
    /// been handed out.
    pub fn register(&mut self) -> (r: Option<u64>)
        requires
            old(self).wf(),
        ensures
            final(self).wf(),
            old(self).next_id() == u64::MAX <==> r is None,
            r is None ==> *final(self) == *old(self),
            r matches Some(id) ==> {
                &&& id == old(self).next_id()
                &&& final(self)@ == old(self)@.push(id)
                &&& final(self).next_id() == id + 1
                &&& !old(self)@.contains(id)
            },
    {
        if self.next_id == u64::MAX {
            return None;
        }
        let id = self.next_id;
        self.ids.push(id);
        self.next_id = id + 1;
        Some(id)
    }

    /// Removes the connection `id`; does nothing if it is not registered.
    /// Returns whether it was.
    pub fn deregister(&mut self, id: u64) -> (r: bool)
        requires
            old(self).wf(),
        ensures
            final(self).wf(),
            final(self)@ == without(old(self)@, id),
            final(self).next_id() == old(self).next_id(),
            r == old(self)@.contains(id),
    {
        let mut kept: Vec<u64> = Vec::new();
        let mut found = false;
        let mut i: usize = 0;
        while i < self.ids.len()
            invariant
                self.wf(),
                i <= self.ids@.len(),
                kept@ == without(self.ids@.take(i as int), id),
                found == self.ids@.take(i as int).contains(id),
                forall|k: int| 0 <= k < kept@.len() ==> kept@[k] < self.next_id,
                forall|k: int, j: int| 0 <= k < j < kept@.len() ==> kept@[k] < kept@[j],
                forall|k: int| 0 <= k < kept@.len() && i < self.ids@.len() ==> kept@[k] < self.ids@[i as int],
            decreases self.ids@.len() - i,
        {
            let x = self.ids[i];
            assert(self.ids@.take(i + 1) =~= self.ids@.take(i as int).push(x));
            proof {
                lemma_without_push(self.ids@.take(i as int), x, id);
                lemma_push_contains(self.ids@.take(i as int), x, id);
            }
            if x == id {
                found = true;
            } else {
                kept.push(x);
            }
            i = i + 1;
        }
        assert(self.ids@.take(i as int) =~= self.ids@);
        self.ids = kept;
        found
    }

    /// The registered ids, in order of registration.
    pub fn snapshot(&self) -> (r: Vec<u64>)
        ensures
            r@ == self@,
    {
        self.ids.clone()
    }

    pub fn contains(&self, id: u64) -> (r: bool)
        ensures
            r == self@.contains(id),
    {
        let mut i: usize = 0;
        while i < self.ids.len()
            invariant
                i <= self.ids@.len(),
                forall|k: int| 0 <= k < i ==> self.ids@[k] != id,
            decreases self.ids@.len() - i,
        {
            if self.ids[i] == id {
                return true;
            }
            i = i + 1;
        }
        false
    }

    /// The number of registered connections.
    pub fn len(&self) -> (r: usize)
        ensures
            r == self@.len(),
    {
        self.ids.len()
    }
}

proof fn lemma_push_contains(s: Seq<u64>, a: u64, x: u64)
    ensures
        s.push(a).contains(x) <==> (s.contains(x) || a == x),
{
    if s.push(a).contains(x) {
        let k = choose|k: int| 0 <= k < s.len() + 1 && s.push(a)[k] == x;
        if k < s.len() {
            assert(s[k] == x);
        }
    }
    if s.contains(x) {
        let k = choose|k: int| 0 <= k < s.len() && s[k] == x;
        assert(s.push(a)[k] == x);
    }
    assert(s.push(a)[s.len() as int] == a);
}

proof fn lemma_without_push(s: Seq<u64>, a: u64, id: u64)
    ensures
        without(s.push(a), id) == if a == id {
            without(s, id)
        } else {
            without(s, id).push(a)
        },
{
    assert(s.push(a).drop_last() =~= s);
}

/// What stays after taking out `id`: every member but `id` itself.
pub proof fn lemma_without_contains(ids: Seq<u64>, id: u64, x: u64)
    ensures
        without(ids, id).contains(x) <==> (ids.contains(x) && x != id),
    decreases ids.len(),
{
    if ids.len() > 0 {
        let front = ids.drop_last();
        let a = ids.last();
        assert(ids =~= front.push(a));
        lemma_without_contains(front, id, x);
        lemma_without_push(front, a, id);
        lemma_push_contains(front, a, x);
        lemma_push_contains(without(front, id), a, x);
    }
}

/// Taking out an id that does not occur leaves the sequence as it is.
pub proof fn lemma_without_absent(ids: Seq<u64>, id: u64)
    requires
        !ids.contains(id),
    ensures
        without(ids, id) == ids,
    decreases ids.len(),
{
    if ids.len() > 0 {
        let front = ids.drop_last();
        let a = ids.last();
        assert(ids =~= front.push(a));
        lemma_push_contains(front, a, id);
        lemma_without_absent(front, id);
        lemma_without_push(front, a, id);
    }
}

/// Deregistering a connection twice leaves the registry as deregistering it
/// once does: the second call finds nothing to remove.
pub proof fn lemma_deregister_idempotent(registry: Registry, id: u64)
    ensures
        without(without(registry@, id), id) == without(registry@, id),
{
    lemma_without_contains(registry@, id, id);
    lemma_without_absent(without(registry@, id), id);
}

/// What stays after taking out every member of `gone`: the members that are
/// not in `gone`.
pub proof fn lemma_without_all_contains(ids: Seq<u64>, gone: Seq<u64>, x: u64)
    ensures
        without_all(ids, gone).contains(x) <==> (ids.contains(x) && !gone.contains(x)),
    decreases gone.len(),
{
    if gone.len() > 0 {
        let front = gone.drop_last();
        assert(gone =~= front.push(gone.last()));
        lemma_without_all_contains(ids, front, x);
        lemma_without_contains(without_all(ids, front), gone.last(), x);
        lemma_push_contains(front, gone.last(), x);
    }
}

/// A well-formed registry holds each id at most once, and only ids below
/// the next one to hand out.
pub proof fn lemma_ids_distinct(registry: Registry)
    requires
        registry.wf(),
    ensures
        forall|i: int, j: int|
            0 <= i < j < registry@.len() ==> registry@[i] != registry@[j],
        forall|i: int| 0 <= i < registry@.len() ==> registry@[i] < registry.next_id(),
{
}

} // verus!
