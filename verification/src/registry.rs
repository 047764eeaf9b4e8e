//! The subsystems that are running, and for each of them what tells that it has stopped.
use vstd::prelude::*;

#[allow(unused_imports)]
use crate::id::{IdView, SubsystemId};
#[allow(unused_imports)]
use crate::id;

verus! {

/// Whether ids stand in ascending order, each once.
pub open spec fn increasing(ids: Seq<IdView>) -> bool {
    forall|i: int, j: int| 0 <= i < j < ids.len() ==> (#[trigger] ids[i]).before(#[trigger] ids[j])
}

/// Whether `ids` lists the ids of a set, each once and in ascending order.
pub open spec fn is_listing(ids: Seq<IdView>, set: Set<IdView>) -> bool {
    &&& increasing(ids)
    &&& forall|id: IdView| #[trigger] ids.contains(id) <==> set.contains(id)
}

/// The ids of a vector.
pub open spec fn id_views(ids: Seq<SubsystemId>) -> Seq<IdView> {
    ids.map_values(|id: SubsystemId| id@)
}

/// The map from each id to what stands at the same place in `waiters`.
spec fn paired<W>(ids: Seq<IdView>, waiters: Seq<W>) -> Map<IdView, W> {
    Map::new(|id: IdView| ids.contains(id), |id: IdView| waiters[ids.index_of(id)])
}

proof fn lemma_increasing_unique(ids: Seq<IdView>, i: int)
    requires
        increasing(ids),
        0 <= i < ids.len(),
    ensures
        ids.contains(ids[i]),
        ids.index_of(ids[i]) == i,
{
    let j = ids.index_of(ids[i]);
    assert(ids[j] == ids[i] && 0 <= j < ids.len());
    id::lemma_id_order(ids[i], ids[i], ids[i]);
    if i < j {
        assert(ids[i].before(ids[j]));
    } else if j < i {
        assert(ids[j].before(ids[i]));
    }
}

proof fn lemma_paired_insert<W>(ids: Seq<IdView>, waiters: Seq<W>, at: int, id: IdView, waiter: W)
    requires
        increasing(ids),
        ids.len() == waiters.len(),
        0 <= at <= ids.len(),
        forall|i: int| 0 <= i < at ==> (#[trigger] ids[i]).before(id),
        forall|i: int| at <= i < ids.len() ==> id.before(#[trigger] ids[i]),
    ensures
        increasing(ids.insert(at, id)),
        paired(ids.insert(at, id), waiters.insert(at, waiter)) == paired(ids, waiters).insert(
            id,
            waiter,
        ),
{
    let more = ids.insert(at, id);
    let waiters_more = waiters.insert(at, waiter);
    assert forall|i: int, j: int| 0 <= i < j < more.len() implies (#[trigger] more[i]).before(
        #[trigger] more[j],
    ) by {
        let a = if i < at { i } else { i - 1 };
        let b = if j < at { j } else { j - 1 };
        if i != at {
            assert(more[i] == ids[a]);
        }
        if j != at {
            assert(more[j] == ids[b]);
        }
    }
    let left = paired(more, waiters_more);
    let right = paired(ids, waiters).insert(id, waiter);
    assert(more[at] == id);
    lemma_increasing_unique(more, at);
    assert forall|key: IdView|
        #![trigger left.dom().contains(key)]
        #![trigger right.dom().contains(key)]
        left.dom().contains(key) == right.dom().contains(key) && (left.dom().contains(key)
            ==> left[key] == right[key]) by {
        if more.contains(key) {
            let i = choose|i: int| 0 <= i < more.len() && more[i] == key;
            lemma_increasing_unique(more, i);
            if i < at {
                assert(ids[i] == key);
                lemma_increasing_unique(ids, i);
                id::lemma_id_order(key, id, key);
            } else if i > at {
                assert(ids[i - 1] == key);
                lemma_increasing_unique(ids, i - 1);
                id::lemma_id_order(key, id, key);
            }
        }
        if ids.contains(key) {
            let i = choose|i: int| 0 <= i < ids.len() && ids[i] == key;
            if i < at {
                assert(more[i] == key);
            } else {
                assert(more[i + 1] == key);
            }
        }
    }
    assert(left =~= right);
}

proof fn lemma_paired_update<W>(ids: Seq<IdView>, waiters: Seq<W>, at: int, waiter: W)
    requires
        increasing(ids),
        ids.len() == waiters.len(),
        0 <= at < ids.len(),
    ensures
        paired(ids, waiters.update(at, waiter)) == paired(ids, waiters).insert(ids[at], waiter),
{
    lemma_increasing_unique(ids, at);
    assert(paired(ids, waiters.update(at, waiter)) =~= paired(ids, waiters).insert(
        ids[at],
        waiter,
    ));
}

proof fn lemma_paired_remove<W>(ids: Seq<IdView>, waiters: Seq<W>, at: int)
    requires
        increasing(ids),
        ids.len() == waiters.len(),
        0 <= at < ids.len(),
    ensures
        increasing(ids.remove(at)),
        paired(ids.remove(at), waiters.remove(at)) == paired(ids, waiters).remove(ids[at]),
{
    let fewer = ids.remove(at);
    let key = ids[at];
    assert forall|i: int, j: int| 0 <= i < j < fewer.len() implies (#[trigger] fewer[i]).before(
        #[trigger] fewer[j],
    ) by {
        let a = if i < at { i } else { i + 1 };
        let b = if j < at { j } else { j + 1 };
        assert(fewer[i] == ids[a]);
        assert(fewer[j] == ids[b]);
    }
    assert(!fewer.contains(key)) by {
        if fewer.contains(key) {
            let i = choose|i: int| 0 <= i < fewer.len() && fewer[i] == key;
            let a = if i < at { i } else { i + 1 };
            assert(ids[a] == key);
            lemma_increasing_unique(ids, a);
            lemma_increasing_unique(ids, at);
        }
    }
    assert forall|i: int| 0 <= i < fewer.len() implies fewer.insert(at, key)[i] == ids[i] by {}
    assert(fewer.insert(at, key) =~= ids);
    assert(waiters.remove(at).insert(at, waiters[at]) =~= waiters);
    assert forall|i: int| 0 <= i < at implies (#[trigger] fewer[i]).before(key) by {
        assert(fewer[i] == ids[i]);
    }
    assert forall|i: int| at <= i < fewer.len() implies key.before(#[trigger] fewer[i]) by {
        assert(fewer[i] == ids[i + 1]);
    }
    lemma_paired_insert(fewer, waiters.remove(at), at, key, waiters[at]);
    assert(paired(ids, waiters).remove(key) =~= paired(fewer, waiters.remove(at)));
}

/// A set of ids has one listing.
pub proof fn lemma_listing_unique(a: Seq<IdView>, b: Seq<IdView>, set: Set<IdView>)
    requires
        is_listing(a, set),
        is_listing(b, set),
    ensures
        a == b,
    decreases a.len(),
{
    if a.len() == 0 {
        if b.len() > 0 {
            assert(b.contains(b[0]));
            assert(a.contains(b[0]));
        }
        assert(a =~= b);
    } else {
        assert(a.contains(a[0]));
        assert(b.contains(a[0]));
        assert(b.contains(b[0]));
        assert(a.contains(b[0]));
        lemma_listing_first(a, b[0]);
        lemma_listing_first(b, a[0]);
        id::lemma_id_order(a[0], b[0], a[0]);
        let rest = set.remove(a[0]);
        lemma_listing_rest(a, set);
        lemma_listing_rest(b, set);
        lemma_listing_unique(a.skip(1), b.skip(1), rest);
        assert(a =~= seq![a[0]] + a.skip(1));
        assert(b =~= seq![b[0]] + b.skip(1));
    }
}

proof fn lemma_listing_first(ids: Seq<IdView>, id: IdView)
    requires
        increasing(ids),
        ids.contains(id),
    ensures
        ids[0] == id || ids[0].before(id),
{
    let i = choose|i: int| 0 <= i < ids.len() && ids[i] == id;
    if i > 0 {
        assert(ids[0].before(ids[i]));
    }
}

proof fn lemma_listing_rest(ids: Seq<IdView>, set: Set<IdView>)
    requires
        is_listing(ids, set),
        ids.len() > 0,
    ensures
        is_listing(ids.skip(1), set.remove(ids[0])),
{
    let rest = ids.skip(1);
    assert forall|i: int, j: int| 0 <= i < j < rest.len() implies (#[trigger] rest[i]).before(
        #[trigger] rest[j],
    ) by {
        assert(rest[i] == ids[i + 1]);
        assert(rest[j] == ids[j + 1]);
    }
    assert forall|id: IdView| #[trigger] rest.contains(id) <==> set.remove(ids[0]).contains(id) by {
        if rest.contains(id) {
            let i = choose|i: int| 0 <= i < rest.len() && rest[i] == id;
            assert(ids[i + 1] == id);
            assert(ids.contains(id));
            assert(ids[0].before(ids[i + 1]));
            id::lemma_id_order(ids[0], ids[0], ids[0]);
        }
        if ids.contains(id) && id != ids[0] {
            let i = choose|i: int| 0 <= i < ids.len() && ids[i] == id;
            assert(rest[i - 1] == id);
        }
    }
}

/// A map from the ids of the running subsystems to what tells that each of them has stopped.
pub struct SubsystemMap<W> {
    ids: Vec<SubsystemId>,
    waiters: Vec<W>,
}

impl<W> View for SubsystemMap<W> {
    type V = Map<IdView, W>;

    closed spec fn view(&self) -> Map<IdView, W> {
        paired(id_views(self.ids@), self.waiters@)
    }
}

impl<W> SubsystemMap<W> {
    #[verifier::type_invariant]
    spec fn well_formed(self) -> bool {
        &&& self.ids@.len() == self.waiters@.len()
        &&& increasing(id_views(self.ids@))
    }

    /// An empty map.
    pub fn new() -> (map: Self)
        ensures
            map@ == Map::<IdView, W>::empty(),
    {
        let map: Self = SubsystemMap { ids: Vec::new(), waiters: Vec::new() };
        proof {
            assert(map@ =~= Map::<IdView, W>::empty());
        }
        map
    }

    /// Where `id` stands among the ids, or where it belongs.
    fn position(&self, id: &SubsystemId) -> (position: usize)
        ensures
            position <= self.ids@.len(),
            forall|i: int| 0 <= i < position ==> (#[trigger] self.ids@[i])@.before(id@),
            forall|i: int|
                position <= i < self.ids@.len() ==> !(#[trigger] self.ids@[i])@.before(id@),
    {
        proof {
            use_type_invariant(self);
        }
        let mut low: usize = 0;
        let mut high: usize = self.ids.len();
        while low < high
            invariant
                low <= high <= self.ids@.len(),
                increasing(id_views(self.ids@)),
                forall|i: int| 0 <= i < low ==> (#[trigger] self.ids@[i])@.before(id@),
                forall|i: int|
                    high <= i < self.ids@.len() ==> !(#[trigger] self.ids@[i])@.before(id@),
            decreases high - low,
        {
            let middle: usize = low + (high - low) / 2;
            let ghost views = id_views(self.ids@);
            if self.ids[middle].is_before(id) {
                proof {
                    assert forall|i: int| 0 <= i < middle + 1 implies (
                    #[trigger] self.ids@[i])@.before(id@) by {
                        assert(views[i] == self.ids@[i]@);
                        assert(views[middle as int] == self.ids@[middle as int]@);
                        id::lemma_id_order(views[i], views[middle as int], id@);
                    }
                }
                low = middle + 1;
            } else {
                proof {
                    assert forall|i: int| middle <= i < self.ids@.len() implies !(
                    #[trigger] self.ids@[i])@.before(id@) by {
                        assert(views[i] == self.ids@[i]@);
                        assert(views[middle as int] == self.ids@[middle as int]@);
                        id::lemma_id_order(views[middle as int], views[i], id@);
                    }
                }
                high = middle;
            }
        }
        low
    }

    /// Adds a subsystem; one that was there under the same id is replaced.
    pub fn insert(&mut self, id: SubsystemId, waiter: W)
        ensures
            final(self)@ == old(self)@.insert(id@, waiter),
    {
        proof {
            use_type_invariant(&*self);
        }
        let position: usize = self.position(&id);
        let mut map: SubsystemMap<W> = SubsystemMap::new();
        std::mem::swap(&mut map, self);
        let SubsystemMap { mut ids, mut waiters } = map;
        let ghost views = id_views(ids@);
        let ghost waiting = waiters@;
        proof {
            assert forall|i: int| 0 <= i < position implies (#[trigger] views[i]).before(id@) by {
                assert(views[i] == ids@[i]@);
            }
        }
        if position < ids.len() && ids[position] == id {
            proof {
                lemma_paired_update(views, waiting, position as int, waiter);
            }
            waiters[position] = waiter;
        } else {
            proof {
                assert forall|i: int| position <= i < views.len() implies id@.before(
                    #[trigger] views[i],
                ) by {
                    assert(views[i] == ids@[i]@);
                    assert(views[position as int] == ids@[position as int]@);
                    id::lemma_id_order(id@, views[position as int], views[i]);
                }
                lemma_paired_insert(views, waiting, position as int, id@, waiter);
                assert(id_views(ids@.insert(position as int, id)) =~= views.insert(
                    position as int,
                    id@,
                ));
            }
            ids.insert(position, id);
            waiters.insert(position, waiter);
        }
        *self = SubsystemMap { ids, waiters };
    }

    /// Removes a subsystem, if it is there.
    pub fn remove(&mut self, id: &SubsystemId) -> (waiter: Option<W>)
        ensures
            final(self)@ == old(self)@.remove(id@),
            waiter == (if old(self)@.contains_key(id@) {
                Some(old(self)@[id@])
            } else {
                None
            }),
    {
        proof {
            use_type_invariant(&*self);
        }
        let position: usize = self.position(id);
        if position < self.ids.len() && self.ids[position] == *id {
            let mut map: SubsystemMap<W> = SubsystemMap::new();
            std::mem::swap(&mut map, self);
            let SubsystemMap { mut ids, mut waiters } = map;
            let ghost views = id_views(ids@);
            proof {
                assert(views[position as int] == id@);
                lemma_increasing_unique(views, position as int);
                lemma_paired_remove(views, waiters@, position as int);
                assert(id_views(ids@.remove(position as int)) =~= views.remove(position as int));
            }
            ids.remove(position);
            let waiter: W = waiters.remove(position);
            *self = SubsystemMap { ids, waiters };
            Some(waiter)
        } else {
            proof {
                let views = id_views(self.ids@);
                if views.contains(id@) {
                    let i = choose|i: int| 0 <= i < views.len() && views[i] == id@;
                    assert(self.ids@[i]@ == id@);
                    id::lemma_id_order(id@, id@, id@);
                    assert(position < i);
                    assert(views[position as int].before(views[i]));
                    assert(views[position as int] == self.ids@[position as int]@);
                }
                assert(self@.remove(id@) =~= self@);
            }
            None
        }
    }

    /// The ids of the running subsystems, in ascending order.
    pub fn running(&self) -> (running: Vec<SubsystemId>)
        ensures
            is_listing(id_views(running@), self@.dom()),
    {
        proof {
            use_type_invariant(self);
        }
        let mut running: Vec<SubsystemId> = Vec::new();
        let mut i: usize = 0;
        while i < self.ids.len()
            invariant
                i <= self.ids@.len(),
                running@ == self.ids@.take(i as int),
            decreases self.ids@.len() - i,
        {
            running.push(self.ids[i].clone());
            proof {
                assert(running@ =~= self.ids@.take(i + 1));
            }
            i = i + 1;
        }
        proof {
            assert(running@ =~= self.ids@);
        }
        running
    }

    /// Takes all the subsystems out of the map.
    pub fn take(&mut self) -> (taken: SubsystemMap<W>)
        ensures
            taken@ == old(self)@,
            final(self)@ == Map::<IdView, W>::empty(),
    {
        let mut map: SubsystemMap<W> = SubsystemMap::new();
        std::mem::swap(&mut map, self);
        map
    }

    /// What tells that the subsystems have stopped, in ascending order of their ids.
    pub fn into_values(self) -> (waiters: Vec<W>)
        ensures
            exists|ids: Seq<IdView>|
                #[trigger] is_listing(ids, self@.dom()) && waiters@ == ids.map_values(
                    |id: IdView| self@[id],
                ),
    {
        proof {
            use_type_invariant(&self);
            let views = id_views(self.ids@);
            assert(is_listing(views, self@.dom()));
            assert forall|i: int| 0 <= i < views.len() implies self.waiters@[i]
                == self@[#[trigger] views[i]] by {
                lemma_increasing_unique(views, i);
            }
            assert(self.waiters@ =~= views.map_values(|id: IdView| self@[id]));
        }
        self.waiters
    }
}

/// A subsystem is listed once it was added and until it is removed, which changes nothing for the
/// others. Adding one that was not there and removing it again leaves the map as it was.
pub proof fn lemma_listed_while_running<W>(
    map: Map<IdView, W>,
    id: IdView,
    waiter: W,
    started: Seq<IdView>,
    stopped: Seq<IdView>,
)
    requires
        is_listing(started, map.insert(id, waiter).dom()),
        is_listing(stopped, map.remove(id).dom()),
    ensures
        started.contains(id),
        !stopped.contains(id),
        forall|other: IdView|
            other != id ==> (#[trigger] started.contains(other) == map.contains_key(other)),
        forall|other: IdView|
            other != id ==> (#[trigger] stopped.contains(other) == map.contains_key(other)),
        !map.contains_key(id) ==> map.insert(id, waiter).remove(id) == map,
{
    assert(map.insert(id, waiter).dom().contains(id));
    assert(!map.remove(id).dom().contains(id));
    if !map.contains_key(id) {
        assert(map.insert(id, waiter).remove(id) =~= map);
    }
}

} // verus!
