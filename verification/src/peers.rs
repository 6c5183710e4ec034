//! The table of the peers that are connected, each with its actor.

use crate::identity::PeerId;
use std::sync::Arc;
use vstd::prelude::*;

verus! {

/// Maps the id of each known peer to the actor that speaks for it.
pub struct PeerTable<A> {
    entries: Vec<(PeerId, Arc<A>)>,
}

/// No id stands in two entries.
spec fn distinct<A>(entries: Seq<(PeerId, Arc<A>)>) -> bool {
    forall|i: int, j: int|
        0 <= i < j < entries.len() ==> (#[trigger] entries[i]).0@ != (#[trigger] entries[j]).0@
}

/// Whether entry `i` is there and has the id `id`.
spec fn has_at<A>(entries: Seq<(PeerId, Arc<A>)>, id: Seq<u8>, i: int) -> bool {
    0 <= i < entries.len() && entries[i].0@ == id
}

/// The entries as a map from ids to actors.
spec fn table_of<A>(entries: Seq<(PeerId, Arc<A>)>) -> Map<Seq<u8>, Arc<A>> {
    Map::new(
        |id: Seq<u8>| exists|i: int| has_at(entries, id, i),
        |id: Seq<u8>| entries[choose|i: int| has_at(entries, id, i)].1,
    )
}

/// An id that stands in entry `i` is mapped to the actor of that entry.
proof fn lemma_entry<A>(entries: Seq<(PeerId, Arc<A>)>, i: int)
    requires
        distinct(entries),
        0 <= i < entries.len(),
    ensures
        table_of(entries).contains_key(entries[i].0@),
        table_of(entries)[entries[i].0@] == entries[i].1,
{
    let id = entries[i].0@;
    assert(has_at(entries, id, i));
    let j = choose|j: int| has_at(entries, id, j);
    assert(has_at(entries, id, j));
    if i < j {
        assert(entries[i].0@ != entries[j].0@);
    } else if j < i {
        assert(entries[j].0@ != entries[i].0@);
    }
}

impl<A> View for PeerTable<A> {
    type V = Map<Seq<u8>, Arc<A>>;

    closed spec fn view(&self) -> Map<Seq<u8>, Arc<A>> {
        table_of(self.entries@)
    }
}

impl<A> PeerTable<A> {
    #[verifier::type_invariant]
    spec fn well_formed(self) -> bool {
        distinct(self.entries@)
    }

    /// A table without peers.
    pub fn new() -> (table: Self)
        ensures
            table@ == Map::<Seq<u8>, Arc<A>>::empty(),
    {
        let table = PeerTable { entries: Vec::new() };
        assert(table@ =~= Map::<Seq<u8>, Arc<A>>::empty());
        table
    }

    /// Where the entry of `id` is, if it has one.
    fn position(&self, id: &PeerId) -> (r: Option<usize>)
        ensures
            match r {
                Some(i) => has_at(self.entries@, id@, i as int),
                None => !self@.contains_key(id@),
            },
    {
        let mut i: usize = 0;
        while i < self.entries.len()
            invariant
                i <= self.entries.len(),
                forall|j: int| 0 <= j < i ==> (#[trigger] self.entries@[j]).0@ != id@,
            decreases self.entries.len() - i,
        {
            if self.entries[i].0.same(id) {
                return Some(i);
            }
            i += 1;
        }
        None
    }

    /// The actor of the peer `id`, if the peer is known.
    pub fn get(&self, id: &PeerId) -> (actor: Option<&Arc<A>>)
        ensures
            match actor {
                Some(actor) => self@.contains_key(id@) && *actor == self@[id@],
                None => !self@.contains_key(id@),
            },
    {
        proof {
            use_type_invariant(self);
        }
        match self.position(id) {
            Some(i) => {
                proof {
                    lemma_entry(self.entries@, i as int);
                }
                Some(&self.entries[i].1)
            },
            None => None,
        }
    }

    /// Makes `actor` the actor of the peer `id`.
    pub fn insert(&mut self, id: PeerId, actor: Arc<A>)
        ensures
            final(self)@ == old(self)@.insert(id@, actor),
    {
        proof {
            use_type_invariant(&*self);
        }
        let ghost before = self.entries@;
        let found = self.position(&id);
        let mut entries: Vec<(PeerId, Arc<A>)> = Vec::new();
        std::mem::swap(&mut entries, &mut self.entries);
        match found {
            Some(i) => {
                entries.set(i, (id, actor));
            },
            None => {
                assert forall|j: int| 0 <= j < before.len() implies (#[trigger] before[j]).0@
                    != id@ by {
                    assert(!has_at(before, id@, j));
                }
                entries.push((id, actor));
            },
        }
        proof {
            let after = entries@;
            let slot: int = match found {
                Some(i) => i as int,
                None => before.len() as int,
            };
            assert(after[slot] == (id, actor));
            lemma_replaced(before, after, slot, id, actor);
        }
        self.entries = entries;
    }

    /// Forgets the peer `id`, and gives back its actor if it was known.
    pub fn remove(&mut self, id: &PeerId) -> (actor: Option<Arc<A>>)
        ensures
            final(self)@ == old(self)@.remove(id@),
            match actor {
                Some(actor) => old(self)@.contains_key(id@) && actor == old(self)@[id@],
                None => !old(self)@.contains_key(id@),
            },
    {
        proof {
            use_type_invariant(&*self);
        }
        let ghost before = self.entries@;
        match self.position(id) {
            Some(i) => {
                let mut entries: Vec<(PeerId, Arc<A>)> = Vec::new();
                std::mem::swap(&mut entries, &mut self.entries);
                let entry = entries.remove(i);
                proof {
                    lemma_entry(before, i as int);
                    lemma_removed(before, i as int);
                }
                self.entries = entries;
                Some(entry.1)
            },
            None => {
                assert(self@.remove(id@) =~= self@);
                None
            },
        }
    }
}

/// Writing an entry for `id` into its own slot, or into a new one where it had none, inserts it
/// into the table.
proof fn lemma_replaced<A>(
    before: Seq<(PeerId, Arc<A>)>,
    after: Seq<(PeerId, Arc<A>)>,
    slot: int,
    id: PeerId,
    actor: Arc<A>,
)
    requires
        distinct(before),
        0 <= slot <= before.len(),
        slot < before.len() ==> before[slot].0@ == id@ && after == before.update(
            slot,
            (id, actor),
        ),
        slot == before.len() ==> after == before.push((id, actor)) && forall|j: int|
            0 <= j < before.len() ==> (#[trigger] before[j]).0@ != id@,
    ensures
        distinct(after),
        table_of(after) == table_of(before).insert(id@, actor),
{
    assert forall|i: int, j: int| 0 <= i < j < after.len() implies (#[trigger] after[i]).0@ != (
    #[trigger] after[j]).0@ by {
        if i < before.len() && j < before.len() {
            assert(before[i].0@ != before[j].0@);
        }
    }
    let expected = table_of(before).insert(id@, actor);
    assert forall|k: Seq<u8>| table_of(after).contains_key(k) == expected.contains_key(k) by {
        if table_of(after).contains_key(k) {
            let i = choose|i: int| has_at(after, k, i);
            if i != slot {
                assert(has_at(before, k, i));
            }
        }
        if expected.contains_key(k) {
            if k == id@ {
                assert(has_at(after, k, slot));
            } else {
                let i = choose|i: int| has_at(before, k, i);
                assert(has_at(after, k, i));
            }
        }
    }
    assert forall|k: Seq<u8>| #[trigger] table_of(after).contains_key(k) implies table_of(after)[k]
        == expected[k] by {
        let i = choose|i: int| has_at(after, k, i);
        lemma_entry(after, i);
        if i != slot {
            lemma_entry(before, i);
            assert(after[slot].0@ == id@);
            if i < slot {
                assert(after[i].0@ != after[slot].0@);
            } else {
                assert(after[slot].0@ != after[i].0@);
            }
        }
    }
    assert(table_of(after) =~= expected);
}

/// Taking out an entry removes its id from the table.
proof fn lemma_removed<A>(before: Seq<(PeerId, Arc<A>)>, slot: int)
    requires
        distinct(before),
        0 <= slot < before.len(),
    ensures
        distinct(before.remove(slot)),
        table_of(before.remove(slot)) == table_of(before).remove(before[slot].0@),
{
    let after = before.remove(slot);
    let id = before[slot].0@;
    assert forall|i: int, j: int| 0 <= i < j < after.len() implies (#[trigger] after[i]).0@ != (
    #[trigger] after[j]).0@ by {
        let i0 = if i < slot { i } else { i + 1 };
        let j0 = if j < slot { j } else { j + 1 };
        assert(before[i0].0@ != before[j0].0@);
    }
    let expected = table_of(before).remove(id);
    assert forall|k: Seq<u8>| table_of(after).contains_key(k) == expected.contains_key(k) by {
        if table_of(after).contains_key(k) {
            let i = choose|i: int| has_at(after, k, i);
            let i0 = if i < slot { i } else { i + 1 };
            assert(has_at(before, k, i0));
            if i0 < slot {
                assert(before[i0].0@ != before[slot].0@);
            } else {
                assert(before[slot].0@ != before[i0].0@);
            }
        }
        if expected.contains_key(k) {
            let i = choose|i: int| has_at(before, k, i);
            assert(i != slot);
            assert(has_at(after, k, if i < slot { i } else { i - 1 }));
        }
    }
    assert forall|k: Seq<u8>| #[trigger] table_of(after).contains_key(k) implies table_of(after)[k]
        == expected[k] by {
        let i = choose|i: int| has_at(after, k, i);
        lemma_entry(after, i);
        lemma_entry(before, if i < slot { i } else { i + 1 });
    }
    assert(table_of(after) =~= expected);
}

} // verus!
