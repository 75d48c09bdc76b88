//! Keyed collections: at most one entry per id, newer replaces older.
//!
//! A collection is modelled by the sequence of its entries, in the order they
//! were first stored. Durable mutations hand the changed sequence to a
//! `persist` callback and take the change back when the callback fails, so
//! that memory and the persisted copy agree whenever a call has returned.

use vstd::prelude::*;

verus! {

/// Why a repository operation failed.
#[derive(Debug, PartialEq, Eq, Hash)]
pub enum StorageError {
    /// Nothing is stored under the id.
    NotFound,
    /// Reading or writing the persisted copy failed.
    Io(String),
    /// A collection could not be turned into, or read back from, its
    /// persisted form.
    Serialization(String),
    /// The change contradicts what is stored.
    Conflict(String),
}

impl StorageError {
    /// What the error says of itself.
    pub open spec fn spec_message(&self) -> Seq<char> {
        match self {
            StorageError::NotFound => "Not found"@,
            StorageError::Io(m) => m@,
            StorageError::Serialization(m) => m@,
            StorageError::Conflict(m) => m@,
        }
    }

    /// The human readable form of the error.
    pub fn message(&self) -> (text: String)
        ensures
            text@ == self.spec_message(),
    {
        match self {
            StorageError::NotFound => "Not found".to_owned(),
            StorageError::Io(m) => m.clone(),
            StorageError::Serialization(m) => m.clone(),
            StorageError::Conflict(m) => m.clone(),
        }
    }
}

/// Something that is stored under an id of its own.
pub trait Keyed {
    /// The id type
    type Id: View;

    /// What the entry is filed under.
    spec fn key(&self) -> <Self::Id as View>::V;

    /// Gets the ID
    fn id(&self) -> (id: Self::Id)
        ensures
            id@ == self.key(),
    ;

    /// Whether the entry is filed under the given id.
    fn has_id(&self, id: &Self::Id) -> (same: bool)
        ensures
            same == (self.key() == id@),
    ;
}

/// How many entries a read with a limit gives: all that there are, but no
/// more than the limit.
pub open spec fn at_most(max: usize, available: nat) -> int {
    if max <= available {
        max as int
    } else {
        available as int
    }
}

/// Whether some entry is filed under the key.
pub open spec fn holds<E: Keyed>(entries: Seq<E>, key: <E::Id as View>::V) -> bool {
    exists|i: int| 0 <= i < entries.len() && (#[trigger] entries[i]).key() == key
}

/// Where the entry under the key stands, if there is one.
pub open spec fn index_of<E: Keyed>(entries: Seq<E>, key: <E::Id as View>::V) -> int {
    choose|i: int| 0 <= i < entries.len() && (#[trigger] entries[i]).key() == key
}

/// The entry under the key.
pub open spec fn lookup<E: Keyed>(entries: Seq<E>, key: <E::Id as View>::V) -> Option<E> {
    if holds(entries, key) {
        Some(entries[index_of(entries, key)])
    } else {
        None
    }
}

/// No two entries share a key.
pub open spec fn distinct_keys<E: Keyed>(entries: Seq<E>) -> bool {
    forall|i: int, j: int|
        0 <= i < j < entries.len() ==> (#[trigger] entries[i]).key() != (#[trigger] entries[j]).key()
}

/// The entries after one more was stored: it takes the place of the entry
/// with its key, or goes to the end when there is none.
pub open spec fn upserted<E: Keyed>(entries: Seq<E>, entry: E) -> Seq<E> {
    if holds(entries, entry.key()) {
        entries.update(index_of(entries, entry.key()), entry)
    } else {
        entries.push(entry)
    }
}

/// What a collection holds after more entries were stored one after the
/// other.
pub open spec fn stored_in_turn<E: Keyed>(before: Seq<E>, entries: Seq<E>) -> Seq<E>
    decreases entries.len(),
{
    if entries.len() == 0 {
        before
    } else {
        upserted(stored_in_turn(before, entries.drop_last()), entries.last())
    }
}

/// The keys of those entries that, stored one after the other, replaced an
/// entry that was there before them.
pub open spec fn replaced_in_turn<E: Keyed>(before: Seq<E>, entries: Seq<E>) -> Seq<
    <E::Id as View>::V,
>
    decreases entries.len(),
{
    if entries.len() == 0 {
        Seq::empty()
    } else {
        let earlier = replaced_in_turn(before, entries.drop_last());
        if holds(stored_in_turn(before, entries.drop_last()), entries.last().key()) {
            earlier.push(entries.last().key())
        } else {
            earlier
        }
    }
}

/// What a collection holds after the entries were stored one after the
/// other, where only those took effect whose result is `Ok`.
pub open spec fn settled_in_turn<E: Keyed>(
    before: Seq<E>,
    entries: Seq<E>,
    results: Seq<Result<bool, StorageError>>,
) -> Seq<E>
    decreases entries.len(),
{
    if entries.len() == 0 || results.len() != entries.len() {
        before
    } else {
        let earlier = settled_in_turn(before, entries.drop_last(), results.drop_last());
        if results.last() is Ok {
            upserted(earlier, entries.last())
        } else {
            earlier
        }
    }
}

/// The results of a run of stores, without the ids they are paired with.
pub open spec fn results_of<Id>(outcomes: Seq<(Id, Result<bool, StorageError>)>) -> Seq<
    Result<bool, StorageError>,
> {
    Seq::new(outcomes.len(), |i: int| outcomes[i].1)
}

/// The entries without the one under the key.
pub open spec fn without<E: Keyed>(entries: Seq<E>, key: <E::Id as View>::V) -> Seq<E> {
    if holds(entries, key) {
        entries.remove(index_of(entries, key))
    } else {
        entries
    }
}

/// With distinct keys an entry's place is determined by its key.
pub proof fn index_is_unique<E: Keyed>(entries: Seq<E>, i: int)
    requires
        distinct_keys(entries),
        0 <= i < entries.len(),
    ensures
        holds(entries, entries[i].key()),
        index_of(entries, entries[i].key()) == i,
        lookup(entries, entries[i].key()) == Some(entries[i]),
{
    let k = entries[i].key();
    let j = index_of(entries, k);
    assert(0 <= j < entries.len() && entries[j].key() == k);
    if j < i {
        assert(entries[j].key() != entries[i].key());
    }
    if i < j {
        assert(entries[i].key() != entries[j].key());
    }
}

/// `persist` was handed exactly these entries and reported success.
pub open spec fn accepted_by<T, F: Fn(&Vec<T>) -> Result<(), StorageError>>(
    persist: &F,
    entries: Seq<T>,
) -> bool {
    exists|v: &Vec<T>, result: Result<(), StorageError>|
        v@ == entries && result is Ok && #[trigger] call_ensures(persist, (v,), result)
}

/// `persist` was handed exactly these entries and failed with the error.
pub open spec fn refused_by<T, F: Fn(&Vec<T>) -> Result<(), StorageError>>(
    persist: &F,
    entries: Seq<T>,
    error: StorageError,
) -> bool {
    exists|v: &Vec<T>| v@ == entries && #[trigger] call_ensures(persist, (v,), Err(error))
}

/// A collection of entries with at most one entry per id.
pub struct Collection<E: Keyed> {
    items: Vec<E>,
}

impl<E: Keyed> View for Collection<E> {
    type V = Seq<E>;

    closed spec fn view(&self) -> Seq<E> {
        self.items@
    }
}

impl<E: Keyed> Collection<E> {
    /// What every collection maintains: one entry per id.
    #[verifier::type_invariant]
    pub closed spec fn well_formed(&self) -> bool {
        distinct_keys(self.items@)
    }

    /// A well-formed collection keeps its keys distinct.
    pub proof fn keys_are_distinct(&self)
        requires
            self.well_formed(),
        ensures
            distinct_keys(self@),
    {
    }

    /// An empty collection.
    pub fn new() -> (empty: Self)
        ensures
            empty@ == Seq::<E>::empty(),
    {
        Collection { items: Vec::new() }
    }

    /// A collection of what was loaded, where a later entry replaces an
    /// earlier one with the same id.
    pub fn load(entries: Vec<E>) -> (loaded: Self)
        ensures
            loaded@ == stored_in_turn(Seq::<E>::empty(), entries@),
    {
        let mut loaded = Collection::new();
        loaded.update_many(entries);
        loaded
    }

    /// How many entries are stored.
    pub fn len(&self) -> (n: usize)
        ensures
            n == self@.len(),
    {
        self.items.len()
    }

    /// The entries themselves, in stored order.
    pub fn entries(&self) -> (all: &Vec<E>)
        ensures
            all@ == self@,
            distinct_keys(all@),
    {
        proof {
            use_type_invariant(self);
        }
        &self.items
    }

    fn find(&self, id: &E::Id) -> (at: Option<usize>)
        ensures
            at is Some <==> holds(self@, id@),
            at matches Some(i) ==> i < self@.len() && i == index_of(self@, id@),
    {
        proof {
            use_type_invariant(self);
        }
        position(&self.items, id)
    }

    /// Up to `max` ids, in stored order.
    pub fn ids(&self, max: usize) -> (ids: Vec<E::Id>)
        ensures
            ids@.len() == at_most(max, self@.len()),
            forall|i: int| 0 <= i < ids@.len() ==> (#[trigger] ids@[i])@ == self@[i].key(),
    {
        let mut ids: Vec<E::Id> = Vec::new();
        let mut i: usize = 0;
        while i < self.items.len() && i < max
            invariant
                i <= self.items@.len(),
                i <= max,
                ids@.len() == i,
                forall|j: int| 0 <= j < i ==> (#[trigger] ids@[j])@ == self.items@[j].key(),
            decreases self.items@.len() - i,
        {
            ids.push(self.items[i].id());
            i += 1;
        }
        ids
    }

    /// The entry under the id, or `NotFound`.
    pub fn get(&self, id: &E::Id) -> (found: Result<&E, StorageError>)
        ensures
            match found {
                Ok(entry) => lookup(self@, id@) == Some(*entry),
                Err(e) => e == StorageError::NotFound && lookup(self@, id@) is None,
            },
    {
        match self.find(id) {
            Some(i) => Ok(&self.items[i]),
            None => Err(StorageError::NotFound),
        }
    }

    /// Stores the entry under its id and says whether an older entry was
    /// replaced.
    pub fn update(&mut self, entry: E) -> (replaced: bool)
        ensures
            final(self)@ == upserted(old(self)@, entry),
            replaced == holds(old(self)@, entry.key()),
    {
        proof {
            use_type_invariant(&*self);
        }
        let mut items: Vec<E> = Vec::new();
        core::mem::swap(&mut self.items, &mut items);
        let (previous, _) = put(&mut items, entry);
        core::mem::swap(&mut self.items, &mut items);
        previous.is_some()
    }

    /// Stores the entry under its id, hands the changed collection to
    /// `persist`, and takes the change back if `persist` fails. On success
    /// says whether an older entry was replaced.
    pub fn update_persisted<F: Fn(&Vec<E>) -> Result<(), StorageError>>(
        &mut self,
        entry: E,
        persist: &F,
    ) -> (outcome: Result<bool, StorageError>)
        requires
            forall|v: &Vec<E>| call_requires(persist, (v,)),
        ensures
            match outcome {
                Ok(replaced) => {
                    &&& final(self)@ == upserted(old(self)@, entry)
                    &&& replaced == holds(old(self)@, entry.key())
                    &&& accepted_by(persist, final(self)@)
                },
                Err(e) => {
                    &&& final(self)@ == old(self)@
                    &&& refused_by(persist, upserted(old(self)@, entry), e)
                },
            },
    {
        proof {
            use_type_invariant(&*self);
        }
        let mut items: Vec<E> = Vec::new();
        core::mem::swap(&mut self.items, &mut items);
        let ghost before = items@;
        let (previous, at) = put(&mut items, entry);
        let written = persist(&items);
        assert(call_ensures(persist, (&items,), written));
        let outcome = match written {
            Ok(()) => Ok(previous.is_some()),
            Err(e) => {
                match previous {
                    Some(older) => {
                        items[at] = older;
                    },
                    None => {
                        items.pop();
                    },
                }
                assert(items@ =~= before);
                Err(e)
            },
        };
        core::mem::swap(&mut self.items, &mut items);
        outcome
    }

    /// Copies of up to `max` entries, in stored order.
    pub fn list(&self, max: usize) -> (listed: Vec<E>) where E: Clone
        ensures
            listed@.len() == at_most(max, self@.len()),
            forall|i: int| 0 <= i < listed@.len() ==> cloned(self@[i], #[trigger] listed@[i]),
    {
        let mut listed: Vec<E> = Vec::new();
        let mut i: usize = 0;
        while i < self.items.len() && i < max
            invariant
                i <= self.items@.len(),
                i <= max,
                listed@.len() == i,
                forall|j: int| 0 <= j < i ==> cloned(self.items@[j], #[trigger] listed@[j]),
            decreases self.items@.len() - i,
        {
            listed.push(self.items[i].clone());
            i += 1;
        }
        listed
    }

    /// Stores the entries one after the other and hands back the ids of
    /// those that replaced an older entry.
    pub fn update_many(&mut self, entries: Vec<E>) -> (replaced: Vec<E::Id>)
        ensures
            final(self)@ == stored_in_turn(old(self)@, entries@),
            replaced@.len() == replaced_in_turn(old(self)@, entries@).len(),
            forall|i: int|
                0 <= i < replaced@.len() ==> (#[trigger] replaced@[i])@ == replaced_in_turn(
                    old(self)@,
                    entries@,
                )[i],
    {
        let ghost all = entries@;
        let ghost before = self@;
        let mut waiting = reversed(entries);
        let mut replaced: Vec<E::Id> = Vec::new();
        let ghost mut done: int = 0;
        assert(all.take(0) =~= Seq::<E>::empty());
        while waiting.len() > 0
            invariant
                0 <= done <= all.len(),
                waiting@.len() == all.len() - done,
                forall|i: int|
                    0 <= i < waiting@.len() ==> waiting@[i] == all[all.len() - 1 - i],
                self@ == stored_in_turn(before, all.take(done)),
                replaced@.len() == replaced_in_turn(before, all.take(done)).len(),
                forall|i: int|
                    0 <= i < replaced@.len() ==> (#[trigger] replaced@[i])@ == replaced_in_turn(
                        before,
                        all.take(done),
                    )[i],
            decreases waiting@.len(),
        {
            let entry = waiting.pop().unwrap();
            proof {
                let next = all.take(done + 1);
                assert(next.drop_last() =~= all.take(done));
                assert(next.last() == entry);
            }
            let id = entry.id();
            if self.update(entry) {
                replaced.push(id);
            }
            proof {
                done = done + 1;
            }
        }
        assert(all.take(all.len() as int) =~= all);
        replaced
    }

    /// Stores the entries one after the other, each as `update_persisted`
    /// does, and goes on after a failure. Hands back, for every entry in
    /// turn, its id and how its store ended.
    pub fn update_many_persisted<F: Fn(&Vec<E>) -> Result<(), StorageError>>(
        &mut self,
        entries: Vec<E>,
        persist: &F,
    ) -> (outcomes: Vec<(E::Id, Result<bool, StorageError>)>)
        requires
            forall|v: &Vec<E>| call_requires(persist, (v,)),
        ensures
            outcomes@.len() == entries@.len(),
            final(self)@ == settled_in_turn(old(self)@, entries@, results_of(outcomes@)),
            forall|i: int|
                0 <= i < outcomes@.len() ==> (#[trigger] outcomes@[i]).0@ == entries@[i].key(),
            forall|i: int|
                0 <= i < outcomes@.len() ==> match (#[trigger] outcomes@[i]).1 {
                    Ok(replaced) => {
                        &&& replaced == holds(
                            settled_in_turn(
                                old(self)@,
                                entries@.take(i),
                                results_of(outcomes@).take(i),
                            ),
                            entries@[i].key(),
                        )
                        &&& accepted_by(
                            persist,
                            settled_in_turn(
                                old(self)@,
                                entries@.take(i + 1),
                                results_of(outcomes@).take(i + 1),
                            ),
                        )
                    },
                    Err(e) => refused_by(
                        persist,
                        upserted(
                            settled_in_turn(
                                old(self)@,
                                entries@.take(i),
                                results_of(outcomes@).take(i),
                            ),
                            entries@[i],
                        ),
                        e,
                    ),
                },
    {
        let ghost all = entries@;
        let ghost before = self@;
        let mut waiting = reversed(entries);
        let mut outcomes: Vec<(E::Id, Result<bool, StorageError>)> = Vec::new();
        assert(all.take(0) =~= Seq::<E>::empty());
        assert(results_of(outcomes@) =~= Seq::empty());
        while waiting.len() > 0
            invariant
                outcomes@.len() <= all.len(),
                waiting@.len() == all.len() - outcomes@.len(),
                forall|i: int|
                    0 <= i < waiting@.len() ==> waiting@[i] == all[all.len() - 1 - i],
                forall|v: &Vec<E>| call_requires(persist, (v,)),
                self@ == settled_in_turn(
                    before,
                    all.take(outcomes@.len() as int),
                    results_of(outcomes@),
                ),
                forall|i: int|
                    0 <= i < outcomes@.len() ==> (#[trigger] outcomes@[i]).0@ == all[i].key(),
                forall|i: int|
                    0 <= i < outcomes@.len() ==> match (#[trigger] outcomes@[i]).1 {
                        Ok(replaced) => {
                            &&& replaced == holds(
                                settled_in_turn(
                                    before,
                                    all.take(i),
                                    results_of(outcomes@).take(i),
                                ),
                                all[i].key(),
                            )
                            &&& accepted_by(
                                persist,
                                settled_in_turn(
                                    before,
                                    all.take(i + 1),
                                    results_of(outcomes@).take(i + 1),
                                ),
                            )
                        },
                        Err(e) => refused_by(
                            persist,
                            upserted(
                                settled_in_turn(
                                    before,
                                    all.take(i),
                                    results_of(outcomes@).take(i),
                                ),
                                all[i],
                            ),
                            e,
                        ),
                    },
            decreases waiting@.len(),
        {
            let ghost done = outcomes@.len() as int;
            let ghost earlier = outcomes@;
            let entry = waiting.pop().unwrap();
            let id = entry.id();
            let outcome = self.update_persisted(entry, persist);
            outcomes.push((id, outcome));
            proof {
                let results = results_of(outcomes@);
                assert(results.drop_last() =~= results_of(earlier));
                assert(results.last() == outcome);
                assert(all.take(done + 1).drop_last() =~= all.take(done));
                assert(all.take(done + 1).last() == entry);
                assert(results.take(done) =~= results_of(earlier));
                assert(results.take(done + 1) =~= results);
                assert forall|i: int| 0 <= i <= done implies #[trigger] results.take(i)
                    == results_of(earlier).take(i) by {
                    assert(results.take(i) =~= results_of(earlier).take(i));
                }
                assert forall|i: int| 0 <= i < done implies outcomes@[i] == earlier[i] by {}
            }
        }
        assert(all.take(all.len() as int) =~= all);
        outcomes
    }

    /// Copies of the entries under the ids, in the order of the ids, or
    /// `NotFound` if one of the ids has no entry.
    pub fn get_all(&self, ids: &Vec<E::Id>) -> (found: Result<Vec<E>, StorageError>) where
        E: Clone,

        ensures
            found is Ok <==> forall|i: int| 0 <= i < ids@.len() ==> holds(self@, #[trigger] ids@[i]@),
            found matches Ok(entries) ==> entries@.len() == ids@.len() && forall|i: int|
                0 <= i < ids@.len() ==> cloned(
                    self@[index_of(self@, ids@[i]@)],
                    #[trigger] entries@[i],
                ),
            found matches Err(e) ==> e == StorageError::NotFound,
    {
        let mut entries: Vec<E> = Vec::new();
        let mut i: usize = 0;
        while i < ids.len()
            invariant
                i <= ids@.len(),
                entries@.len() == i,
                forall|j: int| 0 <= j < i ==> holds(self@, #[trigger] ids@[j]@),
                forall|j: int|
                    0 <= j < i ==> cloned(self@[index_of(self@, ids@[j]@)], #[trigger] entries@[j]),
            decreases ids@.len() - i,
        {
            match self.find(&ids[i]) {
                Some(at) => {
                    entries.push(self.items[at].clone());
                },
                None => {
                    return Err(StorageError::NotFound);
                },
            }
            i += 1;
        }
        Ok(entries)
    }

    /// Takes the entry under the id out and says whether there was one.
    pub fn remove(&mut self, id: &E::Id) -> (removed: Option<E>)
        ensures
            final(self)@ == without(old(self)@, id@),
            removed == lookup(old(self)@, id@),
    {
        proof {
            use_type_invariant(&*self);
        }
        let mut items: Vec<E> = Vec::new();
        core::mem::swap(&mut self.items, &mut items);
        let removed = match position(&items, id) {
            Some(i) => Some(items.remove(i)),
            None => None,
        };
        proof {
            removal_keeps_keys_distinct(old(self)@, id@);
        }
        core::mem::swap(&mut self.items, &mut items);
        removed
    }

    /// Takes the entry under the id out, hands the changed collection to
    /// `persist`, and puts the entry back where it was if `persist` fails. On
    /// success says whether an entry existed.
    pub fn remove_persisted<F: Fn(&Vec<E>) -> Result<(), StorageError>>(
        &mut self,
        id: &E::Id,
        persist: &F,
    ) -> (outcome: Result<bool, StorageError>)
        requires
            forall|v: &Vec<E>| call_requires(persist, (v,)),
        ensures
            match outcome {
                Ok(existed) => {
                    &&& final(self)@ == without(old(self)@, id@)
                    &&& existed == holds(old(self)@, id@)
                    &&& accepted_by(persist, final(self)@)
                },
                Err(e) => {
                    &&& final(self)@ == old(self)@
                    &&& refused_by(persist, without(old(self)@, id@), e)
                },
            },
    {
        proof {
            use_type_invariant(&*self);
            removal_keeps_keys_distinct(old(self)@, id@);
        }
        let mut items: Vec<E> = Vec::new();
        core::mem::swap(&mut self.items, &mut items);
        let ghost before = items@;
        let at = position(&items, id);
        let removed = match at {
            Some(i) => Some(items.remove(i)),
            None => None,
        };
        let written = persist(&items);
        assert(call_ensures(persist, (&items,), written));
        let outcome = match written {
            Ok(()) => Ok(removed.is_some()),
            Err(e) => {
                match removed {
                    Some(entry) => {
                        items.insert(at.unwrap(), entry);
                    },
                    None => {},
                }
                assert(items@ =~= before);
                Err(e)
            },
        };
        core::mem::swap(&mut self.items, &mut items);
        outcome
    }
}

/// The same items in the opposite order.
fn reversed<T>(items: Vec<T>) -> (turned: Vec<T>)
    ensures
        turned@.len() == items@.len(),
        forall|i: int| 0 <= i < turned@.len() ==> turned@[i] == items@[items@.len() - 1 - i],
{
    let mut rest = items;
    let ghost all = rest@;
    let mut turned: Vec<T> = Vec::new();
    while rest.len() > 0
        invariant
            rest@.len() + turned@.len() == all.len(),
            forall|i: int| 0 <= i < rest@.len() ==> rest@[i] == all[i],
            forall|i: int| 0 <= i < turned@.len() ==> turned@[i] == all[all.len() - 1 - i],
        decreases rest@.len(),
    {
        let item = rest.pop().unwrap();
        turned.push(item);
    }
    turned
}

/// Where the entry under the id stands in a vector with distinct keys.
fn position<E: Keyed>(items: &Vec<E>, id: &E::Id) -> (at: Option<usize>)
    requires
        distinct_keys(items@),
    ensures
        at is Some <==> holds(items@, id@),
        at matches Some(i) ==> i < items@.len() && i == index_of(items@, id@),
{
    let mut i: usize = 0;
    while i < items.len()
        invariant
            i <= items@.len(),
            distinct_keys(items@),
            forall|j: int| 0 <= j < i ==> (#[trigger] items@[j]).key() != id@,
        decreases items@.len() - i,
    {
        if items[i].has_id(id) {
            proof {
                index_is_unique(items@, i as int);
            }
            return Some(i);
        }
        i += 1;
    }
    None
}

/// Puts the entry in the place of the one with its key, or at the end. Hands
/// back the entry it replaced and the place the new one stands at.
fn put<E: Keyed>(items: &mut Vec<E>, entry: E) -> (change: (Option<E>, usize))
    requires
        distinct_keys(old(items)@),
    ensures
        final(items)@ == upserted(old(items)@, entry),
        distinct_keys(final(items)@),
        change.0 == lookup(old(items)@, entry.key()),
        change.1 < final(items)@.len(),
        change.1 == if holds(old(items)@, entry.key()) {
            index_of(old(items)@, entry.key())
        } else {
            old(items)@.len() as int
        },
{
    let id = entry.id();
    match position(items, &id) {
        Some(i) => {
            items.push(entry);
            let older = items.swap_remove(i);
            assert(items@ =~= old(items)@.update(i as int, entry));
            (Some(older), i)
        },
        None => {
            items.push(entry);
            (None, items.len() - 1)
        },
    }
}

/// Taking an entry out leaves the other keys distinct.
pub proof fn removal_keeps_keys_distinct<E: Keyed>(entries: Seq<E>, key: <E::Id as View>::V)
    requires
        distinct_keys(entries),
    ensures
        distinct_keys(without(entries, key)),
        !holds(without(entries, key), key),
{
    if holds(entries, key) {
        let at = index_of(entries, key);
        let rest = entries.remove(at);
        assert forall|i: int, j: int| 0 <= i < j < rest.len() implies (#[trigger] rest[i]).key()
            != (#[trigger] rest[j]).key() by {
            let a = if i < at { i } else { i + 1 };
            let b = if j < at { j } else { j + 1 };
            assert(rest[i] == entries[a]);
            assert(rest[j] == entries[b]);
        }
        assert forall|i: int| 0 <= i < rest.len() implies (#[trigger] rest[i]).key() != key by {
            let a = if i < at { i } else { i + 1 };
            assert(rest[i] == entries[a]);
            if a < at {
                assert(entries[a].key() != entries[at].key());
            } else {
                assert(entries[at].key() != entries[a].key());
            }
        }
    }
}

} // verus!
