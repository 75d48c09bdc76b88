//! The many-to-many relation between profiles and platform accounts.
//!
//! The relation is a set of pairs. It is kept in a vector of rows in which no
//! pair occurs twice, and that vector is what gets persisted.

use vstd::prelude::*;
use crate::ids::{PlatformAccountId, PlatformIdView};
use crate::profile::ProfileId;
use crate::storage::{accepted_by, refused_by, StorageError};

verus! {

/// `all` was split into `kept` and `removed`, each item going to exactly one
/// of the two, and both keeping the order that the items had in `all`.
pub open spec fn splits_into<I>(all: Seq<I>, kept: Seq<I>, removed: Seq<I>) -> bool
    decreases all.len(),
{
    if all.len() == 0 {
        kept.len() == 0 && removed.len() == 0
    } else {
        ||| (kept.len() > 0 && kept.last() == all.last() && splits_into(
            all.drop_last(),
            kept.drop_last(),
            removed,
        ))
        ||| (removed.len() > 0 && removed.last() == all.last() && splits_into(
            all.drop_last(),
            kept,
            removed.drop_last(),
        ))
    }
}

/// Drains items from the slice if they match the condition,
/// returns the drained items
pub fn drain_vec<I, F>(slice: &mut Vec<I>, cond: F) -> (removed: Vec<I>) where F: Fn(&I) -> bool
    requires
        forall|item: &I| call_requires(cond, (item,)),
    ensures
        splits_into(old(slice)@, final(slice)@, removed@),
        forall|i: int|
            0 <= i < removed@.len() ==> call_ensures(cond, (&#[trigger] removed@[i],), true),
        forall|i: int|
            0 <= i < final(slice)@.len() ==> call_ensures(
                cond,
                (&#[trigger] final(slice)@[i],),
                false,
            ),
{
    let mut removed: Vec<I> = Vec::new();
    let mut i: usize = 0;
    let ghost all = slice@;
    let ghost mut done: int = 0;
    while i < slice.len()
        invariant
            0 <= done <= all.len(),
            i <= slice@.len(),
            slice@.len() - i == all.len() - done,
            slice@.skip(i as int) == all.skip(done),
            splits_into(all.take(done), slice@.take(i as int), removed@),
            forall|item: &I| call_requires(cond, (item,)),
            forall|k: int|
                0 <= k < removed@.len() ==> call_ensures(cond, (&#[trigger] removed@[k],), true),
            forall|k: int| 0 <= k < i ==> call_ensures(cond, (&#[trigger] slice@[k],), false),
        decreases slice@.len() - i,
    {
        let ghost before = slice@;
        let ghost taken = removed@;
        proof {
            assert(before.skip(i as int)[0] == all.skip(done)[0]);
            assert(before[i as int] == all[done]);
            assert(before.skip(i + 1) =~= before.skip(i as int).skip(1));
            assert(all.skip(done + 1) =~= all.skip(done).skip(1));
            assert(all.take(done + 1).drop_last() =~= all.take(done));
            assert(all.take(done + 1).last() == all[done]);
        }
        if cond(&slice[i]) {
            let item = slice.remove(i);
            removed.push(item);
            proof {
                assert(removed@.drop_last() =~= taken);
                assert(slice@.take(i as int) =~= before.take(i as int));
                assert(slice@.skip(i as int) =~= before.skip(i + 1));
            }
        } else {
            proof {
                let kept = slice@.take(i + 1);
                assert(kept.drop_last() =~= slice@.take(i as int));
                assert(kept.last() == before[i as int]);
            }
            i += 1;
        }
        proof {
            done = done + 1;
        }
    }
    proof {
        assert(all.take(done) =~= all);
        assert(slice@.take(i as int) =~= slice@);
    }
    removed
}

/// Every item of a split is an item of the whole, and the other way round.
pub proof fn split_has_the_same_items<I>(all: Seq<I>, kept: Seq<I>, removed: Seq<I>)
    requires
        splits_into(all, kept, removed),
    ensures
        forall|i: int| 0 <= i < kept.len() ==> all.contains(#[trigger] kept[i]),
        forall|i: int| 0 <= i < removed.len() ==> all.contains(#[trigger] removed[i]),
        forall|i: int|
            0 <= i < all.len() ==> kept.contains(#[trigger] all[i]) || removed.contains(all[i]),
    decreases all.len(),
{
    if all.len() > 0 {
        let rest = all.drop_last();
        let last = all.last();
        assert(all[all.len() - 1] == last);
        if kept.len() > 0 && kept.last() == last && splits_into(rest, kept.drop_last(), removed) {
            let k = kept.drop_last();
            split_has_the_same_items(rest, k, removed);
            assert forall|i: int| 0 <= i < kept.len() implies all.contains(#[trigger] kept[i]) by {
                if i < k.len() {
                    assert(kept[i] == k[i]);
                    let j = choose|j: int| 0 <= j < rest.len() && rest[j] == k[i];
                    assert(all[j] == rest[j]);
                }
            }
            assert forall|i: int| 0 <= i < removed.len() implies all.contains(
                #[trigger] removed[i],
            ) by {
                let j = choose|j: int| 0 <= j < rest.len() && rest[j] == removed[i];
                assert(all[j] == rest[j]);
            }
            assert forall|i: int| 0 <= i < all.len() implies kept.contains(#[trigger] all[i])
                || removed.contains(all[i]) by {
                if i < rest.len() {
                    assert(all[i] == rest[i]);
                    if k.contains(rest[i]) {
                        let j = choose|j: int| 0 <= j < k.len() && k[j] == rest[i];
                        assert(kept[j] == k[j]);
                    }
                } else {
                    assert(kept[kept.len() - 1] == last);
                }
            }
        } else {
            let r = removed.drop_last();
            split_has_the_same_items(rest, kept, r);
            assert forall|i: int| 0 <= i < removed.len() implies all.contains(
                #[trigger] removed[i],
            ) by {
                if i < r.len() {
                    assert(removed[i] == r[i]);
                    let j = choose|j: int| 0 <= j < rest.len() && rest[j] == r[i];
                    assert(all[j] == rest[j]);
                }
            }
            assert forall|i: int| 0 <= i < kept.len() implies all.contains(#[trigger] kept[i]) by {
                let j = choose|j: int| 0 <= j < rest.len() && rest[j] == kept[i];
                assert(all[j] == rest[j]);
            }
            assert forall|i: int| 0 <= i < all.len() implies kept.contains(#[trigger] all[i])
                || removed.contains(all[i]) by {
                if i < rest.len() {
                    assert(all[i] == rest[i]);
                    if r.contains(rest[i]) {
                        let j = choose|j: int| 0 <= j < r.len() && r[j] == rest[i];
                        assert(removed[j] == r[j]);
                    }
                } else {
                    assert(removed[removed.len() - 1] == last);
                }
            }
        }
    }
}

/// One row of the relation: the account and a profile it belongs to.
pub type MappingRow = (PlatformAccountId, ProfileId);

/// What a row stands for.
pub open spec fn pair_of(row: MappingRow) -> (PlatformIdView, u128) {
    (row.0@, row.1@)
}

/// The pairs that the rows stand for.
pub open spec fn pairs_of(rows: Seq<MappingRow>) -> Set<(PlatformIdView, u128)> {
    Set::new(
        |pair: (PlatformIdView, u128)|
            exists|i: int| 0 <= i < rows.len() && pair_of(#[trigger] rows[i]) == pair,
    )
}

/// No pair occurs in two rows.
pub open spec fn distinct_pairs(rows: Seq<MappingRow>) -> bool {
    forall|i: int, j: int|
        0 <= i < j < rows.len() ==> pair_of(#[trigger] rows[i]) != pair_of(#[trigger] rows[j])
}

/// The profiles that the relation gives an account.
pub open spec fn profiles_of(pairs: Set<(PlatformIdView, u128)>, account: PlatformIdView) -> Set<
    u128,
> {
    Set::new(|profile: u128| pairs.contains((account, profile)))
}

/// The accounts that the relation gives a profile.
pub open spec fn accounts_of(pairs: Set<(PlatformIdView, u128)>, profile: u128) -> Set<
    PlatformIdView,
> {
    Set::new(|account: PlatformIdView| pairs.contains((account, profile)))
}

/// The profiles of an account, in the order of the rows.
pub open spec fn profiles_in_rows(rows: Seq<MappingRow>, account: PlatformIdView) -> Seq<ProfileId>
    decreases rows.len(),
{
    if rows.len() == 0 {
        Seq::empty()
    } else {
        let earlier = profiles_in_rows(rows.drop_last(), account);
        if rows.last().0@ == account {
            earlier.push(rows.last().1)
        } else {
            earlier
        }
    }
}

/// The accounts of a profile, in the order of the rows.
pub open spec fn accounts_in_rows(rows: Seq<MappingRow>, profile: u128) -> Seq<PlatformAccountId>
    decreases rows.len(),
{
    if rows.len() == 0 {
        Seq::empty()
    } else {
        let earlier = accounts_in_rows(rows.drop_last(), profile);
        if rows.last().1@ == profile {
            earlier.push(rows.last().0)
        } else {
            earlier
        }
    }
}

/// The profiles that a list of ids names.
pub open spec fn listed_profiles(ids: Seq<ProfileId>) -> Set<u128> {
    Set::new(|profile: u128| exists|i: int| 0 <= i < ids.len() && (#[trigger] ids[i])@ == profile)
}

/// The accounts that a list of ids names.
pub open spec fn listed_accounts(ids: Seq<PlatformAccountId>) -> Set<PlatformIdView> {
    Set::new(
        |account: PlatformIdView|
            exists|i: int| 0 <= i < ids.len() && (#[trigger] ids[i])@ == account,
    )
}

/// The relation after the accounts of one profile were replaced.
pub open spec fn with_accounts_of_profile(
    pairs: Set<(PlatformIdView, u128)>,
    profile: u128,
    accounts: Set<PlatformIdView>,
) -> Set<(PlatformIdView, u128)> {
    Set::new(
        |pair: (PlatformIdView, u128)|
            if pair.1 == profile {
                accounts.contains(pair.0)
            } else {
                pairs.contains(pair)
            },
    )
}

/// The relation after the profiles of one account were replaced.
pub open spec fn with_profiles_of_account(
    pairs: Set<(PlatformIdView, u128)>,
    account: PlatformIdView,
    profiles: Set<u128>,
) -> Set<(PlatformIdView, u128)> {
    Set::new(
        |pair: (PlatformIdView, u128)|
            if pair.0 == account {
                profiles.contains(pair.1)
            } else {
                pairs.contains(pair)
            },
    )
}

/// A split of rows without a repeated pair has no repeated pair in either
/// part.
proof fn split_keeps_pairs_distinct(
    all: Seq<MappingRow>,
    kept: Seq<MappingRow>,
    removed: Seq<MappingRow>,
)
    requires
        splits_into(all, kept, removed),
        distinct_pairs(all),
    ensures
        distinct_pairs(kept),
        distinct_pairs(removed),
    decreases all.len(),
{
    if all.len() > 0 {
        let rest = all.drop_last();
        let last = all.last();
        assert forall|i: int, j: int| 0 <= i < j < rest.len() implies pair_of(#[trigger] rest[i])
            != pair_of(#[trigger] rest[j]) by {
            assert(rest[i] == all[i] && rest[j] == all[j]);
        }
        if kept.len() > 0 && kept.last() == last && splits_into(rest, kept.drop_last(), removed) {
            let k = kept.drop_last();
            split_keeps_pairs_distinct(rest, k, removed);
            split_has_the_same_items(rest, k, removed);
            assert forall|i: int, j: int| 0 <= i < j < kept.len() implies pair_of(
                #[trigger] kept[i],
            ) != pair_of(#[trigger] kept[j]) by {
                assert(kept[i] == k[i]);
                if j < k.len() {
                    assert(kept[j] == k[j]);
                } else {
                    let at = choose|at: int| 0 <= at < rest.len() && rest[at] == k[i];
                    assert(all[at] == rest[at]);
                    assert(pair_of(all[at]) != pair_of(all[all.len() - 1]));
                }
            }
        } else {
            let r = removed.drop_last();
            split_keeps_pairs_distinct(rest, kept, r);
            split_has_the_same_items(rest, kept, r);
            assert forall|i: int, j: int| 0 <= i < j < removed.len() implies pair_of(
                #[trigger] removed[i],
            ) != pair_of(#[trigger] removed[j]) by {
                assert(removed[i] == r[i]);
                if j < r.len() {
                    assert(removed[j] == r[j]);
                } else {
                    let at = choose|at: int| 0 <= at < rest.len() && rest[at] == r[i];
                    assert(all[at] == rest[at]);
                    assert(pair_of(all[at]) != pair_of(all[all.len() - 1]));
                }
            }
        }
    }
}

/// The pairs after one more row was added.
proof fn pairs_after_push(rows: Seq<MappingRow>, row: MappingRow)
    ensures
        pairs_of(rows.push(row)) == pairs_of(rows).insert(pair_of(row)),
        distinct_pairs(rows) && !pairs_of(rows).contains(pair_of(row)) ==> distinct_pairs(
            rows.push(row),
        ),
{
    let more = rows.push(row);
    assert forall|pair: (PlatformIdView, u128)| pairs_of(more).contains(pair) implies pairs_of(
        rows,
    ).insert(pair_of(row)).contains(pair) by {
        let i = choose|i: int| 0 <= i < more.len() && pair_of(#[trigger] more[i]) == pair;
        if i < rows.len() {
            assert(more[i] == rows[i]);
        }
    }
    assert forall|pair: (PlatformIdView, u128)|
        pairs_of(rows).insert(pair_of(row)).contains(pair) implies pairs_of(more).contains(
        pair,
    ) by {
        if pairs_of(rows).contains(pair) {
            let i = choose|i: int| 0 <= i < rows.len() && pair_of(#[trigger] rows[i]) == pair;
            assert(more[i] == rows[i]);
        } else {
            assert(more[rows.len() as int] == row);
        }
    }
    assert(pairs_of(more) =~= pairs_of(rows).insert(pair_of(row)));
    if distinct_pairs(rows) && !pairs_of(rows).contains(pair_of(row)) {
        assert forall|i: int, j: int| 0 <= i < j < more.len() implies pair_of(#[trigger] more[i])
            != pair_of(#[trigger] more[j]) by {
            assert(more[i] == rows[i]);
            if j < rows.len() {
                assert(more[j] == rows[j]);
            }
        }
    }
}

/// Which side of the relation an edit replaces: everything of one profile,
/// or everything of one account.
pub enum MappingKey {
    /// The rows of this profile
    Profile(ProfileId),
    /// The rows of this account
    Account(PlatformAccountId),
}

/// Whether the pair lies on the side that the key names.
pub open spec fn on_side(key: MappingKey, pair: (PlatformIdView, u128)) -> bool {
    match key {
        MappingKey::Profile(profile) => pair.1 == profile@,
        MappingKey::Account(account) => pair.0 == account@,
    }
}

/// The relation after everything on one side was replaced by fresh pairs.
pub open spec fn replaced_on_side(
    pairs: Set<(PlatformIdView, u128)>,
    key: MappingKey,
    fresh: Set<(PlatformIdView, u128)>,
) -> Set<(PlatformIdView, u128)> {
    Set::new(
        |pair: (PlatformIdView, u128)|
            if on_side(key, pair) {
                fresh.contains(pair)
            } else {
                pairs.contains(pair)
            },
    )
}

impl MappingKey {
    /// Whether the row lies on the side that the key names.
    pub fn selects(&self, row: &MappingRow) -> (selected: bool)
        ensures
            selected == on_side(*self, pair_of(*row)),
    {
        match self {
            MappingKey::Profile(profile) => row.1.0 == profile.0,
            MappingKey::Account(account) => row.0 == *account,
        }
    }
}

/// Whether some row stands for the same pair as the given row.
fn holds_pair(rows: &Vec<MappingRow>, row: &MappingRow) -> (held: bool)
    ensures
        held == pairs_of(rows@).contains(pair_of(*row)),
{
    let mut i: usize = 0;
    while i < rows.len()
        invariant
            i <= rows@.len(),
            forall|k: int| 0 <= k < i ==> pair_of(#[trigger] rows@[k]) != pair_of(*row),
        decreases rows@.len() - i,
    {
        if rows[i].0 == row.0 && rows[i].1.0 == row.1.0 {
            return true;
        }
        i += 1;
    }
    false
}

/// Replaces the rows on one side by the fresh rows, hands the result to
/// `persist`, and puts the drained rows back if `persist` fails.
fn replace_rows<F: Fn(&Vec<MappingRow>) -> Result<(), StorageError>>(
    rows: &mut Vec<MappingRow>,
    key: &MappingKey,
    fresh: &Vec<MappingRow>,
    persist: &F,
) -> (outcome: Result<(), StorageError>)
    requires
        distinct_pairs(old(rows)@),
        forall|i: int| 0 <= i < fresh@.len() ==> on_side(*key, pair_of(#[trigger] fresh@[i])),
        forall|v: &Vec<MappingRow>| call_requires(persist, (v,)),
    ensures
        distinct_pairs(final(rows)@),
        match outcome {
            Ok(_) => {
                &&& pairs_of(final(rows)@) == replaced_on_side(
                    pairs_of(old(rows)@),
                    *key,
                    pairs_of(fresh@),
                )
                &&& accepted_by(persist, final(rows)@)
            },
            Err(e) => {
                &&& pairs_of(final(rows)@) == pairs_of(old(rows)@)
                &&& exists|tried: Seq<MappingRow>|
                    pairs_of(tried) == replaced_on_side(pairs_of(old(rows)@), *key, pairs_of(fresh@))
                        && #[trigger] refused_by(persist, tried, e)
            },
        },
{
    let ghost before = rows@;
    let on_the_side = |row: &MappingRow| -> (selected: bool)
        ensures
            selected == on_side(*key, pair_of(*row)),
        { key.selects(row) };
    let mut drained = drain_vec(rows, on_the_side);
    let kept: usize = rows.len();
    let ghost stay = rows@;
    let ghost gone = drained@;
    proof {
        split_has_the_same_items(before, stay, gone);
        split_keeps_pairs_distinct(before, stay, gone);
        assert forall|i: int| 0 <= i < stay.len() implies !on_side(*key, pair_of(#[trigger] stay[i])) by {
            assert(call_ensures(on_the_side, (&stay[i],), false));
        }
        assert forall|i: int| 0 <= i < gone.len() implies on_side(*key, pair_of(#[trigger] gone[i])) by {
            assert(call_ensures(on_the_side, (&gone[i],), true));
        }
        assert(fresh@.take(0) =~= Seq::<MappingRow>::empty());
        assert(pairs_of(stay) =~= pairs_of(stay).union(pairs_of(fresh@.take(0))));
    }
    let mut i: usize = 0;
    while i < fresh.len()
        invariant
            i <= fresh@.len(),
            kept <= rows@.len(),
            rows@.take(kept as int) == stay,
            distinct_pairs(rows@),
            pairs_of(rows@) == pairs_of(stay).union(pairs_of(fresh@.take(i as int))),
        decreases fresh@.len() - i,
    {
        let ghost so_far = rows@;
        proof {
            assert(fresh@.take(i + 1) =~= fresh@.take(i as int).push(fresh@[i as int]));
            pairs_after_push(fresh@.take(i as int), fresh@[i as int]);
            pairs_after_push(so_far, fresh@[i as int]);
        }
        if !holds_pair(rows, &fresh[i]) {
            let row: MappingRow = (fresh[i].0.clone(), fresh[i].1);
            proof {
                pairs_after_push(so_far, row);
            }
            rows.push(row);
            assert(rows@.take(kept as int) =~= so_far.take(kept as int));
        }
        assert(pairs_of(rows@) =~= pairs_of(stay).union(pairs_of(fresh@.take(i + 1))));
        i += 1;
    }
    proof {
        assert(fresh@.take(i as int) =~= fresh@);
        let goal = replaced_on_side(pairs_of(before), *key, pairs_of(fresh@));
        assert forall|pair: (PlatformIdView, u128)| pairs_of(rows@).contains(pair) implies goal.contains(
            pair,
        ) by {
            if pairs_of(stay).contains(pair) {
                let k = choose|k: int| 0 <= k < stay.len() && pair_of(#[trigger] stay[k]) == pair;
                let at = choose|at: int| 0 <= at < before.len() && before[at] == stay[k];
                assert(pair_of(before[at]) == pair);
            } else {
                let k = choose|k: int|
                    0 <= k < fresh@.len() && pair_of(#[trigger] fresh@[k]) == pair;
            }
        }
        assert forall|pair: (PlatformIdView, u128)| goal.contains(pair) implies pairs_of(
            rows@,
        ).contains(pair) by {
            if !on_side(*key, pair) {
                let at = choose|at: int|
                    0 <= at < before.len() && pair_of(#[trigger] before[at]) == pair;
                assert(stay.contains(before[at]) || gone.contains(before[at]));
                if gone.contains(before[at]) {
                    let g = choose|g: int| 0 <= g < gone.len() && gone[g] == before[at];
                    assert(on_side(*key, pair_of(gone[g])));
                }
                let k = choose|k: int| 0 <= k < stay.len() && stay[k] == before[at];
                assert(pair_of(stay[k]) == pair);
            }
        }
        assert(pairs_of(rows@) =~= goal);
    }
    let ghost tried = rows@;
    let written = persist(rows);
    assert(call_ensures(persist, (&*rows,), written));
    match written {
        Ok(_) => Ok(()),
        Err(e) => {
            rows.truncate(kept);
            assert(rows@ =~= stay);
            rows.append(&mut drained);
            proof {
                let back = rows@;
                assert(back =~= stay + gone);
                assert forall|i: int, j: int| 0 <= i < j < back.len() implies pair_of(
                    #[trigger] back[i],
                ) != pair_of(#[trigger] back[j]) by {
                    if j < stay.len() {
                        assert(back[i] == stay[i] && back[j] == stay[j]);
                    } else if i >= stay.len() {
                        assert(back[i] == gone[i - stay.len()] && back[j] == gone[j - stay.len()]);
                    } else {
                        assert(back[i] == stay[i] && back[j] == gone[j - stay.len()]);
                        assert(!on_side(*key, pair_of(stay[i])));
                        assert(on_side(*key, pair_of(gone[j - stay.len()])));
                    }
                }
                assert forall|pair: (PlatformIdView, u128)| pairs_of(back).contains(
                    pair,
                ) implies pairs_of(before).contains(pair) by {
                    let k = choose|k: int| 0 <= k < back.len() && pair_of(#[trigger] back[k]) == pair;
                    if k < stay.len() {
                        assert(back[k] == stay[k]);
                        let at = choose|at: int| 0 <= at < before.len() && before[at] == stay[k];
                        assert(pair_of(before[at]) == pair);
                    } else {
                        assert(back[k] == gone[k - stay.len()]);
                        let at = choose|at: int|
                            0 <= at < before.len() && before[at] == gone[k - stay.len()];
                        assert(pair_of(before[at]) == pair);
                    }
                }
                assert forall|pair: (PlatformIdView, u128)| pairs_of(before).contains(
                    pair,
                ) implies pairs_of(back).contains(pair) by {
                    let at = choose|at: int|
                        0 <= at < before.len() && pair_of(#[trigger] before[at]) == pair;
                    assert(stay.contains(before[at]) || gone.contains(before[at]));
                    if stay.contains(before[at]) {
                        let k = choose|k: int| 0 <= k < stay.len() && stay[k] == before[at];
                        assert(back[k] == stay[k]);
                    } else {
                        let g = choose|g: int| 0 <= g < gone.len() && gone[g] == before[at];
                        assert(back[stay.len() + g] == gone[g]);
                    }
                }
                assert(pairs_of(back) =~= pairs_of(before));
                assert(refused_by(persist, tried, e));
            }
            Err(e)
        },
    }
}

/// The relation between profiles and accounts, with no pair held twice.
pub struct ProfileAccountMappings {
    table: Vec<MappingRow>,
}

impl View for ProfileAccountMappings {
    type V = Set<(PlatformIdView, u128)>;

    open spec fn view(&self) -> Set<(PlatformIdView, u128)> {
        pairs_of(self.rows())
    }
}

impl ProfileAccountMappings {
    /// The rows as they are kept and persisted.
    pub closed spec fn rows(&self) -> Seq<MappingRow> {
        self.table@
    }

    /// What the relation maintains: no pair in two rows.
    #[verifier::type_invariant]
    pub closed spec fn well_formed(&self) -> bool {
        distinct_pairs(self.table@)
    }

    /// The rows of a well-formed relation repeat no pair.
    pub proof fn pairs_are_distinct(&self)
        requires
            self.well_formed(),
        ensures
            distinct_pairs(self.rows()),
    {
    }

    /// The empty relation.
    pub fn new() -> (empty: Self)
        ensures
            empty.rows() == Seq::<MappingRow>::empty(),
            empty@ == Set::<(PlatformIdView, u128)>::empty(),
    {
        let empty = ProfileAccountMappings { table: Vec::new() };
        assert(empty@ =~= Set::<(PlatformIdView, u128)>::empty());
        empty
    }

    /// The relation of the loaded rows, each pair once.
    pub fn load(rows: Vec<MappingRow>) -> (loaded: Self)
        ensures
            loaded@ == pairs_of(rows@),
    {
        let mut table: Vec<MappingRow> = Vec::new();
        let mut i: usize = 0;
        assert(pairs_of(table@) =~= pairs_of(rows@.take(0)));
        while i < rows.len()
            invariant
                i <= rows@.len(),
                distinct_pairs(table@),
                pairs_of(table@) == pairs_of(rows@.take(i as int)),
            decreases rows@.len() - i,
        {
            proof {
                assert(rows@.take(i + 1) =~= rows@.take(i as int).push(rows@[i as int]));
                pairs_after_push(rows@.take(i as int), rows@[i as int]);
                pairs_after_push(table@, rows@[i as int]);
            }
            if !holds_pair(&table, &rows[i]) {
                let row: MappingRow = (rows[i].0.clone(), rows[i].1);
                proof {
                    pairs_after_push(table@, row);
                }
                table.push(row);
            }
            assert(pairs_of(table@) =~= pairs_of(rows@.take(i + 1)));
            i += 1;
        }
        assert(rows@.take(i as int) =~= rows@);
        ProfileAccountMappings { table }
    }

    /// The rows themselves, as they are persisted.
    pub fn entries(&self) -> (all: &Vec<MappingRow>)
        ensures
            all@ == self.rows(),
            distinct_pairs(all@),
    {
        proof {
            use_type_invariant(self);
        }
        &self.table
    }

    /// Retrieves the profile IDs for an account
    pub fn account_profile_ids(&self, account_id: &PlatformAccountId) -> (ids: Vec<ProfileId>)
        ensures
            ids@ == profiles_in_rows(self.rows(), account_id@),
            listed_profiles(ids@) == profiles_of(self@, account_id@),
            forall|a: int, b: int| 0 <= a < b < ids@.len() ==> ids@[a]@ != ids@[b]@,
    {
        proof {
            use_type_invariant(self);
        }
        let mut ids: Vec<ProfileId> = Vec::new();
        let ghost mut from: Seq<int> = Seq::empty();
        let mut i: usize = 0;
        while i < self.table.len()
            invariant
                i <= self.table@.len(),
                distinct_pairs(self.table@),
                from.len() == ids@.len(),
                forall|k: int|
                    0 <= k < from.len() ==> 0 <= #[trigger] from[k] < i && self.table@[from[k]].0@
                        == account_id@ && self.table@[from[k]].1 == ids@[k],
                forall|a: int, b: int| 0 <= a < b < from.len() ==> from[a] < from[b],
                forall|j: int|
                    0 <= j < i && (#[trigger] self.table@[j]).0@ == account_id@ ==> exists|k: int|
                        0 <= k < from.len() && from[k] == j,
                ids@ == profiles_in_rows(self.table@.take(i as int), account_id@),
            decreases self.table@.len() - i,
        {
            let ghost earlier = from;
            proof {
                assert(self.table@.take(i + 1).drop_last() =~= self.table@.take(i as int));
                assert(self.table@.take(i + 1).last() == self.table@[i as int]);
            }
            if self.table[i].0 == *account_id {
                ids.push(self.table[i].1);
                proof {
                    from = from.push(i as int);
                    assert(from[from.len() - 1] == i);
                }
            }
            proof {
                assert forall|j: int|
                    0 <= j < i + 1 && (#[trigger] self.table@[j]).0@
                        == account_id@ implies exists|k: int|
                    0 <= k < from.len() && from[k] == j by {
                    if j < i {
                        let k = choose|k: int| 0 <= k < earlier.len() && earlier[k] == j;
                        assert(from[k] == j);
                    } else {
                        assert(from[from.len() - 1] == j);
                    }
                }
            }
            i += 1;
        }
        proof {
            let rows = self.table@;
            assert(rows.take(i as int) =~= rows);
            assert forall|profile: u128| listed_profiles(ids@).contains(profile) implies profiles_of(
                self@,
                account_id@,
            ).contains(profile) by {
                let k = choose|k: int| 0 <= k < ids@.len() && (#[trigger] ids@[k])@ == profile;
                assert(pair_of(rows[from[k]]) == (account_id@, profile));
            }
            assert forall|profile: u128|
                profiles_of(self@, account_id@).contains(profile) implies listed_profiles(
                ids@,
            ).contains(profile) by {
                let j = choose|j: int|
                    0 <= j < rows.len() && pair_of(#[trigger] rows[j]) == (account_id@, profile);
                let k = choose|k: int| 0 <= k < from.len() && from[k] == j;
                assert(ids@[k]@ == profile);
            }
            assert(listed_profiles(ids@) =~= profiles_of(self@, account_id@));
            assert forall|a: int, b: int| 0 <= a < b < ids@.len() implies ids@[a]@ != ids@[b]@ by {
                assert(pair_of(rows[from[a]]) != pair_of(rows[from[b]]));
            }
        }
        ids
    }

    /// Retrieves the account IDs for a profile
    pub fn profile_account_ids(&self, profile_id: &ProfileId) -> (ids: Vec<PlatformAccountId>)
        ensures
            ids@ == accounts_in_rows(self.rows(), profile_id@),
            listed_accounts(ids@) == accounts_of(self@, profile_id@),
            forall|a: int, b: int| 0 <= a < b < ids@.len() ==> ids@[a]@ != ids@[b]@,
    {
        proof {
            use_type_invariant(self);
        }
        let mut ids: Vec<PlatformAccountId> = Vec::new();
        let ghost mut from: Seq<int> = Seq::empty();
        let mut i: usize = 0;
        while i < self.table.len()
            invariant
                i <= self.table@.len(),
                distinct_pairs(self.table@),
                from.len() == ids@.len(),
                forall|k: int|
                    0 <= k < from.len() ==> 0 <= #[trigger] from[k] < i && self.table@[from[k]].1@
                        == profile_id@ && self.table@[from[k]].0 == ids@[k],
                forall|a: int, b: int| 0 <= a < b < from.len() ==> from[a] < from[b],
                forall|j: int|
                    0 <= j < i && (#[trigger] self.table@[j]).1@ == profile_id@ ==> exists|k: int|
                        0 <= k < from.len() && from[k] == j,
                ids@ == accounts_in_rows(self.table@.take(i as int), profile_id@),
            decreases self.table@.len() - i,
        {
            let ghost earlier = from;
            proof {
                assert(self.table@.take(i + 1).drop_last() =~= self.table@.take(i as int));
                assert(self.table@.take(i + 1).last() == self.table@[i as int]);
            }
            if self.table[i].1.0 == profile_id.0 {
                ids.push(self.table[i].0.clone());
                proof {
                    from = from.push(i as int);
                    assert(from[from.len() - 1] == i);
                }
            }
            proof {
                assert forall|j: int|
                    0 <= j < i + 1 && (#[trigger] self.table@[j]).1@
                        == profile_id@ implies exists|k: int|
                    0 <= k < from.len() && from[k] == j by {
                    if j < i {
                        let k = choose|k: int| 0 <= k < earlier.len() && earlier[k] == j;
                        assert(from[k] == j);
                    } else {
                        assert(from[from.len() - 1] == j);
                    }
                }
            }
            i += 1;
        }
        proof {
            let rows = self.table@;
            assert(rows.take(i as int) =~= rows);
            assert forall|account: PlatformIdView| listed_accounts(ids@).contains(
                account,
            ) implies accounts_of(self@, profile_id@).contains(account) by {
                let k = choose|k: int| 0 <= k < ids@.len() && (#[trigger] ids@[k])@ == account;
                assert(pair_of(rows[from[k]]) == (account, profile_id@));
            }
            assert forall|account: PlatformIdView|
                accounts_of(self@, profile_id@).contains(account) implies listed_accounts(
                ids@,
            ).contains(account) by {
                let j = choose|j: int|
                    0 <= j < rows.len() && pair_of(#[trigger] rows[j]) == (account, profile_id@);
                let k = choose|k: int| 0 <= k < from.len() && from[k] == j;
                assert(ids@[k]@ == account);
            }
            assert(listed_accounts(ids@) =~= accounts_of(self@, profile_id@));
            assert forall|a: int, b: int| 0 <= a < b < ids@.len() implies ids@[a]@ != ids@[b]@ by {
                assert(pair_of(rows[from[a]]) != pair_of(rows[from[b]]));
            }
        }
        ids
    }

    /// Updates the account IDs for a profile: the given accounts become all
    /// that the profile has. The changed rows go to `persist`; if it fails,
    /// the relation is what it was.
    pub fn update_profile_account_ids<F: Fn(&Vec<MappingRow>) -> Result<(), StorageError>>(
        &mut self,
        profile_id: ProfileId,
        account_ids: Vec<PlatformAccountId>,
        persist: &F,
    ) -> (outcome: Result<(), StorageError>)
        requires
            forall|v: &Vec<MappingRow>| call_requires(persist, (v,)),
        ensures
            match outcome {
                Ok(_) => {
                    &&& final(self)@ == with_accounts_of_profile(
                        old(self)@,
                        profile_id@,
                        listed_accounts(account_ids@),
                    )
                    &&& accepted_by(persist, final(self).rows())
                },
                Err(e) => {
                    &&& final(self)@ == old(self)@
                    &&& exists|tried: Seq<MappingRow>|
                        pairs_of(tried) == with_accounts_of_profile(
                            old(self)@,
                            profile_id@,
                            listed_accounts(account_ids@),
                        ) && #[trigger] refused_by(persist, tried, e)
                },
            },
    {
        proof {
            use_type_invariant(&*self);
        }
        let mut fresh: Vec<MappingRow> = Vec::new();
        let mut i: usize = 0;
        while i < account_ids.len()
            invariant
                i <= account_ids@.len(),
                fresh@.len() == i,
                forall|k: int|
                    0 <= k < i ==> pair_of(#[trigger] fresh@[k]) == (account_ids@[k]@, profile_id@),
            decreases account_ids@.len() - i,
        {
            fresh.push((account_ids[i].clone(), profile_id));
            i += 1;
        }
        let key = MappingKey::Profile(profile_id);
        let mut rows: Vec<MappingRow> = Vec::new();
        core::mem::swap(&mut self.table, &mut rows);
        let ghost before = rows@;
        let outcome = replace_rows(&mut rows, &key, &fresh, persist);
        proof {
            let wanted = with_accounts_of_profile(
                pairs_of(before),
                profile_id@,
                listed_accounts(account_ids@),
            );
            let got = replaced_on_side(pairs_of(before), key, pairs_of(fresh@));
            assert forall|pair: (PlatformIdView, u128)| got.contains(pair) implies wanted.contains(
                pair,
            ) by {
                if on_side(key, pair) {
                    let k = choose|k: int|
                        0 <= k < fresh@.len() && pair_of(#[trigger] fresh@[k]) == pair;
                    assert(account_ids@[k]@ == pair.0);
                }
            }
            assert forall|pair: (PlatformIdView, u128)| wanted.contains(pair) implies got.contains(
                pair,
            ) by {
                if pair.1 == profile_id@ {
                    let k = choose|k: int|
                        0 <= k < account_ids@.len() && (#[trigger] account_ids@[k])@ == pair.0;
                    assert(pair_of(fresh@[k]) == pair);
                }
            }
            assert(got =~= wanted);
        }
        core::mem::swap(&mut self.table, &mut rows);
        outcome
    }

    /// Updates the profile IDs for an account: the given profiles become all
    /// that the account has. The changed rows go to `persist`; if it fails,
    /// the relation is what it was.
    pub fn update_account_profile_ids<F: Fn(&Vec<MappingRow>) -> Result<(), StorageError>>(
        &mut self,
        account_id: PlatformAccountId,
        profile_ids: Vec<ProfileId>,
        persist: &F,
    ) -> (outcome: Result<(), StorageError>)
        requires
            forall|v: &Vec<MappingRow>| call_requires(persist, (v,)),
        ensures
            match outcome {
                Ok(_) => {
                    &&& final(self)@ == with_profiles_of_account(
                        old(self)@,
                        account_id@,
                        listed_profiles(profile_ids@),
                    )
                    &&& accepted_by(persist, final(self).rows())
                },
                Err(e) => {
                    &&& final(self)@ == old(self)@
                    &&& exists|tried: Seq<MappingRow>|
                        pairs_of(tried) == with_profiles_of_account(
                            old(self)@,
                            account_id@,
                            listed_profiles(profile_ids@),
                        ) && #[trigger] refused_by(persist, tried, e)
                },
            },
    {
        proof {
            use_type_invariant(&*self);
        }
        let mut fresh: Vec<MappingRow> = Vec::new();
        let mut i: usize = 0;
        while i < profile_ids.len()
            invariant
                i <= profile_ids@.len(),
                fresh@.len() == i,
                forall|k: int|
                    0 <= k < i ==> pair_of(#[trigger] fresh@[k]) == (account_id@, profile_ids@[k]@),
            decreases profile_ids@.len() - i,
        {
            fresh.push((account_id.clone(), profile_ids[i]));
            i += 1;
        }
        let key = MappingKey::Account(account_id);
        let mut rows: Vec<MappingRow> = Vec::new();
        core::mem::swap(&mut self.table, &mut rows);
        let ghost before = rows@;
        let outcome = replace_rows(&mut rows, &key, &fresh, persist);
        proof {
            let wanted = with_profiles_of_account(
                pairs_of(before),
                account_id@,
                listed_profiles(profile_ids@),
            );
            let got = replaced_on_side(pairs_of(before), key, pairs_of(fresh@));
            assert forall|pair: (PlatformIdView, u128)| got.contains(pair) implies wanted.contains(
                pair,
            ) by {
                if on_side(key, pair) {
                    let k = choose|k: int|
                        0 <= k < fresh@.len() && pair_of(#[trigger] fresh@[k]) == pair;
                    assert(profile_ids@[k]@ == pair.1);
                }
            }
            assert forall|pair: (PlatformIdView, u128)| wanted.contains(pair) implies got.contains(
                pair,
            ) by {
                if pair.0 == account_id@ {
                    let k = choose|k: int|
                        0 <= k < profile_ids@.len() && (#[trigger] profile_ids@[k])@ == pair.1;
                    assert(pair_of(fresh@[k]) == pair);
                }
            }
            assert(got =~= wanted);
        }
        core::mem::swap(&mut self.table, &mut rows);
        outcome
    }

    /// Removes every row of the profile. The changed rows go to `persist`; if
    /// it fails, the relation is what it was.
    pub fn delete_profile<F: Fn(&Vec<MappingRow>) -> Result<(), StorageError>>(
        &mut self,
        profile_id: ProfileId,
        persist: &F,
    ) -> (outcome: Result<(), StorageError>)
        requires
            forall|v: &Vec<MappingRow>| call_requires(persist, (v,)),
        ensures
            match outcome {
                Ok(_) => {
                    &&& final(self)@ == with_accounts_of_profile(
                        old(self)@,
                        profile_id@,
                        Set::<PlatformIdView>::empty(),
                    )
                    &&& accepted_by(persist, final(self).rows())
                },
                Err(e) => {
                    &&& final(self)@ == old(self)@
                    &&& exists|tried: Seq<MappingRow>|
                        pairs_of(tried) == with_accounts_of_profile(
                            old(self)@,
                            profile_id@,
                            Set::<PlatformIdView>::empty(),
                        ) && #[trigger] refused_by(persist, tried, e)
                },
            },
    {
        let nobody: Vec<PlatformAccountId> = Vec::new();
        assert(listed_accounts(nobody@) =~= Set::<PlatformIdView>::empty());
        self.update_profile_account_ids(profile_id, nobody, persist)
    }
}

} // verus!
