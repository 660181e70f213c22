//! The rotation rule: from the current roster and the pending removals and
//! additions, compute the roster of the next session, or refuse a roster that
//! would fall under the minimum number of authorities.
use vstd::prelude::*;

verus! {

/// Position of the first occurrence of `v` in `s` (meaningful when `s.contains(v)`).
pub open spec fn first_position(s: Seq<u64>, v: u64) -> int {
    choose|i: int| 0 <= i < s.len() && s[i] == v && forall|j: int| 0 <= j < i ==> s[j] != v
}

/// `s` with its first occurrence of `v` taken out: the last element moves into
/// the freed slot. Without an occurrence, `s` is unchanged.
pub open spec fn swap_out(s: Seq<u64>, v: u64) -> Seq<u64> {
    if s.contains(v) {
        s.update(first_position(s, v), s.last()).drop_last()
    } else {
        s
    }
}

/// The roster after each removal, in queue order, has been swapped out.
pub open spec fn remove_all(roster: Seq<u64>, removals: Seq<u64>) -> Seq<u64>
    decreases removals.len(),
{
    if removals.len() == 0 {
        roster
    } else {
        swap_out(remove_all(roster, removals.drop_last()), removals.last())
    }
}

/// The roster after each addition, in queue order, has been appended unless
/// it is already there.
pub open spec fn add_missing(roster: Seq<u64>, additions: Seq<u64>) -> Seq<u64>
    decreases additions.len(),
{
    if additions.len() == 0 {
        roster
    } else {
        let w = add_missing(roster, additions.drop_last());
        if w.contains(additions.last()) {
            w
        } else {
            w.push(additions.last())
        }
    }
}

/// The working roster: removals first, then additions.
pub open spec fn proposed_roster(current: Seq<u64>, removals: Seq<u64>, additions: Seq<u64>) -> Seq<u64> {
    add_missing(remove_all(current, removals), additions)
}

/// The outcome of a rotation: the working roster, or `None` ("keep the current
/// roster") when it is smaller than `min_authorities`.
pub open spec fn rotation(
    current: Seq<u64>,
    removals: Seq<u64>,
    additions: Seq<u64>,
    min_authorities: nat,
) -> Option<Seq<u64>> {
    let w = proposed_roster(current, removals, additions);
    if w.len() < min_authorities {
        None
    } else {
        Some(w)
    }
}

/// The roster that the session scheduler runs with after a rotation outcome.
pub open spec fn adopted(current: Seq<u64>, outcome: Option<Seq<u64>>) -> Seq<u64> {
    match outcome {
        Some(r) => r,
        None => current,
    }
}

/// The view of an optional roster.
pub open spec fn roster_view(r: Option<Vec<u64>>) -> Option<Seq<u64>> {
    match r {
        Some(v) => Some(v@),
        None => None,
    }
}

/// The ids of `batch` that are not in `current`, in batch order.
pub open spec fn newcomers(current: Seq<u64>, batch: Seq<u64>) -> Seq<u64> {
    batch.filter(|x: u64| !current.contains(x))
}

proof fn lemma_newcomers_from_batch(current: Seq<u64>, batch: Seq<u64>, x: u64)
    requires
        newcomers(current, batch).contains(x),
    ensures
        batch.contains(x),
    decreases batch.len(),
{
    reveal(Seq::filter);
    if batch.len() > 0 {
        let f = newcomers(current, batch.drop_last());
        if f.contains(x) {
            lemma_newcomers_from_batch(current, batch.drop_last(), x);
            let k = choose|k: int| 0 <= k < batch.drop_last().len() && batch.drop_last()[k] == x;
            assert(batch[k] == x);
        } else {
            let g = newcomers(current, batch);
            let k = choose|k: int| 0 <= k < g.len() && g[k] == x;
            if !current.contains(batch.last()) {
                assert(g == f.push(batch.last()));
                if k < f.len() {
                    assert(f[k] == x);
                }
                assert(batch[batch.len() - 1] == x);
            } else {
                assert(g == f);
            }
        }
    }
}

/// Additions of distinct ids extend the roster by those of them that are not
/// yet in it, in the order they were queued.
pub proof fn lemma_add_missing_appends_newcomers(current: Seq<u64>, batch: Seq<u64>)
    requires
        batch.no_duplicates(),
    ensures
        add_missing(current, batch) == current + newcomers(current, batch),
    decreases batch.len(),
{
    reveal(Seq::filter);
    if batch.len() == 0 {
        assert(current + newcomers(current, batch) =~= current);
    } else {
        let b = batch.drop_last();
        let x = batch.last();
        assert(b.no_duplicates());
        lemma_add_missing_appends_newcomers(current, b);
        let f = newcomers(current, b);
        let w = current + f;
        assert(!f.contains(x)) by {
            if f.contains(x) {
                lemma_newcomers_from_batch(current, b, x);
                let k = choose|k: int| 0 <= k < b.len() && b[k] == x;
                assert(batch[k] == batch[batch.len() - 1]);
            }
        }
        if current.contains(x) {
            let k = choose|k: int| 0 <= k < current.len() && current[k] == x;
            assert(w[k] == x);
        } else {
            assert(!w.contains(x)) by {
                if w.contains(x) {
                    let k = choose|k: int| 0 <= k < w.len() && w[k] == x;
                    if k < current.len() {
                        assert(current[k] == x);
                    } else {
                        assert(f[k - current.len()] == x);
                    }
                }
            }
            assert(w.push(x) =~= current + f.push(x));
        }
    }
}

/// A rotation whose only pending changes are additions of distinct ids
/// yields the union of the roster and the batch in append order, unless that
/// union is under the minimum.
pub proof fn lemma_additions_only_rotation(current: Seq<u64>, batch: Seq<u64>, min_authorities: nat)
    requires
        batch.no_duplicates(),
    ensures
        rotation(current, Seq::empty(), batch, min_authorities) == (if (current + newcomers(
            current,
            batch,
        )).len() >= min_authorities {
            Some(current + newcomers(current, batch))
        } else {
            None
        }),
{
    lemma_add_missing_appends_newcomers(current, batch);
}

/// In a roster without repeated ids, swapping out an id leaves no copy of it.
pub proof fn lemma_swap_out_removes(s: Seq<u64>, v: u64)
    requires
        s.no_duplicates(),
    ensures
        !swap_out(s, v).contains(v),
        s.contains(v) ==> swap_out(s, v).len() == s.len() - 1,
{
    if s.contains(v) {
        let p = first_position(s, v);
        let t = swap_out(s, v);
        if t.contains(v) {
            let k = choose|k: int| 0 <= k < t.len() && t[k] == v;
            if k == p {
                assert(s[s.len() - 1] == s[p]);
            } else {
                assert(s[k] == s[p]);
            }
        }
    }
}

/// Removing a validator that is in a roster without repeated ids, with no
/// other pending change, leaves a roster without it one shorter, which is
/// adopted unless it is under the minimum.
pub proof fn lemma_single_removal_rotation(current: Seq<u64>, v: u64, min_authorities: nat)
    requires
        current.no_duplicates(),
        current.contains(v),
    ensures
        ({
            let r = proposed_roster(current, seq![v], Seq::empty());
            &&& !r.contains(v)
            &&& r.len() == current.len() - 1
            &&& rotation(current, seq![v], Seq::empty(), min_authorities) == (if r.len()
                >= min_authorities {
                Some(r)
            } else {
                None
            })
        }),
{
    assert(seq![v].drop_last() =~= Seq::<u64>::empty());
    assert(seq![v].last() == v);
    assert(remove_all(current, Seq::<u64>::empty()) == current);
    assert(remove_all(current, seq![v]) == swap_out(current, v));
    assert(proposed_roster(current, seq![v], Seq::empty()) == swap_out(current, v));
    lemma_swap_out_removes(current, v);
}

/// With nothing queued, a rotation proposes the current roster itself, and
/// the roster in force stays the same.
pub proof fn lemma_rotation_without_changes(current: Seq<u64>, min_authorities: nat)
    ensures
        rotation(current, Seq::empty(), Seq::empty(), min_authorities) == (if current.len()
            >= min_authorities {
            Some(current)
        } else {
            None
        }),
        adopted(current, rotation(current, Seq::empty(), Seq::empty(), min_authorities))
            == current,
{
}

/// Removals that would take a roster under the minimum are refused as a
/// whole: the rotation keeps the current roster.
pub proof fn lemma_floor_keeps_roster(current: Seq<u64>, removals: Seq<u64>, min_authorities: nat)
    requires
        current.len() >= min_authorities,
        remove_all(current, removals).len() < min_authorities,
    ensures
        rotation(current, removals, Seq::empty(), min_authorities) is None,
        adopted(current, rotation(current, removals, Seq::empty(), min_authorities)) == current,
{
}

/// Index of the first occurrence of `v` in `roster`, if any.
pub fn position_of(roster: &Vec<u64>, v: u64) -> (r: Option<usize>)
    ensures
        match r {
            Some(i) => i < roster@.len() && roster@[i as int] == v && forall|j: int|
                0 <= j < i ==> roster@[j] != v,
            None => !roster@.contains(v),
        },
{
    let mut i: usize = 0;
    while i < roster.len()
        invariant
            i <= roster@.len(),
            forall|j: int| 0 <= j < i ==> roster@[j] != v,
        decreases roster@.len() - i,
    {
        if roster[i] == v {
            return Some(i);
        }
        i = i + 1;
    }
    None
}

/// Whether `v` occurs in `roster`.
pub fn contains_id(roster: &Vec<u64>, v: u64) -> (r: bool)
    ensures
        r == roster@.contains(v),
{
    match position_of(roster, v) {
        Some(i) => {
            assert(roster@[i as int] == v);
            true
        },
        None => false,
    }
}

/// Takes the first occurrence of `v` out of `roster` by swapping the last
/// element into its place.
pub fn swap_out_first(roster: &mut Vec<u64>, v: u64)
    ensures
        final(roster)@ == swap_out(old(roster)@, v),
{
    match position_of(roster, v) {
        Some(pos) => {
            let ghost s = roster@;
            assert(s.contains(v));
            let ghost p = first_position(s, v);
            assert(0 <= p < s.len() && s[p] == v && forall|j: int| 0 <= j < p ==> s[j] != v);
            assert(p == pos as int) by {
                if p < pos {
                    assert(s[p] != v);
                }
                if (pos as int) < p {
                    assert(s[pos as int] != v);
                }
            }
            roster.swap_remove(pos);
        },
        None => {},
    }
}

/// The rotation applied to concrete queues: the next roster, or `None` when
/// it would hold fewer than `min_authorities` validators.
pub fn apply_changes(
    current: &Vec<u64>,
    removals: &Vec<u64>,
    additions: &Vec<u64>,
    min_authorities: u32,
) -> (r: Option<Vec<u64>>)
    ensures
        roster_view(r) == rotation(current@, removals@, additions@, min_authorities as nat),
{
    let mut working = current.clone();
    let mut i: usize = 0;
    while i < removals.len()
        invariant
            i <= removals@.len(),
            working@ == remove_all(current@, removals@.subrange(0, i as int)),
        decreases removals@.len() - i,
    {
        assert(removals@.subrange(0, i + 1).drop_last() =~= removals@.subrange(0, i as int));
        swap_out_first(&mut working, removals[i]);
        i = i + 1;
    }
    assert(removals@.subrange(0, removals@.len() as int) =~= removals@);
    let ghost removed = working@;
    let mut k: usize = 0;
    while k < additions.len()
        invariant
            k <= additions@.len(),
            working@ == add_missing(removed, additions@.subrange(0, k as int)),
        decreases additions@.len() - k,
    {
        assert(additions@.subrange(0, k + 1).drop_last() =~= additions@.subrange(0, k as int));
        let v = additions[k];
        if !contains_id(&working, v) {
            working.push(v);
        }
        k = k + 1;
    }
    assert(additions@.subrange(0, additions@.len() as int) =~= additions@);
    if working.len() < min_authorities as usize {
        None
    } else {
        Some(working)
    }
}

} // verus!
