//! Nullifier conservation over whole event runs. The wallet's two
//! mutators implement the per-event transition `spec_note_step` (their
//! contracts say so); here that transition is folded over a sequence of
//! deposits followed by spends of a subset, and the observable amount is
//! proved to land exactly on the sum of the deposits never spent.
use vstd::prelude::*;

use crate::scanner::{spec_note_step, NoteEvent};

verus! {

/// The wallet state after a run of events, starting from a recorded map
/// and an observable amount.
pub open spec fn spec_note_run(m: Map<Seq<u8>, u64>, a: int, es: Seq<NoteEvent>) -> (Map<
    Seq<u8>,
    u64,
>, int)
    decreases es.len(),
{
    if es.len() == 0 {
        (m, a)
    } else {
        let next = spec_note_step(m, a, es[0]);
        spec_note_run(next.0, next.1, es.drop_first())
    }
}

/// A run splits at any point: the tail runs from where the head left off.
pub proof fn lemma_note_run_append(m: Map<Seq<u8>, u64>, a: int, es1: Seq<NoteEvent>, es2: Seq<NoteEvent>)
    ensures
        spec_note_run(m, a, es1 + es2) == spec_note_run(
            spec_note_run(m, a, es1).0,
            spec_note_run(m, a, es1).1,
            es2,
        ),
    decreases es1.len(),
{
    if es1.len() == 0 {
        assert(es1 + es2 =~= es2);
    } else {
        let next = spec_note_step(m, a, es1[0]);
        assert((es1 + es2).drop_first() =~= es1.drop_first() + es2);
        lemma_note_run_append(next.0, next.1, es1.drop_first(), es2);
    }
}

/// The deposit events of a run of deposits, in order.
pub open spec fn spec_deposit_events(deps: Seq<(Seq<u8>, u64)>) -> Seq<NoteEvent> {
    deps.map_values(|d: (Seq<u8>, u64)| NoteEvent::Deposit { nullifier: d.0, amount: d.1 })
}

/// The spend events of a run of settlements, in order.
pub open spec fn spec_spend_events(spent: Seq<Seq<u8>>) -> Seq<NoteEvent> {
    spent.map_values(|n: Seq<u8>| NoteEvent::Spend { nullifier: n })
}

/// No two deposits reveal the same nullifier.
pub open spec fn spec_distinct_keys(deps: Seq<(Seq<u8>, u64)>) -> bool {
    forall|i: int, j: int|
        0 <= i < j < deps.len() ==> #[trigger] deps[i].0 != #[trigger] deps[j].0
}

/// No nullifier is settled twice.
pub open spec fn spec_distinct(spent: Seq<Seq<u8>>) -> bool {
    forall|i: int, j: int| 0 <= i < j < spent.len() ==> spent[i] != spent[j]
}

/// The total of a run of deposits.
pub open spec fn spec_deposit_sum(deps: Seq<(Seq<u8>, u64)>) -> int
    decreases deps.len(),
{
    if deps.len() == 0 {
        0
    } else {
        deps[0].1 + spec_deposit_sum(deps.drop_first())
    }
}

/// The total of the deposits whose nullifier is outside `spent`.
pub open spec fn spec_unspent_sum(deps: Seq<(Seq<u8>, u64)>, spent: Set<Seq<u8>>) -> int
    decreases deps.len(),
{
    if deps.len() == 0 {
        0
    } else {
        (if spent.contains(deps[0].0) {
            0
        } else {
            deps[0].1 as int
        }) + spec_unspent_sum(deps.drop_first(), spent)
    }
}

/// The amount of the deposit carrying a given nullifier.
pub open spec fn spec_amount_of(deps: Seq<(Seq<u8>, u64)>, n: Seq<u8>) -> int
    decreases deps.len(),
{
    if deps.len() == 0 {
        0
    } else if deps[0].0 == n {
        deps[0].1 as int
    } else {
        spec_amount_of(deps.drop_first(), n)
    }
}

/// The map a run of deposits builds on top of `m`.
pub open spec fn spec_map_with(m: Map<Seq<u8>, u64>, deps: Seq<(Seq<u8>, u64)>) -> Map<Seq<u8>, u64>
    decreases deps.len(),
{
    if deps.len() == 0 {
        m
    } else {
        spec_map_with(m.insert(deps[0].0, deps[0].1), deps.drop_first())
    }
}

/// Whether some deposit carries the nullifier `n`.
pub open spec fn spec_has_key(deps: Seq<(Seq<u8>, u64)>, n: Seq<u8>) -> bool {
    exists|j: int| 0 <= j < deps.len() && #[trigger] deps[j].0 == n
}

/// A key no deposit carries stays untouched by the deposit map.
proof fn lemma_map_with_untouched(m: Map<Seq<u8>, u64>, deps: Seq<(Seq<u8>, u64)>, n: Seq<u8>)
    requires
        !spec_has_key(deps, n),
    ensures
        spec_map_with(m, deps).dom().contains(n) == m.dom().contains(n),
        m.dom().contains(n) ==> spec_map_with(m, deps)[n] == m[n],
    decreases deps.len(),
{
    if deps.len() > 0 {
        assert(deps[0].0 != n);
        assert forall|j: int| 0 <= j < deps.drop_first().len() implies #[trigger] deps.drop_first()[j].0
            != n by {
            assert(deps[j + 1].0 == deps.drop_first()[j].0);
        }
        lemma_map_with_untouched(m.insert(deps[0].0, deps[0].1), deps.drop_first(), n);
    }
}

/// Under distinct keys, the deposit map holds exactly the deposited
/// nullifiers with their amounts, over whatever was there before.
proof fn lemma_map_with_at(m: Map<Seq<u8>, u64>, deps: Seq<(Seq<u8>, u64)>, n: Seq<u8>)
    requires
        spec_distinct_keys(deps),
        spec_has_key(deps, n),
    ensures
        spec_map_with(m, deps).dom().contains(n),
        spec_map_with(m, deps)[n] == spec_amount_of(deps, n),
    decreases deps.len(),
{
    let rest = deps.drop_first();
    assert forall|i: int, j: int| 0 <= i < j < rest.len() implies #[trigger] rest[i].0
        != #[trigger] rest[j].0 by {
        assert(rest[i] == deps[i + 1] && rest[j] == deps[j + 1]);
    }
    if deps[0].0 == n {
        assert forall|j: int| 0 <= j < rest.len() implies #[trigger] rest[j].0 != n by {
            assert(rest[j] == deps[j + 1]);
        }
        lemma_map_with_untouched(m.insert(n, deps[0].1), rest, n);
    } else {
        let j = choose|j: int| 0 <= j < deps.len() && #[trigger] deps[j].0 == n;
        assert(rest[j - 1].0 == n);
        lemma_map_with_at(m.insert(deps[0].0, deps[0].1), rest, n);
    }
}

/// Running a sequence of fresh, distinct deposits inserts them all and
/// grows the amount by their total.
proof fn lemma_deposit_run(m: Map<Seq<u8>, u64>, a: int, deps: Seq<(Seq<u8>, u64)>)
    requires
        spec_distinct_keys(deps),
        forall|i: int| 0 <= i < deps.len() ==> !m.dom().contains(#[trigger] deps[i].0),
    ensures
        spec_note_run(m, a, spec_deposit_events(deps)) == (
            spec_map_with(m, deps),
            a + spec_deposit_sum(deps),
        ),
    decreases deps.len(),
{
    let es = spec_deposit_events(deps);
    if deps.len() == 0 {
        assert(spec_note_run(m, a, es) == (m, a));
    } else {
        let rest = deps.drop_first();
        assert(es[0] == NoteEvent::Deposit { nullifier: deps[0].0, amount: deps[0].1 });
        assert(!m.dom().contains(deps[0].0));
        let m1 = m.insert(deps[0].0, deps[0].1);
        assert(es.drop_first() =~= spec_deposit_events(rest));
        assert forall|i: int, j: int| 0 <= i < j < rest.len() implies #[trigger] rest[i].0
            != #[trigger] rest[j].0 by {
            assert(rest[i] == deps[i + 1] && rest[j] == deps[j + 1]);
        }
        assert forall|i: int| 0 <= i < rest.len() implies !m1.dom().contains(
            #[trigger] rest[i].0,
        ) by {
            assert(rest[i] == deps[i + 1]);
        }
        lemma_deposit_run(m1, a + deps[0].1, rest);
        assert(spec_deposit_sum(deps) == deps[0].1 + spec_deposit_sum(rest));
    }
}

/// The values a run of spends reclaims, read off the map before the run.
pub open spec fn spec_spent_values(m: Map<Seq<u8>, u64>, spent: Seq<Seq<u8>>) -> int
    decreases spent.len(),
{
    if spent.len() == 0 {
        0
    } else {
        m[spent[0]] + spec_spent_values(m, spent.drop_first())
    }
}

/// Removing an unrelated key changes no reclaimed value.
proof fn lemma_spent_values_remove(m: Map<Seq<u8>, u64>, k: Seq<u8>, spent: Seq<Seq<u8>>)
    requires
        forall|i: int| 0 <= i < spent.len() ==> spent[i] != k,
        forall|i: int| 0 <= i < spent.len() ==> m.dom().contains(#[trigger] spent[i]),
    ensures
        spec_spent_values(m.remove(k), spent) == spec_spent_values(m, spent),
    decreases spent.len(),
{
    if spent.len() > 0 {
        assert forall|i: int| 0 <= i < spent.drop_first().len() implies spent.drop_first()[i] != k
            && m.dom().contains(#[trigger] spent.drop_first()[i]) by {
            assert(spent.drop_first()[i] == spent[i + 1]);
        }
        lemma_spent_values_remove(m, k, spent.drop_first());
    }
}

/// Running distinct spends of recorded nullifiers lowers the amount by
/// exactly the recorded values.
proof fn lemma_spend_run(m: Map<Seq<u8>, u64>, a: int, spent: Seq<Seq<u8>>)
    requires
        spec_distinct(spent),
        forall|i: int| 0 <= i < spent.len() ==> m.dom().contains(#[trigger] spent[i]),
    ensures
        spec_note_run(m, a, spec_spend_events(spent)).1 == a - spec_spent_values(m, spent),
    decreases spent.len(),
{
    let es = spec_spend_events(spent);
    if spent.len() > 0 {
        let rest = spent.drop_first();
        assert(es[0] == NoteEvent::Spend { nullifier: spent[0] });
        assert(m.dom().contains(spent[0]));
        let m1 = m.remove(spent[0]);
        assert(es.drop_first() =~= spec_spend_events(rest));
        assert forall|i: int, j: int| 0 <= i < j < rest.len() implies rest[i] != rest[j] by {
            assert(rest[i] == spent[i + 1] && rest[j] == spent[j + 1]);
        }
        assert forall|i: int| 0 <= i < rest.len() implies m1.dom().contains(
            #[trigger] rest[i],
        ) by {
            assert(rest[i] == spent[i + 1]);
        }
        lemma_spend_run(m1, a - m[spent[0]], rest);
        assert forall|i: int| 0 <= i < rest.len() implies rest[i] != spent[0] && m.dom().contains(
            #[trigger] rest[i],
        ) by {
            assert(rest[i] == spent[i + 1]);
        }
        lemma_spent_values_remove(m, spent[0], rest);
    }
}

/// With nothing marked spent, the unspent total is the whole total.
proof fn lemma_unspent_empty(deps: Seq<(Seq<u8>, u64)>)
    ensures
        spec_unspent_sum(deps, Set::empty()) == spec_deposit_sum(deps),
    decreases deps.len(),
{
    if deps.len() > 0 {
        lemma_unspent_empty(deps.drop_first());
    }
}

/// Marking a nullifier no deposit carries changes no unspent total.
proof fn lemma_unspent_indep(deps: Seq<(Seq<u8>, u64)>, s: Set<Seq<u8>>, k: Seq<u8>)
    requires
        !spec_has_key(deps, k),
    ensures
        spec_unspent_sum(deps, s.insert(k)) == spec_unspent_sum(deps, s),
    decreases deps.len(),
{
    if deps.len() > 0 {
        assert(deps[0].0 != k);
        assert forall|j: int| 0 <= j < deps.drop_first().len() implies #[trigger] deps.drop_first()[j].0
            != k by {
            assert(deps.drop_first()[j] == deps[j + 1]);
        }
        lemma_unspent_indep(deps.drop_first(), s, k);
    }
}

/// Marking one more carried, not-yet-marked nullifier as spent lowers the
/// unspent total by exactly its deposit's amount.
proof fn lemma_unspent_insert(deps: Seq<(Seq<u8>, u64)>, s: Set<Seq<u8>>, k: Seq<u8>)
    requires
        spec_distinct_keys(deps),
        spec_has_key(deps, k),
        !s.contains(k),
    ensures
        spec_unspent_sum(deps, s.insert(k)) == spec_unspent_sum(deps, s) - spec_amount_of(deps, k),
    decreases deps.len(),
{
    let rest = deps.drop_first();
    assert forall|i: int, j: int| 0 <= i < j < rest.len() implies #[trigger] rest[i].0
        != #[trigger] rest[j].0 by {
        assert(rest[i] == deps[i + 1] && rest[j] == deps[j + 1]);
    }
    if deps[0].0 == k {
        assert forall|j: int| 0 <= j < rest.len() implies #[trigger] rest[j].0 != k by {
            assert(rest[j] == deps[j + 1]);
        }
        lemma_unspent_indep(rest, s, k);
    } else {
        let j = choose|j: int| 0 <= j < deps.len() && #[trigger] deps[j].0 == k;
        assert(rest[j - 1].0 == k);
        lemma_unspent_insert(rest, s, k);
    }
}

/// Reading the reclaimed values off the deposit map equals splitting the
/// deposit total into spent and unspent shares.
proof fn lemma_spent_values_from_deposits(
    deps: Seq<(Seq<u8>, u64)>,
    spent: Seq<Seq<u8>>,
)
    requires
        spec_distinct_keys(deps),
        spec_distinct(spent),
        forall|i: int| 0 <= i < spent.len() ==> spec_has_key(deps, #[trigger] spent[i]),
    ensures
        spec_unspent_sum(deps, spent.to_set()) == spec_deposit_sum(deps) - spec_spent_values(
            spec_map_with(Map::empty(), deps),
            spent,
        ),
    decreases spent.len(),
{
    let m = spec_map_with(Map::<Seq<u8>, u64>::empty(), deps);
    if spent.len() == 0 {
        assert(spent.to_set() =~= Set::<Seq<u8>>::empty());
        lemma_unspent_empty(deps);
    } else {
        let rest = spent.drop_first();
        assert forall|i: int, j: int| 0 <= i < j < rest.len() implies rest[i] != rest[j] by {
            assert(rest[i] == spent[i + 1] && rest[j] == spent[j + 1]);
        }
        assert forall|i: int| 0 <= i < rest.len() implies spec_has_key(
            deps,
            #[trigger] rest[i],
        ) by {
            assert(rest[i] == spent[i + 1]);
        }
        lemma_spent_values_from_deposits(deps, rest);
        assert forall|i: int| 0 <= i < rest.len() implies rest[i] != spent[0] by {
            assert(rest[i] == spent[i + 1]);
        }
        assert(!rest.to_set().contains(spent[0]));
        assert forall|x: Seq<u8>| spent.to_set().contains(x) implies rest.to_set().insert(
            spent[0],
        ).contains(x) by {
            let i = choose|i: int| 0 <= i < spent.len() && spent[i] == x;
            if i > 0 {
                assert(rest[i - 1] == x);
            }
        }
        assert forall|x: Seq<u8>| rest.to_set().insert(spent[0]).contains(x) implies
            spent.to_set().contains(x) by {
            if x == spent[0] {
                assert(spent[0] == x);
            } else {
                let i = choose|i: int| 0 <= i < rest.len() && rest[i] == x;
                assert(spent[i + 1] == x);
            }
        }
        assert(spent.to_set() =~= rest.to_set().insert(spent[0]));
        lemma_unspent_insert(deps, rest.to_set(), spent[0]);
        lemma_map_with_at(Map::empty(), deps, spent[0]);
        assert(spec_spent_values(m, spent) == m[spent[0]] + spec_spent_values(m, rest));
    }
}

/// Nullifier conservation: run any sequence of deposits with distinct
/// nullifiers through an empty wallet, then settle any distinct subset of
/// those nullifiers; the observable amount ends at exactly the sum of the
/// deposits that were never spent.
pub proof fn lemma_nullifier_conservation_run(deps: Seq<(Seq<u8>, u64)>, spent: Seq<Seq<u8>>)
    requires
        spec_distinct_keys(deps),
        spec_distinct(spent),
        forall|i: int| 0 <= i < spent.len() ==> spec_has_key(deps, #[trigger] spent[i]),
    ensures
        spec_note_run(
            Map::empty(),
            0,
            spec_deposit_events(deps) + spec_spend_events(spent),
        ).1 == spec_unspent_sum(deps, spent.to_set()),
{
    let m0 = Map::<Seq<u8>, u64>::empty();
    lemma_note_run_append(m0, 0, spec_deposit_events(deps), spec_spend_events(spent));
    lemma_deposit_run(m0, 0, deps);
    let m = spec_map_with(m0, deps);
    assert forall|i: int| 0 <= i < spent.len() implies m.dom().contains(#[trigger] spent[i]) by {
        lemma_map_with_at(m0, deps, spent[i]);
    }
    lemma_spend_run(m, spec_deposit_sum(deps), spent);
    lemma_spent_values_from_deposits(deps, spent);
}

} // verus!
