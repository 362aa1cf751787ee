//! The mathematical model of one dispatch.
//!
//! One call to [`EventHandler::handle`](crate::events::EventHandler::handle)
//! attempts every registered listener at least once, retries listeners whose
//! locks were contended, and finally removes the listeners whose required
//! state was found deleted. Which outcome each attempt returns depends on the
//! locks other threads hold at that instant, so the dispatch is specified,
//! and verified, over *scripts*: for each listener, the sequence of outcomes
//! its successive attempts returned within the one dispatch. `handle`
//! guarantees that its effect equals [`survivors`] for some well-formed
//! script of every listener; the proof functions here state what that effect
//! is for every script shape of interest, whichever scripts the run produces.

use vstd::prelude::*;
use crate::events::ListenError;
use crate::events::Listener;

verus! {

/// The outcomes one listener's successive attempts returned within one
/// dispatch, oldest first. A well-formed script under a retry budget stops at
/// the first decisive outcome: every attempt before the last was a contended
/// lock (and was therefore retried), the listener was attempted at least once
/// and at most `budget + 1` times, and only a script that used its whole
/// budget may still end contended (the listener is then left registered and
/// simply not run this dispatch).
pub open spec fn script_wf(script: Seq<Result<(), ListenError>>, budget: nat) -> bool {
    &&& 1 <= script.len() <= budget + 1
    &&& busy_prefix(script)
    &&& script.len() < budget + 1 ==> script.last() != Err::<(), ListenError>(
        ListenError::LockUnavailable,
    )
}

/// Every attempt before the last returned a contended lock: the only outcome
/// the dispatch retries.
pub open spec fn busy_prefix(script: Seq<Result<(), ListenError>>) -> bool {
    forall|k: int|
        0 <= k < script.len() - 1 ==> script[k] == Err::<(), ListenError>(
            ListenError::LockUnavailable,
        )
}

/// A script whose listener has resolved: its last attempt was decisive
/// (success or permanent failure), every earlier one a retried contention.
pub open spec fn script_settled(script: Seq<Result<(), ListenError>>) -> bool {
    &&& script.len() >= 1
    &&& busy_prefix(script)
    &&& script.last() != Err::<(), ListenError>(ListenError::LockUnavailable)
}

/// The script of a listener that has been attempted `n` times and found its
/// locks contended every time.
pub open spec fn busy_script(n: nat) -> Seq<Result<(), ListenError>> {
    Seq::new(n, |k: int| Err::<(), ListenError>(ListenError::LockUnavailable))
}

/// Well-formedness of one script per listener.
pub open spec fn scripts_wf(
    scripts: Seq<Seq<Result<(), ListenError>>>,
    n: nat,
    budget: nat,
) -> bool {
    &&& scripts.len() == n
    &&& forall|i: int| 0 <= i < scripts.len() ==> script_wf(#[trigger] scripts[i], budget)
}

/// Whether a script ends with the permanent failure: the listener's required
/// state was found deleted, so the dispatch removes the listener.
pub open spec fn script_evicts(script: Seq<Result<(), ListenError>>) -> bool {
    script.len() > 0 && script.last() == Err::<(), ListenError>(ListenError::RequirementDeleted)
}

/// Whether a script ends in success: the listener acquired everything it
/// declared and its reaction body ran.
pub open spec fn script_ran(script: Seq<Result<(), ListenError>>) -> bool {
    script.len() > 0 && script.last() == Ok::<(), ListenError>(())
}

/// How many attempts in the script ran the reaction body. Only a successful
/// attempt runs it.
pub open spec fn script_run_count(script: Seq<Result<(), ListenError>>) -> nat
    decreases script.len(),
{
    if script.len() == 0 {
        0
    } else {
        (if script.first() == Ok::<(), ListenError>(()) {
            1nat
        } else {
            0nat
        }) + script_run_count(script.drop_first())
    }
}

/// The listeners a dispatch leaves registered: those whose script does not
/// evict, in their registration order.
pub open spec fn survivors<R>(
    ls: Seq<Listener<R>>,
    scripts: Seq<Seq<Result<(), ListenError>>>,
) -> Seq<Listener<R>>
    decreases ls.len(),
{
    if ls.len() == 0 {
        Seq::empty()
    } else if script_evicts(scripts.first()) {
        survivors(ls.drop_first(), scripts.drop_first())
    } else {
        seq![ls.first()] + survivors(ls.drop_first(), scripts.drop_first())
    }
}

/// Listener ids strictly increase with registration order (so in particular
/// no id repeats).
pub open spec fn ids_strictly_increasing<R>(ls: Seq<Listener<R>>) -> bool {
    forall|i: int, j: int| 0 <= i < j < ls.len() ==> ls[i].id < ls[j].id
}

/// Extending the listener seq and the script seq together extends the
/// survivors at the back: the new listener survives exactly when its script
/// does not evict.
pub proof fn lemma_survivors_push<R>(
    ls: Seq<Listener<R>>,
    scripts: Seq<Seq<Result<(), ListenError>>>,
    l: Listener<R>,
    t: Seq<Result<(), ListenError>>,
)
    requires
        scripts.len() == ls.len(),
    ensures
        script_evicts(t) ==> survivors(ls.push(l), scripts.push(t)) == survivors(ls, scripts),
        !script_evicts(t) ==> survivors(ls.push(l), scripts.push(t)) == survivors(
            ls,
            scripts,
        ).push(l),
    decreases ls.len(),
{
    let lp = ls.push(l);
    let sp = scripts.push(t);
    if ls.len() == 0 {
        assert(lp.first() == l);
        assert(sp.first() == t);
        assert(lp.drop_first() == Seq::<Listener<R>>::empty()) by {
            assert(lp.drop_first() =~= Seq::<Listener<R>>::empty());
        }
        assert(sp.drop_first() == Seq::<Seq<Result<(), ListenError>>>::empty()) by {
            assert(sp.drop_first() =~= Seq::<Seq<Result<(), ListenError>>>::empty());
        }
        assert(survivors(Seq::<Listener<R>>::empty(), Seq::<Seq<Result<(), ListenError>>>::empty())
            == Seq::<Listener<R>>::empty());
        assert(survivors(ls, scripts) == Seq::<Listener<R>>::empty());
        if !script_evicts(t) {
            assert(survivors(lp, sp) == seq![l] + Seq::<Listener<R>>::empty());
            assert(seq![l] + Seq::<Listener<R>>::empty() =~= Seq::<Listener<R>>::empty().push(l));
        }
    } else {
        assert(lp.first() == ls.first());
        assert(sp.first() == scripts.first());
        assert(lp.drop_first() =~= ls.drop_first().push(l));
        assert(sp.drop_first() =~= scripts.drop_first().push(t));
        lemma_survivors_push(ls.drop_first(), scripts.drop_first(), l, t);
        if !script_evicts(scripts.first()) && !script_evicts(t) {
            assert(seq![ls.first()] + survivors(ls.drop_first(), scripts.drop_first()).push(l)
                =~= (seq![ls.first()] + survivors(ls.drop_first(), scripts.drop_first())).push(
                l,
            ));
        }
    }
}

/// Id uniqueness: no two listeners registered at the same time share an id.
/// Every handler operation keeps registered ids strictly increasing, so the
/// premise holds of every handler state.
pub proof fn lemma_increasing_ids_unique<R>(ls: Seq<Listener<R>>)
    requires
        ids_strictly_increasing(ls),
    ensures
        forall|i: int, j: int|
            0 <= i < ls.len() && 0 <= j < ls.len() && i != j ==> ls[i].id != ls[j].id,
{
}

/// Every listener a dispatch leaves registered was registered before it.
pub proof fn lemma_survivors_subset<R>(
    ls: Seq<Listener<R>>,
    scripts: Seq<Seq<Result<(), ListenError>>>,
)
    ensures
        forall|l: Listener<R>| survivors(ls, scripts).contains(l) ==> ls.contains(l),
        survivors(ls, scripts).len() <= ls.len(),
    decreases ls.len(),
{
    if ls.len() > 0 {
        let tail = ls.drop_first();
        let stail = scripts.drop_first();
        let s = survivors(ls, scripts);
        let rest = survivors(tail, stail);
        lemma_survivors_subset(tail, stail);
        assert forall|l: Listener<R>| s.contains(l) implies ls.contains(l) by {
            let k = choose|k: int| 0 <= k < s.len() && s[k] == l;
            if script_evicts(scripts.first()) {
                assert(rest[k] == l);
                assert(rest.contains(l));
            } else if k == 0 {
                assert(ls[0] == l);
            } else {
                assert(rest[k - 1] == l);
                assert(rest.contains(l));
            }
            if rest.contains(l) {
                assert(tail.contains(l));
                let m = choose|m: int| 0 <= m < tail.len() && tail[m] == l;
                assert(ls[m + 1] == l);
            }
        }
    }
}

/// Dispatch fan-out completeness, membership half: with distinct listeners,
/// exactly those whose script ends in the permanent failure are removed —
/// every other listener, successful or still contended, stays registered.
pub proof fn lemma_survivors_membership<R>(
    ls: Seq<Listener<R>>,
    scripts: Seq<Seq<Result<(), ListenError>>>,
)
    requires
        scripts.len() == ls.len(),
        ids_strictly_increasing(ls),
    ensures
        forall|i: int|
            0 <= i < ls.len() ==> (survivors(ls, scripts).contains(#[trigger] ls[i])
                <==> !script_evicts(scripts[i])),
    decreases ls.len(),
{
    if ls.len() > 0 {
        let tail = ls.drop_first();
        let stail = scripts.drop_first();
        let rest = survivors(tail, stail);
        let s = survivors(ls, scripts);
        lemma_survivors_membership(tail, stail);
        lemma_survivors_subset(tail, stail);
        assert forall|i: int|
            0 <= i < ls.len() implies (s.contains(#[trigger] ls[i]) <==> !script_evicts(
            scripts[i],
        )) by {
            if i == 0 {
                if script_evicts(scripts[0]) {
                    // ls[0] cannot hide among the survivors of the tail: its
                    // id is strictly below every id there.
                    if s.contains(ls[0]) {
                        assert(rest.contains(ls[0]));
                        assert(tail.contains(ls[0]));
                        let k = choose|k: int| 0 <= k < tail.len() && tail[k] == ls[0];
                        assert(ls[k + 1] == ls[0]);
                        assert(ls[0].id < ls[k + 1].id);
                    }
                } else {
                    assert(s[0] == ls[0]);
                }
            } else {
                assert(tail[i - 1] == ls[i]);
                if !script_evicts(scripts[i]) {
                    assert(rest.contains(tail[i - 1]));
                    let k = choose|k: int| 0 <= k < rest.len() && rest[k] == ls[i];
                    if script_evicts(scripts.first()) {
                        assert(s[k] == ls[i]);
                    } else {
                        assert(s[k + 1] == ls[i]);
                    }
                } else {
                    if s.contains(ls[i]) {
                        let k = choose|k: int| 0 <= k < s.len() && s[k] == ls[i];
                        if !script_evicts(scripts.first()) && k == 0 {
                            // ls[i] == ls[0] contradicts distinctness
                            assert(ls[0].id < ls[i].id);
                        } else {
                            if script_evicts(scripts.first()) {
                                assert(rest[k] == ls[i]);
                            } else {
                                assert(rest[k - 1] == ls[i]);
                            }
                            assert(rest.contains(tail[i - 1]));
                        }
                    }
                }
            }
        }
    }
}

/// Contention never removes: when no script ends in the permanent failure,
/// the dispatch leaves the listener set exactly as it was.
pub proof fn lemma_no_eviction_no_removal<R>(
    ls: Seq<Listener<R>>,
    scripts: Seq<Seq<Result<(), ListenError>>>,
)
    requires
        scripts.len() == ls.len(),
        forall|i: int| 0 <= i < scripts.len() ==> !script_evicts(#[trigger] scripts[i]),
    ensures
        survivors(ls, scripts) == ls,
    decreases ls.len(),
{
    if ls.len() > 0 {
        assert(scripts[0] == scripts.first());
        assert(forall|i: int|
            0 <= i < scripts.drop_first().len() ==> scripts.drop_first()[i] == scripts[i + 1]);
        lemma_no_eviction_no_removal(ls.drop_first(), scripts.drop_first());
        assert(survivors(ls, scripts) =~= ls);
    }
}

/// A well-formed script runs the reaction at most once, and exactly once
/// when it ends in success: attempts before the last are contended locks,
/// which never reach the reaction body.
pub proof fn lemma_at_most_one_run(script: Seq<Result<(), ListenError>>, budget: nat)
    requires
        script_wf(script, budget),
    ensures
        script_run_count(script) == if script_ran(script) {
            1nat
        } else {
            0nat
        },
{
    lemma_busy_prefix_run_count(script);
}

proof fn lemma_busy_prefix_run_count(script: Seq<Result<(), ListenError>>)
    requires
        busy_prefix(script),
    ensures
        script_run_count(script) == if script_ran(script) {
            1nat
        } else {
            0nat
        },
    decreases script.len(),
{
    if script.len() > 0 {
        let tail = script.drop_first();
        assert(forall|k: int| 0 <= k < tail.len() ==> tail[k] == script[k + 1]);
        lemma_busy_prefix_run_count(tail);
        if script.len() == 1 {
            assert(script_run_count(tail) == 0);
            assert(script_ran(script) <==> script.first() == Ok::<(), ListenError>(()));
        } else {
            assert(script.first() == Err::<(), ListenError>(ListenError::LockUnavailable));
            assert(tail.last() == script.last());
        }
    }
}

/// Contention means retry, never eviction: a listener whose locks stay
/// contended for the whole dispatch is attempted more than once, is never
/// removed, and its reaction does not run.
pub proof fn lemma_contention_retry<R>(
    ls: Seq<Listener<R>>,
    scripts: Seq<Seq<Result<(), ListenError>>>,
    budget: nat,
    i: int,
)
    requires
        ids_strictly_increasing(ls),
        scripts_wf(scripts, ls.len(), budget),
        budget >= 1,
        0 <= i < ls.len(),
        forall|k: int|
            0 <= k < scripts[i].len() ==> scripts[i][k] == Err::<(), ListenError>(
                ListenError::LockUnavailable,
            ),
    ensures
        survivors(ls, scripts).contains(ls[i]),
        scripts[i].len() == budget + 1,
        scripts[i].len() >= 2,
        script_run_count(scripts[i]) == 0,
{
    assert(script_wf(scripts[i], budget));
    assert(scripts[i].last() == Err::<(), ListenError>(ListenError::LockUnavailable));
    lemma_survivors_membership(ls, scripts);
    lemma_busy_prefix_run_count(scripts[i]);
}

/// Dispatch fan-out completeness: when every listener resolves on its first
/// attempt, exactly the permanently-failed subset is removed, exactly the
/// successful subset has run its reaction, and each reaction ran exactly
/// once.
pub proof fn lemma_fanout_completeness<R>(
    ls: Seq<Listener<R>>,
    scripts: Seq<Seq<Result<(), ListenError>>>,
    budget: nat,
)
    requires
        ids_strictly_increasing(ls),
        scripts_wf(scripts, ls.len(), budget),
        forall|i: int| 0 <= i < scripts.len() ==> (#[trigger] scripts[i]).len() == 1,
    ensures
        forall|i: int|
            0 <= i < ls.len() ==> (survivors(ls, scripts).contains(#[trigger] ls[i])
                <==> scripts[i][0] != Err::<(), ListenError>(ListenError::RequirementDeleted)),
        forall|i: int|
            0 <= i < ls.len() ==> script_run_count(#[trigger] scripts[i]) == (
            if scripts[i][0] == Ok::<(), ListenError>(()) {
                1nat
            } else {
                0nat
            }),
{
    lemma_survivors_membership(ls, scripts);
    assert forall|i: int| 0 <= i < ls.len() implies script_run_count(#[trigger] scripts[i]) == (
    if scripts[i][0] == Ok::<(), ListenError>(()) {
        1nat
    } else {
        0nat
    }) by {
        assert(scripts[i].last() == scripts[i][0]);
        lemma_busy_prefix_run_count(scripts[i]);
    }
    assert forall|i: int| 0 <= i < ls.len() implies (survivors(ls, scripts).contains(
        #[trigger] ls[i],
    ) <==> scripts[i][0] != Err::<(), ListenError>(ListenError::RequirementDeleted)) by {
        assert(scripts[i].last() == scripts[i][0]);
    }
}

/// Eviction idempotence: a listener whose script finds its requirement
/// deleted is removed by that dispatch, and a later dispatch of the
/// remaining listeners, none of whose scripts evict, leaves the listener
/// set — in particular its count — unchanged.
pub proof fn lemma_eviction_idempotent<R>(
    ls: Seq<Listener<R>>,
    scripts: Seq<Seq<Result<(), ListenError>>>,
    later: Seq<Seq<Result<(), ListenError>>>,
    i: int,
)
    requires
        ids_strictly_increasing(ls),
        scripts.len() == ls.len(),
        0 <= i < ls.len(),
        script_evicts(scripts[i]),
        later.len() == survivors(ls, scripts).len(),
        forall|k: int| 0 <= k < later.len() ==> !script_evicts(#[trigger] later[k]),
    ensures
        !survivors(ls, scripts).contains(ls[i]),
        survivors(survivors(ls, scripts), later) == survivors(ls, scripts),
{
    lemma_survivors_membership(ls, scripts);
    lemma_no_eviction_no_removal(survivors(ls, scripts), later);
}

/// A dispatch keeps listener ids strictly increasing.
pub proof fn lemma_survivors_sorted<R>(
    ls: Seq<Listener<R>>,
    scripts: Seq<Seq<Result<(), ListenError>>>,
    bound: i64,
)
    requires
        ids_strictly_increasing(ls),
        forall|i: int| 0 <= i < ls.len() ==> ls[i].id < bound,
    ensures
        ids_strictly_increasing(survivors(ls, scripts)),
        forall|i: int|
            0 <= i < survivors(ls, scripts).len() ==> survivors(ls, scripts)[i].id < bound,
    decreases ls.len(),
{
    if ls.len() > 0 {
        let tail = ls.drop_first();
        let stail = scripts.drop_first();
        let rest = survivors(tail, stail);
        let s = survivors(ls, scripts);
        lemma_survivors_sorted(tail, stail, bound);
        lemma_survivors_subset(tail, stail);
        if !script_evicts(scripts.first()) {
            assert(s == seq![ls.first()] + rest);
            assert forall|i: int, j: int| 0 <= i < j < s.len() implies s[i].id < s[j].id by {
                if i == 0 {
                    assert(s[j] == rest[j - 1]);
                    assert(rest.contains(rest[j - 1]));
                    assert(tail.contains(rest[j - 1]));
                    let k = choose|k: int| 0 <= k < tail.len() && tail[k] == rest[j - 1];
                    assert(ls[k + 1] == rest[j - 1]);
                    assert(ls[0].id < ls[k + 1].id);
                } else {
                    assert(s[i] == rest[i - 1] && s[j] == rest[j - 1]);
                }
            }
            assert forall|i: int| 0 <= i < s.len() implies s[i].id < bound by {
                if i > 0 {
                    assert(s[i] == rest[i - 1]);
                }
            }
        }
    }
}

} // verus!
