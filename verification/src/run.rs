//! Runs of the table: what holds of any number of get-or-create calls, on any
//! profiles, in whatever order they reach the table.
//!
//! Under the registry's lock every visit is one step, so the callers of a
//! registry, however many and however they race, produce such a run.

use crate::table::{ensure_step, ConstructionFailed, Ensured, Slots, SLOTS};
use vstd::prelude::*;

verus! {

/// One call of a run: the profile it asked for and what it reported.
pub struct Call {
    pub profile: u8,
    pub outcome: Result<Ensured, ConstructionFailed>,
}

impl Call {
    /// Whether this call built the backend of `profile`.
    pub open spec fn built(self, profile: u8) -> bool {
        self.profile == profile && self.outcome matches Ok(Ensured::Constructed)
    }
}

/// `states` is what a table went through while `calls` were made on it, one
/// after the other: call `i` took the table from `states[i]` to
/// `states[i + 1]`.
pub open spec fn is_run(states: Seq<Slots>, calls: Seq<Call>) -> bool {
    &&& states.len() == calls.len() + 1
    &&& states[0].len() == SLOTS
    &&& forall|i: int|
        0 <= i < calls.len() ==> ensure_step(
            states[i],
            states[i + 1],
            (#[trigger] calls[i]).profile,
            calls[i].outcome,
        )
}

/// How many of the first `n` calls built a backend for `profile`.
pub open spec fn built_among(calls: Seq<Call>, profile: u8, n: nat) -> nat
    decreases n,
{
    if n == 0 {
        0
    } else {
        let earlier = built_among(calls, profile, (n - 1) as nat);
        if calls[n - 1].built(profile) {
            earlier + 1
        } else {
            earlier
        }
    }
}

/// What one step does, spelled out: it touches no slot but its own, leaves a
/// filled slot as it is, reports success only with the slot filled, and
/// reports a construction exactly when it filled the slot.
pub proof fn lemma_step(
    pre: Slots,
    post: Slots,
    profile: u8,
    outcome: Result<Ensured, ConstructionFailed>,
)
    requires
        pre.len() == SLOTS,
        ensure_step(pre, post, profile, outcome),
    ensures
        post.len() == SLOTS,
        forall|q: int| 0 <= q < SLOTS && q != profile ==> post[q] == pre[q],
        pre[profile as int] is Some ==> post == pre,
        outcome is Ok ==> post[profile as int] is Some,
        outcome is Err ==> post == pre,
        (outcome matches Ok(Ensured::Constructed)) <==> (pre[profile as int] is None
            && post[profile as int] is Some),
{
}

/// A run goes on with every further step taken from its last state.
pub proof fn lemma_run_extends(states: Seq<Slots>, calls: Seq<Call>, next: Slots, call: Call)
    requires
        is_run(states, calls),
        ensure_step(states.last(), next, call.profile, call.outcome),
    ensures
        is_run(states.push(next), calls.push(call)),
{
    let longer = states.push(next);
    let more = calls.push(call);
    assert forall|i: int| 0 <= i < more.len() implies ensure_step(
        longer[i],
        longer[i + 1],
        (#[trigger] more[i]).profile,
        more[i].outcome,
    ) by {
        if i < calls.len() {
            assert(more[i] == calls[i]);
        }
    }
}

/// Every state of a run has one slot for each profile.
pub proof fn lemma_run_keeps_shape(states: Seq<Slots>, calls: Seq<Call>, j: int)
    requires
        is_run(states, calls),
        0 <= j <= calls.len(),
    ensures
        states[j].len() == SLOTS,
    decreases j,
{
    if j > 0 {
        let call = calls[j - 1];
        lemma_run_keeps_shape(states, calls, j - 1);
        lemma_step(states[j - 1], states[j], call.profile, call.outcome);
    }
}

/// A slot once filled is never cleared and never given another backend: from
/// any point of a run on, it holds what it held then.
pub proof fn lemma_filled_slot_stays(
    states: Seq<Slots>,
    calls: Seq<Call>,
    i: int,
    j: int,
    profile: u8,
)
    requires
        is_run(states, calls),
        0 <= i <= j <= calls.len(),
        states[i][profile as int] is Some,
    ensures
        states[j][profile as int] == states[i][profile as int],
    decreases j - i,
{
    if i < j {
        let call = calls[j - 1];
        lemma_filled_slot_stays(states, calls, i, j - 1, profile);
        lemma_run_keeps_shape(states, calls, j - 1);
        lemma_step(states[j - 1], states[j], call.profile, call.outcome);
    }
}

/// Every caller that was told `Ok` finds its slot filled from then on.
pub proof fn lemma_success_is_observed(states: Seq<Slots>, calls: Seq<Call>, i: int, j: int)
    requires
        is_run(states, calls),
        0 <= i < j <= calls.len(),
        calls[i].outcome is Ok,
    ensures
        states[j][calls[i].profile as int] is Some,
{
    let call = calls[i];
    lemma_run_keeps_shape(states, calls, i);
    lemma_step(states[i], states[i + 1], call.profile, call.outcome);
    lemma_filled_slot_stays(states, calls, i + 1, j, call.profile);
}

/// Among the first `n` calls of a run, exactly one built the backend of
/// `profile` if the slot was empty at the start and is filled after them, and
/// none did otherwise.
pub proof fn lemma_built_among(states: Seq<Slots>, calls: Seq<Call>, profile: u8, n: nat)
    requires
        is_run(states, calls),
        n <= calls.len(),
    ensures
        built_among(calls, profile, n) == if states[0][profile as int] is None
            && states[n as int][profile as int] is Some {
            1nat
        } else {
            0nat
        },
    decreases n,
{
    if n > 0 {
        let call = calls[n - 1];
        lemma_built_among(states, calls, profile, (n - 1) as nat);
        lemma_run_keeps_shape(states, calls, n - 1);
        if states[0][profile as int] is Some {
            lemma_filled_slot_stays(states, calls, 0, n - 1, profile);
        }
        lemma_step(states[n - 1], states[n as int], call.profile, call.outcome);
    }
}

/// However many callers ask for a profile, and however their calls fall among
/// calls for other profiles, at most one backend is ever built for it; and
/// once any of them has been told `Ok`, exactly one has been built, unless the
/// slot was filled before the run began.
pub proof fn lemma_one_backend_per_profile(states: Seq<Slots>, calls: Seq<Call>, profile: u8)
    requires
        is_run(states, calls),
    ensures
        built_among(calls, profile, calls.len()) <= 1,
        forall|i: int|
            0 <= i < calls.len() && (#[trigger] calls[i]).profile == profile && calls[i].outcome is Ok
                && states[0][profile as int] is None ==> built_among(calls, profile, calls.len())
                == 1,
{
    lemma_built_among(states, calls, profile, calls.len());
    assert forall|i: int|
        0 <= i < calls.len() && (#[trigger] calls[i]).profile == profile && calls[i].outcome is Ok
            && states[0][profile as int] is None implies built_among(calls, profile, calls.len())
        == 1 by {
        lemma_success_is_observed(states, calls, i, calls.len() as int);
    }
}

} // verus!
