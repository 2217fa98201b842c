//! The registry: the table of backends behind a reader-writer lock, shared by
//! every caller of a process.
//!
//! Readers look; only a writer fills a slot, and it looks again before it
//! does. Beside the table the lock holds, as ghost state, the run of steps
//! that led to it from the table the registry was made with. Every writer adds
//! its step before it lets go, so the lock's invariant says of the table, at
//! every moment and whatever the order in which callers arrive, what the laws
//! of runs say of the end of a run.
//!
//! The table is shared, and between two visits another caller may have been
//! in. So a contract here speaks of the moment of the visit: of a table that
//! the lock may hold, as the call saw it or left it. It does not say that the
//! table is still so when the caller reads the result, though a filled slot
//! stays filled.

use crate::run::{built_among, is_run, lemma_built_among, lemma_run_extends, Call};
use crate::table::{
    ensure_step, is_empty_table, ConstructionFailed, Ensured, SlotTable, Slots,
};
use core::future::Future;
use vstd::prelude::*;
use vstd::rwlock::{RwLock, RwLockPredicate};

verus! {

/// What the lock holds: the table, and the history that made it what it is.
pub struct Guarded {
    table: SlotTable,
    states: Ghost<Seq<Slots>>,
    calls: Ghost<Seq<Call>>,
}

impl Guarded {
    /// The slots of the table as they are now.
    pub closed spec fn slots(self) -> Slots {
        self.table@
    }

    /// The steps taken on the table under exclusive access, oldest first.
    pub closed spec fn calls(self) -> Seq<Call> {
        self.calls@
    }

    /// The tables the history went through, the origin first and the present
    /// one last.
    pub closed spec fn states(self) -> Seq<Slots> {
        self.states@
    }

    /// The slots of the table as they were before the first step.
    pub closed spec fn origin(self) -> Slots {
        self.states@[0]
    }

    /// Every change to the table since its origin was one get-or-create step.
    pub closed spec fn wf(self) -> bool {
        &&& self.table.wf()
        &&& is_run(self.states@, self.calls@)
        &&& self.states@.last() == self.table@
    }

    /// Of a table that began empty: a slot holds a backend exactly if one
    /// backend, and no more than one, was ever built for its profile.
    pub proof fn lemma_one_backend_per_filled_slot(self, profile: u8)
        requires
            self.wf(),
            is_empty_table(self.origin()),
        ensures
            built_among(self.calls(), profile, self.calls().len()) == if self.slots()[profile as int] is Some {
                1nat
            } else {
                0nat
            },
    {
        lemma_built_among(self.states@, self.calls@, profile, self.calls@.len());
    }

    /// An empty table with no history.
    fn new() -> (guarded: Guarded)
        ensures
            guarded.wf(),
            is_empty_table(guarded.origin()),
            guarded.slots() == guarded.origin(),
            guarded.calls() == Seq::<Call>::empty(),
    {
        let table = SlotTable::new();
        let states: Ghost<Seq<Slots>> = Ghost(Seq::empty().push(table@));
        let calls: Ghost<Seq<Call>> = Ghost(Seq::empty());
        Guarded { table, states, calls }
    }

    /// One get-or-create step on the table, entered in its history: the slots
    /// change as the table's own `ensure` changes them, and the history grows
    /// by this call and by no other.
    fn ensure(&mut self, profile: u8) -> (outcome: Result<Ensured, ConstructionFailed>)
        requires
            old(self).wf(),
        ensures
            final(self).wf(),
            final(self).origin() == old(self).origin(),
            ensure_step(old(self).slots(), final(self).slots(), profile, outcome),
            final(self).calls() == old(self).calls().push(Call { profile, outcome }),
            outcome is Ok ==> final(self).slots()[profile as int] is Some,
    {
        let outcome = self.table.ensure(profile);
        proof {
            let call = Call { profile, outcome };
            lemma_run_extends(self.states@, self.calls@, self.table@, call);
            self.states@ = self.states@.push(self.table@);
            self.calls@ = self.calls@.push(call);
        }
        outcome
    }
}

/// What the lock guarantees of what it holds: a table reached from `origin`
/// by get-or-create steps alone.
pub struct ReachedFrom {
    pub origin: Slots,
}

impl RwLockPredicate<Guarded> for ReachedFrom {
    open spec fn inv(self, guarded: Guarded) -> bool {
        guarded.wf() && guarded.origin() == self.origin
    }
}

/// What a get-or-create on `registry` saw or left behind, given what it
/// reported. `held` is the table as the lock held it at that moment: the slot
/// of `profile` is filled after `Ok` and empty after `Err`, and a call that
/// built or tried to build is the last entry of the table's history.
pub open spec fn visited(
    registry: &Registry,
    held: Guarded,
    profile: u8,
    outcome: Result<Ensured, ConstructionFailed>,
) -> bool {
    &&& registry.keeps(held)
    &&& match outcome {
        Ok(Ensured::AlreadyPresent) => held.slots()[profile as int] is Some,
        Ok(Ensured::Constructed) => held.slots()[profile as int] is Some && held.calls().len() > 0
            && held.calls().last() == (Call { profile, outcome }),
        Err(_) => held.slots()[profile as int] is None && held.calls().len() > 0
            && held.calls().last() == (Call { profile, outcome }),
    }
}

/// The backends of a process, safe to share between threads and tasks.
pub struct Registry {
    lock: RwLock<Guarded, ReachedFrom>,
}

impl Registry {
    /// The slots of the table this registry was made with. Whatever the lock
    /// holds later was reached from them by get-or-create steps.
    pub closed spec fn origin(&self) -> Slots {
        self.lock.pred().origin
    }

    /// Whether `guarded` is something the lock of this registry may hold.
    pub closed spec fn keeps(&self, guarded: Guarded) -> bool {
        self.lock.inv(guarded)
    }

    /// Of whatever a registry that began empty holds: a slot holds a backend
    /// exactly if one backend, and no more than one, was ever built for its
    /// profile.
    pub proof fn lemma_one_backend_per_filled_slot(&self, held: Guarded, profile: u8)
        requires
            self.keeps(held),
            is_empty_table(self.origin()),
        ensures
            built_among(held.calls(), profile, held.calls().len()) == if held.slots()[profile as int] is Some {
                1nat
            } else {
                0nat
            },
    {
        held.lemma_one_backend_per_filled_slot(profile);
    }

    /// Whatever the lock of a registry holds is the end of a run that began at
    /// the registry's origin, so every law of runs holds of its history: each
    /// entry was one get-or-create step, which touched no slot but its own and
    /// left every filled slot as it was.
    pub proof fn lemma_kept_is_run(&self, held: Guarded)
        requires
            self.keeps(held),
        ensures
            is_run(held.states(), held.calls()),
            held.states()[0] == self.origin(),
            held.states().last() == held.slots(),
    {
    }

    /// Of a registry that began empty: by the time a get-or-create on
    /// `profile` has reported `Ok`, exactly one backend has been built for that
    /// profile, whoever built it.
    pub proof fn lemma_success_means_one_backend(
        &self,
        held: Guarded,
        profile: u8,
        outcome: Result<Ensured, ConstructionFailed>,
    )
        requires
            visited(self, held, profile, outcome),
            outcome is Ok,
            is_empty_table(self.origin()),
        ensures
            built_among(held.calls(), profile, held.calls().len()) == 1,
    {
        self.lemma_one_backend_per_filled_slot(held, profile);
    }

    /// A registry in which no backend has been built yet.
    pub fn new() -> (registry: Registry)
        ensures
            is_empty_table(registry.origin()),
    {
        let guarded = Guarded::new();
        let reached: Ghost<ReachedFrom> = Ghost(ReachedFrom { origin: guarded.origin() });
        Registry { lock: RwLock::new(guarded, reached) }
    }

    /// Whether the slot of `profile` held a backend at the moment of the look.
    /// A slot once filled stays filled, so `true` remains true.
    pub fn is_populated(&self, profile: u8) -> (populated: bool)
        ensures
            exists|held: Guarded| #[trigger]
                self.keeps(held) && populated == (held.slots()[profile as int] is Some),
    {
        let reader = self.lock.acquire_read();
        let ghost held = reader@;
        let populated = reader.borrow().table.is_populated(profile);
        reader.release_read();
        assert(self.keeps(held) && populated == (held.slots()[profile as int] is Some));
        populated
    }

    /// Hands `work` to the backend of `profile`, building the backend first if
    /// the slot is empty. The work is spawned while the lock is still held, on
    /// a slot known to be filled. When the build fails the work is dropped
    /// without having run.
    pub fn submit<F>(&self, profile: u8, work: F) -> (outcome: Result<
        Ensured,
        ConstructionFailed,
    >) where F: Future + Send + 'static, F::Output: Send + 'static
        ensures
            exists|held: Guarded| #[trigger] visited(self, held, profile, outcome),
    {
        let reader = self.lock.acquire_read();
        let ghost seen = reader@;
        if reader.borrow().table.is_populated(profile) {
            reader.borrow().table.spawn(profile, work);
            reader.release_read();
            assert(visited(self, seen, profile, Ok(Ensured::AlreadyPresent)));
            return Ok(Ensured::AlreadyPresent);
        }
        reader.release_read();
        let (mut guarded, writer) = self.lock.acquire_write();
        let outcome = guarded.ensure(profile);
        if outcome.is_ok() {
            guarded.table.spawn(profile, work);
        }
        let ghost left = guarded;
        writer.release_write(guarded);
        assert(visited(self, left, profile, outcome));
        outcome
    }
}

/// Makes sure the registry holds a backend for `profile`.
///
/// The common case takes only shared access: the slot is filled and the call
/// returns. Otherwise it takes exclusive access and runs the table's own
/// get-or-create, which looks at the slot once more, since another caller may
/// have filled it in between. The lock is released on every path.
///
/// `Err` means that this call tried to build the backend and could not; the
/// slot is then still empty and a later call tries again.
pub fn init_runtime(registry: &Registry, profile: u8) -> (outcome: Result<
    Ensured,
    ConstructionFailed,
>)
    ensures
        exists|held: Guarded| #[trigger] visited(registry, held, profile, outcome),
{
    let reader = registry.lock.acquire_read();
    let ghost seen = reader@;
    let populated = reader.borrow().table.is_populated(profile);
    reader.release_read();
    if populated {
        assert(visited(registry, seen, profile, Ok(Ensured::AlreadyPresent)));
        return Ok(Ensured::AlreadyPresent);
    }
    let (mut guarded, writer) = registry.lock.acquire_write();
    let outcome = guarded.ensure(profile);
    let ghost left = guarded;
    writer.release_write(guarded);
    assert(visited(registry, left, profile, outcome));
    outcome
}

} // verus!
