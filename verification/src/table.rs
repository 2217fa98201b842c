//! The table of backends: 256 slots, one per profile, each filled at most once.
//!
//! The table is plain data with exclusive access to itself. The registry puts
//! it behind a lock; what one visit under that lock does is stated here.

use core::future::Future;
use tokio::runtime::Runtime;
use vstd::prelude::*;

verus! {

/// The number of slots: one for every value of a profile identifier.
pub const SLOTS: usize = 256;

/// What a successful get-or-create found.
#[derive(Clone, Copy, Debug, PartialEq, Eq, Structural)]
pub enum Ensured {
    /// The slot already held a backend; nothing was built.
    AlreadyPresent,
    /// The slot was empty; a backend was built and stored.
    Constructed,
}

/// A backend could not be built; the slot it was meant for is still empty.
#[derive(Debug)]
pub struct ConstructionFailed {
    pub cause: std::io::Error,
}

/// The slots of a table, as a sequence indexed by profile.
pub type Slots = Seq<Option<Runtime>>;

/// A table in which no slot is filled.
pub open spec fn is_empty_table(slots: Slots) -> bool {
    &&& slots.len() == SLOTS
    &&& forall|p: int| 0 <= p < SLOTS ==> slots[p] is None
}

/// What storing the outcome of a build attempt into slot `profile` leaves
/// behind, and what it reports. A filled slot keeps its backend whatever the
/// attempt produced; an empty slot takes the new backend, or stays empty when
/// there is none.
pub open spec fn install_spec(pre: Slots, profile: u8, built: Result<Runtime, std::io::Error>) -> (
    Slots,
    Result<Ensured, ConstructionFailed>,
) {
    if pre[profile as int] is Some {
        (pre, Ok(Ensured::AlreadyPresent))
    } else {
        match built {
            Ok(backend) => (pre.update(profile as int, Some(backend)), Ok(Ensured::Constructed)),
            Err(cause) => (pre, Err(ConstructionFailed { cause })),
        }
    }
}

/// One get-or-create on slot `profile`, from `pre` to `post`, reporting
/// `outcome`: a filled slot is left alone, an empty one is either filled by a
/// backend built for it or, when the build fails, left empty.
pub open spec fn ensure_step(
    pre: Slots,
    post: Slots,
    profile: u8,
    outcome: Result<Ensured, ConstructionFailed>,
) -> bool {
    if pre[profile as int] is Some {
        post == pre && outcome == Ok::<Ensured, ConstructionFailed>(Ensured::AlreadyPresent)
    } else {
        exists|built: Result<Runtime, std::io::Error>|
            (post, outcome) == #[trigger] install_spec(pre, profile, built)
    }
}

/// The backends of a process, by profile.
pub struct SlotTable {
    slots: Vec<Option<Runtime>>,
}

impl View for SlotTable {
    type V = Slots;

    closed spec fn view(&self) -> Slots {
        self.slots@
    }
}

impl SlotTable {
    /// A table has exactly one slot for each profile.
    pub open spec fn wf(&self) -> bool {
        self@.len() == SLOTS
    }

    /// A table in which no backend has been built yet.
    pub fn new() -> (table: SlotTable)
        ensures
            table.wf(),
            is_empty_table(table@),
    {
        let mut slots: Vec<Option<Runtime>> = Vec::new();
        let mut filled: usize = 0;
        while filled < SLOTS
            invariant
                filled <= SLOTS,
                slots@.len() == filled,
                forall|p: int| 0 <= p < filled ==> slots@[p] is None,
            decreases SLOTS - filled,
        {
            slots.push(None);
            filled = filled + 1;
        }
        SlotTable { slots }
    }

    /// Whether the slot of `profile` holds a backend.
    pub fn is_populated(&self, profile: u8) -> (populated: bool)
        requires
            self.wf(),
        ensures
            populated == (self@[profile as int] is Some),
    {
        self.slots[profile as usize].is_some()
    }

    /// Stores the outcome of a build attempt in the slot of `profile`.
    ///
    /// The slot is looked at again before anything is stored: a backend that
    /// is already there stays, and the one handed in is given up.
    pub fn install(&mut self, profile: u8, built: Result<Runtime, std::io::Error>) -> (outcome:
        Result<Ensured, ConstructionFailed>)
        requires
            old(self).wf(),
        ensures
            final(self).wf(),
            (final(self)@, outcome) == install_spec(old(self)@, profile, built),
    {
        if self.slots[profile as usize].is_some() {
            return Ok(Ensured::AlreadyPresent);
        }
        match built {
            Ok(backend) => {
                self.slots.set(profile as usize, Some(backend));
                Ok(Ensured::Constructed)
            },
            Err(cause) => Err(ConstructionFailed { cause }),
        }
    }

    /// Makes sure the slot of `profile` holds a backend, building one only if
    /// the slot is empty. When the build fails the slot stays empty, so a
    /// later call may try again.
    pub fn ensure(&mut self, profile: u8) -> (outcome: Result<Ensured, ConstructionFailed>)
        requires
            old(self).wf(),
        ensures
            final(self).wf(),
            ensure_step(old(self)@, final(self)@, profile, outcome),
    {
        if self.slots[profile as usize].is_some() {
            return Ok(Ensured::AlreadyPresent);
        }
        let built = Runtime::new();
        self.install(profile, built)
    }

    /// Hands `work` to the backend of `profile`, which runs it on its own
    /// workers. The call returns at once and does not wait for the work to
    /// start. The table is not changed.
    pub fn spawn<F>(&self, profile: u8, work: F) where
        F: Future + Send + 'static,
        F::Output: Send + 'static,

        requires
            self.wf(),
            self@[profile as int] is Some,
    {
        match &self.slots[profile as usize] {
            Some(backend) => {
                let _ = backend.spawn(work);
            },
            None => {},
        }
    }
}

} // verus!
