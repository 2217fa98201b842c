//! Starting a dispatch: everything up to the point where the caller waits.

use crate::config::{profile_for, resolve_profile, wait_limit, wait_limit_for, Context};
use crate::registry::{init_runtime, visited, Guarded, Registry};
use crate::table::{ConstructionFailed, Ensured};
use core::future::Future;
use core::time::Duration;
use tokio::sync::oneshot::{channel, Receiver, Sender};
use vstd::prelude::*;

verus! {

/// A dispatch whose work has been handed to its backend.
#[verifier::reject_recursive_types(T)]
pub struct Pending<T> {
    /// Where the single result arrives.
    pub receiver: Receiver<T>,
    /// How long to wait for it; `None` is a wait without limit.
    pub limit: Option<Duration>,
}

/// A build of the backend of `profile` was tried on `registry` and failed with
/// `failed`, leaving the slot empty.
pub open spec fn refused(registry: &Registry, profile: u8, failed: ConstructionFailed) -> bool {
    exists|held: Guarded| #[trigger]
        visited(registry, held, profile, Err::<Ensured, ConstructionFailed>(failed))
}

/// Starts a dispatch: makes a fresh result channel, makes sure the backend of
/// the configured profile exists, builds the work around the channel's sender
/// and hands it to that backend.
///
/// The call does not wait for the work to start. What is left to the caller is
/// the wait itself, on `receiver` and within `limit`.
///
/// `Ok` means the work was handed to a backend that the registry held for the
/// profile. `Err` means that a build of that backend was tried and failed,
/// and carries the failure; the slot was then still empty.
pub fn launch<T, W, F>(registry: &Registry, work: W, config: Option<Context>) -> (started: Result<
    Pending<T>,
    ConstructionFailed,
>) where W: FnOnce(Sender<T>) -> F, F: Future + Send + 'static, F::Output: Send + 'static
    requires
        forall|sender: Sender<T>| work.requires((sender,)),
    ensures
        started matches Ok(pending) ==> pending.limit == wait_limit_for(config),
        started is Ok ==> exists|held: Guarded| #[trigger]
            registry.keeps(held) && held.slots()[profile_for(config) as int] is Some,
        started matches Err(failed) ==> refused(registry, profile_for(config), failed),
{
    let (sender, receiver) = channel::<T>();
    let profile = resolve_profile(&config);
    let limit = wait_limit(&config);
    let ensured = init_runtime(registry, profile);
    let ghost seen = choose|held: Guarded| visited(registry, held, profile, ensured);
    match ensured {
        Ok(_) => {},
        Err(failed) => {
            assert(visited(registry, seen, profile, Err::<Ensured, ConstructionFailed>(failed)));
            return Err(failed);
        },
    }
    let task = work(sender);
    let submitted = registry.submit(profile, task);
    let ghost left = choose|held: Guarded| visited(registry, held, profile, submitted);
    match submitted {
        Ok(_) => {
            assert(registry.keeps(left) && left.slots()[profile as int] is Some);
            Ok(Pending { receiver, limit })
        },
        Err(failed) => {
            assert(visited(registry, left, profile, Err::<Ensured, ConstructionFailed>(failed)));
            Err(failed)
        },
    }
}

} // verus!
