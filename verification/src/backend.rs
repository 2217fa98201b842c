//! The execution backend and the result channel, as this crate sees them.
//!
//! Both come from tokio. Their values are opaque here: the crate builds them,
//! carries them and hands them on, and claims nothing of what is inside.

use core::future::Future;
use tokio::runtime::Runtime;
use tokio::sync::oneshot::{Receiver, Sender};
use vstd::prelude::*;

verus! {

/// `tokio::runtime::Runtime`: a pool of worker threads that runs submitted work.
#[verifier::external_type_specification]
#[verifier::external_body]
pub struct ExRuntime(tokio::runtime::Runtime);

/// `tokio::task::JoinHandle`: what a submission hands back; the crate drops it,
/// which detaches the work and stops nothing.
#[verifier::external_type_specification]
#[verifier::external_body]
#[verifier::reject_recursive_types(T)]
pub struct ExJoinHandle<T>(tokio::task::JoinHandle<T>);

/// `tokio::task::JoinError`: how detached work can end badly; never looked at here.
#[verifier::external_type_specification]
#[verifier::external_body]
pub struct ExJoinError(tokio::task::JoinError);

/// `tokio::sync::oneshot::Sender`: the half of a result channel given to the work.
#[verifier::external_type_specification]
#[verifier::external_body]
#[verifier::reject_recursive_types(T)]
pub struct ExSender<T>(tokio::sync::oneshot::Sender<T>);

/// `tokio::sync::oneshot::Receiver`: the half of a result channel kept by the caller.
#[verifier::external_type_specification]
#[verifier::external_body]
#[verifier::reject_recursive_types(T)]
pub struct ExReceiver<T>(tokio::sync::oneshot::Receiver<T>);

/// `tokio::sync::oneshot::error::RecvError`: the channel closed without a value.
#[verifier::external_type_specification]
#[verifier::external_body]
pub struct ExRecvError(tokio::sync::oneshot::error::RecvError);

/// `tokio::time::error::Elapsed`: the wait bound passed first.
#[verifier::external_type_specification]
#[verifier::external_body]
pub struct ExElapsed(tokio::time::error::Elapsed);

/// `std::io::Error`: why the operating system refused a backend its resources.
#[verifier::external_type_specification]
#[verifier::external_body]
pub struct ExIoError(std::io::Error);

/// `Runtime::new` builds a multi-threaded backend or reports why it could not.
/// Which of the two happens depends on the machine, so nothing is claimed.
pub assume_specification[ Runtime::new ]() -> (built: std::io::Result<Runtime>)
;

/// `Runtime::spawn` hands the work to the backend's workers and returns at
/// once. Nothing is claimed of when, or whether, the work runs to its end.
pub assume_specification<F>[ Runtime::spawn ](backend: &Runtime, future: F) -> (handle:
    tokio::task::JoinHandle<F::Output>) where
    F: Future + Send + 'static,
    F::Output: Send + 'static,
;

/// `oneshot::channel` makes a fresh single-use channel. That the two halves
/// belong together is not something a contract here can say.
pub assume_specification<T>[ tokio::sync::oneshot::channel ]() -> (halves: (Sender<T>, Receiver<T>))
;

} // verus!
