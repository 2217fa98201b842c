//! What a caller of the crate usually needs, under one path.

pub use crate::config::{resolve_profile, wait_limit, Context, DEFAULT_PROFILE};
pub use crate::dispatch::{launch, Pending};
pub use crate::outcome::{received, received_within, DispatchError};
pub use crate::registry::{init_runtime, Registry};
pub use crate::table::{ConstructionFailed, Ensured};
pub use core::time::Duration;
pub use tokio::runtime::Runtime;
pub use tokio::sync::oneshot::{channel, Sender};
pub use tokio::time::{sleep, timeout};
