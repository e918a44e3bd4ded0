//! A cancellation flag shared between the owner of a background worker and
//! the worker itself.

use vstd::prelude::*;
use std::sync::atomic::{AtomicBool, Ordering};
use std::sync::Arc;

verus! {

/// The owner's side: it raises the flag.
pub struct CancellationSource {
    token: Arc<AtomicBool>,
}

/// The worker's side: it reads the flag.
#[derive(Clone)]
pub struct CancellationToken {
    token: Arc<AtomicBool>,
}

impl CancellationSource {
    /// A source whose flag is down.
    pub fn new() -> Self {
        CancellationSource { token: Arc::new(AtomicBool::new(false)) }
    }

    /// Raises the flag for every token of this source.
    pub fn request_cancellation(&mut self) {
        self.token.store(true, Ordering::Relaxed);
    }

    /// A token that reads this source's flag.
    pub fn token(&self) -> CancellationToken {
        CancellationToken { token: Arc::clone(&self.token) }
    }
}

impl CancellationToken {
    /// Whether the source's flag has been raised. The flag is shared with
    /// other threads, so nothing is claimed of the value read.
    pub fn is_cancellation_requested(&self) -> bool {
        self.token.load(Ordering::Relaxed)
    }
}

} // verus!
