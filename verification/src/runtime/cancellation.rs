//! Cancellation of sessions, plans and actions.
//!
//! A token is a flag shared by every clone of it: any holder may cancel,
//! and every holder sees the request. Because the flag is shared between
//! threads, what a read returns depends on what other holders did; the
//! functions here promise nothing about it beyond what they do.
use vstd::prelude::*;
use std::sync::Arc;
use std::sync::atomic::{AtomicBool, Ordering};

verus! {

/// A cancellation token shared across threads; clones share the flag.
#[derive(Debug, Clone)]
pub struct CancellationToken {
    cancelled: Arc<AtomicBool>,
}

impl CancellationToken {
    /// A token that is not cancelled.
    pub fn new() -> (r: CancellationToken) {
        CancellationToken { cancelled: Arc::new(AtomicBool::new(false)) }
    }

    /// Requests cancellation.
    pub fn cancel(&self) {
        self.cancelled.store(true, Ordering::SeqCst);
    }

    /// Whether cancellation has been requested.
    pub fn is_cancelled(&self) -> (r: bool) {
        self.cancelled.load(Ordering::SeqCst)
    }

    /// Clears the flag, for reuse.
    pub fn reset(&self) {
        self.cancelled.store(false, Ordering::SeqCst);
    }
}

impl Default for CancellationToken {
    fn default() -> (r: CancellationToken) {
        CancellationToken::new()
    }
}

} // verus!
