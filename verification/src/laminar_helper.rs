//! A flag with which one thread asks a connection worker to stop.

use vstd::prelude::*;
use std::sync::Arc;
use std::sync::atomic::AtomicBool;

verus! {

/// A shared stop flag: every clone sees the same flag, `disconnect` raises
/// it and nothing lowers it. Other threads may raise it at any moment, so
/// what `disconnected` reads is not known ahead.
#[derive(Clone)]
pub struct ConnectionTrigger(Arc<AtomicBool>);

impl ConnectionTrigger {
    /// A fresh, lowered flag.
    pub fn new() -> (r: ConnectionTrigger) {
        ConnectionTrigger(Arc::new(AtomicBool::new(false)))
    }

    /// Raises the flag for every clone.
    pub fn disconnect(&self) {
        self.0.store(true, std::sync::atomic::Ordering::SeqCst);
    }

    /// Whether the flag has been raised, by this clone or another.
    pub fn disconnected(&self) -> (r: bool) {
        self.0.load(std::sync::atomic::Ordering::SeqCst)
    }
}

} // verus!
