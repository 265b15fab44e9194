//! The shared shutdown signal: a quit flag and an exit code that every holder
//! of a clone reads and writes atomically.

use std::sync::atomic::{AtomicBool, AtomicU8, Ordering};
use std::sync::Arc;
use vstd::prelude::*;

verus! {

/// A handle on the process-wide quit flag and exit code.
///
/// Clones share the two cells. Writes are lock-free and the last one wins;
/// what a read returns depends on what the other holders wrote, so the
/// methods promise nothing about the values. The rules that act on the flag
/// take it as a plain `bool`.
#[derive(Clone)]
pub struct RunningTracker {
    exit_code: Arc<AtomicU8>,
    quitting: Arc<AtomicBool>,
}

impl RunningTracker {
    /// A fresh signal: no quit requested, exit code 0.
    pub fn new() -> (tracker: Self) {
        RunningTracker {
            exit_code: Arc::new(AtomicU8::new(0)),
            quitting: Arc::new(AtomicBool::new(false)),
        }
    }

    /// Records `code` as the exit code, then requests the quit.
    pub fn quit_with_code(&self, code: u8, reason: &str) {
        let _ = reason;
        self.exit_code.store(code, Ordering::Release);
        self.request_quit();
    }

    /// Raises the quit flag. It is never lowered again.
    pub fn request_quit(&self) {
        self.quitting.store(true, Ordering::Release);
    }

    /// Whether some holder has requested the quit.
    pub fn quit_requested(&self) -> (quit: bool) {
        self.quitting.load(Ordering::Acquire)
    }

    /// The exit code that was written last, 0 if none was.
    pub fn exit_code(&self) -> (code: u8) {
        self.exit_code.load(Ordering::Acquire)
    }
}

} // verus!
