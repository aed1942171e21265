//! Whether a GUI window process is running.
//!
//! The daemon learns this by watching the GUI's bus name; the tray reads it
//! from inside its menu callback, which must not do I/O, so the answer is kept
//! in a flag that the watcher sets and the tray only loads.

use vstd::prelude::*;
use std::sync::Arc;
use std::sync::atomic::AtomicBool;

verus! {

/// A shared flag: is a GUI running? Cloning yields another handle to the same
/// flag.
#[derive(Clone)]
pub struct GuiPresence {
    running: Arc<AtomicBool>,
}

impl GuiPresence {
    /// A flag that starts out "no GUI running".
    pub fn new() -> GuiPresence {
        GuiPresence { running: Arc::new(AtomicBool::new(false)) }
    }

    /// Whether a GUI was last reported running. Another thread sets the flag,
    /// so nothing is known of the answer in advance.
    pub fn is_running(&self) -> bool {
        self.running.load(std::sync::atomic::Ordering::Acquire)
    }

    /// Records whether a GUI is running.
    pub fn set_running(&self, running: bool) {
        self.running.store(running, std::sync::atomic::Ordering::Release)
    }
}

} // verus!
