use vstd::prelude::*;

verus! {

/// Atomic boolean with relaxed ordering.
///
/// Meant for sharing a single flag between threads when no synchronization
/// with other memory is needed. Any thread may store into the cell at any
/// time, so a load promises nothing about which value it observes.
pub struct AtomicBool {
    atomic: std::sync::atomic::AtomicBool,
}

impl AtomicBool {
    /// New atomic flag holding `value`.
    pub fn new(value: bool) -> (r: AtomicBool) {
        AtomicBool { atomic: std::sync::atomic::AtomicBool::new(value) }
    }

    /// Current value of the flag.
    pub fn get(&self) -> (r: bool) {
        self.atomic.load(std::sync::atomic::Ordering::Relaxed)
    }

    /// Store `value` into the flag.
    pub fn set(&self, value: bool) {
        self.atomic.store(value, std::sync::atomic::Ordering::Relaxed)
    }

    /// Read the flag and clear it in one atomic step.
    pub fn take(&self) -> (r: bool) {
        self.atomic.swap(false, std::sync::atomic::Ordering::Relaxed)
    }
}

impl Default for AtomicBool {
    fn default() -> (r: AtomicBool) {
        AtomicBool::new(false)
    }
}

} // verus!
