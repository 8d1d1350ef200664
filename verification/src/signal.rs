//! The cancellation signal: one shared flag that anyone may set, and that the
//! generation loop reads once per round.

use vstd::prelude::*;
use std::sync::atomic::AtomicBool;
use std::sync::Arc;

verus! {

/// Reads the signal. Another thread may set it at any time, so nothing is
/// known of the answer.
pub fn is_set(signal: &Arc<AtomicBool>) -> bool {
    signal.load(std::sync::atomic::Ordering::Relaxed)
}

/// Clears the signal, as every new session does.
pub fn clear(signal: &Arc<AtomicBool>) {
    signal.store(false, std::sync::atomic::Ordering::Relaxed)
}

} // verus!
