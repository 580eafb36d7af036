//! External readiness signals, as the signal-driven resumption policy sees
//! them.
//!
//! A signal is a single-fire token created together with a pulse; firing the
//! pulse moves the signal out of pending, and dropping the pulse unfired
//! moves it to a dropped error state. The kernel stores the signals that
//! fibers wait on and reads their state through a trusted view of the
//! `pulse` crate; everything it decides from such a read is verified.

use vstd::prelude::*;

verus! {

/// The state of an external signal at one read: still pending, pulsed, or
/// dropped without ever being pulsed. Another thread may fire or drop the
/// signal at any moment, so two reads of the same signal may differ; the
/// kernel therefore reads once and decides from the value read.
#[derive(Clone, Copy, PartialEq, Eq, Structural, Debug)]
pub enum SignalState {
    /// The pulse exists and has not fired.
    Pending,
    /// The pulse fired; the signal is ready forever.
    Pulsed,
    /// The pulse was dropped without firing; waiting would never end.
    Dropped,
}

#[verifier::external_type_specification]
#[verifier::external_body]
pub struct ExSignal(pulse::Signal);

/// Relies on `pulse::Signal::pulsed` to create a signal that is already
/// pulsed, with no pulse outstanding: the born-ready signal a freshly
/// spawned fiber waits on under the signal policy.
#[verifier::external_body]
pub(crate) fn pulsed_signal() -> pulse::Signal {
    pulse::Signal::pulsed()
}

/// Relies on `pulse::Signal::state` to read the signal's current state;
/// the three variants are carried over one for one. The value read is a
/// snapshot: nothing relates two reads of the same signal.
#[verifier::external_body]
pub(crate) fn read_signal_state(s: &pulse::Signal) -> SignalState {
    match s.state() {
        pulse::SignalState::Pending => SignalState::Pending,
        pulse::SignalState::Pulsed => SignalState::Pulsed,
        pulse::SignalState::Dropped => SignalState::Dropped,
    }
}

} // verus!
