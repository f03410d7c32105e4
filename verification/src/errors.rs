use vstd::prelude::*;

verus! {

/// The ways a clock operation can fail.
///
/// `SourceReadFailure` comes from the underlying time source (for the wall
/// clock: the system time lies before the fixed 2020 epoch, or out of
/// range).
/// `OffsetTooGreat` is raised only by `Clock::observe`, when a remote
/// timestamp runs ahead of the local physical clock by more than the
/// configured drift bound. `ClockOverflow` is raised by `Clock::now` when the
/// logical counter would wrap.
#[derive(Debug, Clone, Copy, PartialEq, Eq, Structural)]
pub enum Error {
    SourceReadFailure,
    OffsetTooGreat,
    ClockOverflow,
}

} // verus!
