use vstd::prelude::*;

use crate::errors::Error;

verus! {

/// Nanoseconds in one second.
pub const NANOS_PER_SEC: u64 = 1_000_000_000;

/// Where a time value stands relative to another.
#[derive(Debug, Clone, Copy, PartialEq, Eq, Structural)]
pub enum TimeOrder {
    Before,
    Same,
    After,
}

/// A physical time value: a copyable type with a total order and a
/// difference type used for drift-bound checks.
///
/// The order is given by the spec function `le`; the four proof obligations
/// make it a total order, so `Clock` can rely on `max` and tie-breaking being
/// well defined for every implementation. `delta` is the amount by which
/// `self` exceeds an earlier value; it is compared against a drift bound with
/// `delta_le`. Nothing here assumes the time value ever moves forward.
pub trait TimePoint: Sized + Copy {
    type Delta: Copy;

    /// The total order on time values.
    spec fn le(self, other: Self) -> bool;

    /// The order on differences, used only to compare a drift excess with a
    /// configured bound.
    spec fn delta_le(a: Self::Delta, b: Self::Delta) -> bool;

    /// The difference `self - earlier`, meaningful when `earlier` is below
    /// `self`.
    spec fn delta(self, earlier: Self) -> Self::Delta;

    proof fn reflexive(x: Self)
        ensures
            Self::le(x, x),
    ;

    proof fn transitive(x: Self, y: Self, z: Self)
        requires
            Self::le(x, y),
            Self::le(y, z),
        ensures
            Self::le(x, z),
    ;

    proof fn antisymmetric(x: Self, y: Self)
        requires
            Self::le(x, y),
            Self::le(y, x),
        ensures
            x == y,
    ;

    proof fn total(x: Self, y: Self)
        ensures
            Self::le(x, y) || Self::le(y, x),
    ;

    /// Three-way comparison agreeing with `le`.
    fn compare(&self, other: &Self) -> (c: TimeOrder)
        ensures
            (match c {
                TimeOrder::Before => self.le(*other) && *self != *other,
                TimeOrder::Same => *self == *other,
                TimeOrder::After => other.le(*self) && *self != *other,
            }),
    ;

    /// Computes `self - earlier`; callers must know the operands are ordered.
    fn delta_exec(self, earlier: Self) -> (d: Self::Delta)
        requires
            earlier.le(self),
        ensures
            d == self.delta(earlier),
    ;

    /// Executable form of `delta_le`.
    fn delta_le_exec(a: Self::Delta, b: Self::Delta) -> (r: bool)
        ensures
            r == Self::delta_le(a, b),
    ;
}

impl TimePoint for u64 {
    type Delta = u64;

    open spec fn le(self, other: Self) -> bool {
        self <= other
    }

    open spec fn delta_le(a: u64, b: u64) -> bool {
        a <= b
    }

    open spec fn delta(self, earlier: Self) -> u64 {
        (self - earlier) as u64
    }

    proof fn reflexive(x: Self) {
    }

    proof fn transitive(x: Self, y: Self, z: Self) {
    }

    proof fn antisymmetric(x: Self, y: Self) {
    }

    proof fn total(x: Self, y: Self) {
    }

    fn compare(&self, other: &Self) -> (c: TimeOrder) {
        if *self < *other {
            TimeOrder::Before
        } else if *self == *other {
            TimeOrder::Same
        } else {
            TimeOrder::After
        }
    }

    fn delta_exec(self, earlier: Self) -> (d: u64) {
        self - earlier
    }

    fn delta_le_exec(a: u64, b: u64) -> (r: bool) {
        a <= b
    }
}

/// A supplier of physical time readings. Reading may fail (the wall clock can
/// sit before the epoch) and may move backward; `Clock` tolerates both.
///
/// `read_spec` says what a read may return and how it may leave the source;
/// each implementation pins it down, and `Clock`'s contracts speak through
/// it, so a caller who knows the source knows the timestamps.
pub trait ClockSource: Sized {
    type Time: TimePoint;

    /// What a read may return, relating the source before (`pre`) and after
    /// (`post`) to the outcome.
    spec fn read_spec(pre: Self, post: Self, r: Result<Self::Time, Error>) -> bool;

    fn now(&mut self) -> (r: Result<Self::Time, Error>)
        ensures
            Self::read_spec(*old(self), *final(self), r),
    ;
}

/// A deterministic clock source holding a single settable `u64` value; used
/// to drive the algorithm from literal values in tests and simulations.
#[derive(Debug, Clone, Copy, PartialEq, Eq, Structural)]
pub struct ManualClock(pub u64);

impl ManualClock {
    pub fn new(initial: u64) -> (c: ManualClock)
        ensures
            c.0 == initial,
    {
        ManualClock(initial)
    }

    /// Overwrites the held value unconditionally, even moving it backward.
    pub fn set_time(&mut self, t: u64)
        ensures
            final(self).0 == t,
    {
        self.0 = t;
    }
}

impl ClockSource for ManualClock {
    type Time = u64;

    /// A read returns the held value exactly, never fails, and changes
    /// nothing.
    open spec fn read_spec(pre: Self, post: Self, r: Result<u64, Error>) -> bool {
        r == Ok::<u64, Error>(pre.0) && post == pre
    }

    fn now(&mut self) -> (r: Result<u64, Error>) {
        Ok(self.0)
    }
}

} // verus!
