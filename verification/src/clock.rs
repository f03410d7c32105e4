use vstd::prelude::*;

use crate::errors::Error;
use crate::source::{ClockSource, ManualClock, TimeOrder, TimePoint};
use crate::timestamp::{ts_le, ts_lt, Timestamp};

verus! {

/// The hybrid logical clock engine.
///
/// `last` is the greatest timestamp this clock has ever issued or
/// incorporated, and only ever grows under `ts_le`. `max_diff`, when set,
/// bounds how far ahead of the local physical reading a remote timestamp may
/// run before `observe` rejects it; `None` means no rejection.
pub struct Clock<C: ClockSource> {
    pub source: C,
    pub last: Timestamp<C::Time>,
    pub max_diff: Option<<C::Time as TimePoint>::Delta>,
}

/// What `now` yields from the previous state `last` and a fresh physical
/// reading `pt`: if the reading has moved past `last.time` the counter
/// restarts at zero; otherwise the time stands still and the counter must
/// advance, failing if it would wrap.
pub open spec fn advance_result<T: TimePoint>(last: Timestamp<T>, pt: T) -> Result<
    Timestamp<T>,
    Error,
> {
    if last.time.le(pt) && last.time != pt {
        Ok(Timestamp { time: pt, count: 0u16 })
    } else if last.count == u16::MAX {
        Err(Error::ClockOverflow)
    } else {
        Ok(Timestamp { time: last.time, count: (last.count + 1) as u16 })
    }
}

/// How `observe` folds a remote timestamp into the local state: the later
/// time wins; on a time tie the larger counter wins; the counter is adopted,
/// never incremented here.
pub open spec fn merged<T: TimePoint>(last: Timestamp<T>, remote: Timestamp<T>) -> Timestamp<T> {
    if last.time == remote.time {
        Timestamp {
            time: last.time,
            count: if last.count >= remote.count {
                last.count
            } else {
                remote.count
            },
        }
    } else if remote.time.le(last.time) {
        last
    } else {
        remote
    }
}

/// Whether `observe` rejects a remote time against a physical reading `pt`:
/// only when a bound is configured, the remote time lies strictly ahead of
/// `pt`, and the excess runs past the bound.
pub open spec fn drift_rejected<T: TimePoint>(
    remote_time: T,
    pt: T,
    max_diff: Option<T::Delta>,
) -> bool {
    match max_diff {
        Some(bound) => pt.le(remote_time) && pt != remote_time && !T::delta_le(
            remote_time.delta(pt),
            bound,
        ),
        None => false,
    }
}

/// Drift rejection is one-sided: a remote time at or behind the current
/// physical reading is never rejected, whatever the bound.
pub proof fn lemma_drift_rejection_is_one_sided<T: TimePoint>(
    remote_time: T,
    pt: T,
    max_diff: Option<T::Delta>,
)
    requires
        remote_time.le(pt),
    ensures
        !drift_rejected(remote_time, pt, max_diff),
{
    if pt.le(remote_time) {
        T::antisymmetric(remote_time, pt);
    }
}

/// What `observe` yields from the previous state, a remote timestamp and a
/// fresh physical reading: rejection when the remote time drifts past the
/// bound, the merged state otherwise.
pub open spec fn observe_result<T: TimePoint>(
    last: Timestamp<T>,
    remote: Timestamp<T>,
    pt: T,
    max_diff: Option<T::Delta>,
) -> Result<Timestamp<T>, Error> {
    if drift_rejected(remote.time, pt, max_diff) {
        Err(Error::OffsetTooGreat)
    } else {
        Ok(merged(last, remote))
    }
}

/// The minting step of `now`, taken out of the clock so its outcome is
/// pinned for every reading: exactly `advance_result`.
pub fn advance<T: TimePoint>(last: Timestamp<T>, pt: T) -> (r: Result<Timestamp<T>, Error>)
    ensures
        r == advance_result(last, pt),
{
    match pt.compare(&last.time) {
        TimeOrder::After => Ok(Timestamp { time: pt, count: 0 }),
        _ => {
            proof {
                if last.time.le(pt) && pt.le(last.time) {
                    T::antisymmetric(pt, last.time);
                }
            }
            if last.count == u16::MAX {
                Err(Error::ClockOverflow)
            } else {
                Ok(Timestamp { time: last.time, count: last.count + 1 })
            }
        },
    }
}

/// The merging step of `observe`, taken out of the clock so rejection and
/// merge are pinned for every reading: exactly `observe_result`.
pub fn merge_observed<T: TimePoint>(
    last: Timestamp<T>,
    remote: &Timestamp<T>,
    pt: T,
    max_diff: Option<T::Delta>,
) -> (r: Result<Timestamp<T>, Error>)
    ensures
        r == observe_result(last, *remote, pt, max_diff),
{
    match max_diff {
        Some(bound) => {
            match pt.compare(&remote.time) {
                TimeOrder::Before => {
                    let excess = remote.time.delta_exec(pt);
                    if !T::delta_le_exec(excess, bound) {
                        return Err(Error::OffsetTooGreat);
                    }
                },
                _ => {
                    proof {
                        if pt.le(remote.time) && remote.time.le(pt) {
                            T::antisymmetric(pt, remote.time);
                        }
                    }
                },
            }
        },
        None => {},
    }
    match last.time.compare(&remote.time) {
        TimeOrder::Same => {
            let c = if last.count >= remote.count {
                last.count
            } else {
                remote.count
            };
            Ok(Timestamp { time: last.time, count: c })
        },
        TimeOrder::After => Ok(last),
        TimeOrder::Before => {
            proof {
                if remote.time.le(last.time) {
                    T::antisymmetric(last.time, remote.time);
                }
            }
            Ok(*remote)
        },
    }
}

/// Everything a `now` call may do, relating the clock before and after to
/// the result: for some reading the source may return, the result is
/// exactly `advance_result` of it, or the read failed and its error is
/// passed through.
pub open spec fn now_outcome<C: ClockSource>(
    pre: Clock<C>,
    post: Clock<C>,
    r: Result<Timestamp<C::Time>, Error>,
) -> bool {
    (exists|pt: C::Time|
        #[trigger] C::read_spec(pre.source, post.source, Ok::<C::Time, Error>(pt))
            && r == advance_result(pre.last, pt)) || (exists|e: Error|
        #[trigger] C::read_spec(pre.source, post.source, Err::<C::Time, Error>(e))
            && r == Err::<Timestamp<C::Time>, Error>(e))
}

/// Everything an `observe` call may do: for some reading the source may
/// return, the outcome is exactly `observe_result` of it — so rejection
/// happens only as `drift_rejected` says — or the read failed and its
/// error is passed through.
pub open spec fn observe_outcome<C: ClockSource>(
    pre: Clock<C>,
    post: Clock<C>,
    remote: Timestamp<C::Time>,
    r: Result<(), Error>,
) -> bool {
    (exists|pt: C::Time|
        #[trigger] C::read_spec(pre.source, post.source, Ok::<C::Time, Error>(pt))
            && (match observe_result(pre.last, remote, pt, pre.max_diff) {
            Ok(m) => r == Ok::<(), Error>(()) && post.last == m,
            Err(e) => r == Err::<(), Error>(e),
        })) || (exists|e: Error|
        #[trigger] C::read_spec(pre.source, post.source, Err::<C::Time, Error>(e))
            && r == Err::<(), Error>(e))
}

/// The merged state sits at or above both of its inputs.
pub proof fn lemma_merged_dominates<T: TimePoint>(last: Timestamp<T>, remote: Timestamp<T>)
    ensures
        ts_le(last, merged(last, remote)),
        ts_le(remote, merged(last, remote)),
{
    if last.time != remote.time && !remote.time.le(last.time) {
        T::total(last.time, remote.time);
        T::reflexive(remote.time);
    }
}

impl<C: ClockSource> Clock<C> {
    /// Creates a clock seeded with a first reading of `source` and no drift
    /// bound; a failed reading is propagated.
    pub fn new(source: C) -> (r: Result<Clock<C>, Error>)
        ensures
            (match r {
                Ok(c) => c.max_diff is None && c.last.count == 0 && C::read_spec(
                    source,
                    c.source,
                    Ok::<C::Time, Error>(c.last.time),
                ),
                Err(e) => exists|post: C|
                    #[trigger] C::read_spec(source, post, Err::<C::Time, Error>(e)),
            }),
    {
        let ghost source0 = source;
        let mut source = source;
        match source.now() {
            Ok(t) => Ok(Clock { source, last: Timestamp { time: t, count: 0 }, max_diff: None }),
            Err(e) => {
                proof {
                    assert(C::read_spec(source0, source, Err::<C::Time, Error>(e)));
                }
                Err(e)
            },
        }
    }

    /// Installs a drift bound on an existing clock, leaving its state as is.
    pub fn with_max_diff(self, max_diff: <C::Time as TimePoint>::Delta) -> (r: Clock<C>)
        ensures
            r.source == self.source,
            r.last == self.last,
            r.max_diff == Some(max_diff),
    {
        Clock { source: self.source, last: self.last, max_diff: Some(max_diff) }
    }

    /// Borrows the wrapped source, for reconfiguring it in place.
    pub fn inner_mut(&mut self) -> (r: &mut C)
        ensures
            *r == old(self).source,
            final(self).source == *final(r),
            final(self).last == old(self).last,
            final(self).max_diff == old(self).max_diff,
    {
        &mut self.source
    }

    /// Reads the wrapped source.
    pub fn inner(&self) -> (r: &C)
        ensures
            *r == self.source,
    {
        &self.source
    }

    /// Mints a fresh local timestamp, strictly above everything this clock
    /// has issued or incorporated before.
    ///
    /// The source reads once; for whatever it returned, the result is
    /// exactly `advance_result` of the old state and that reading, which
    /// becomes the new `last` — or the propagated read error. Failure,
    /// whether a failed read or the counter wrapping (`ClockOverflow`),
    /// leaves the state untouched.
    pub fn now(&mut self) -> (r: Result<Timestamp<C::Time>, Error>)
        ensures
            final(self).max_diff == old(self).max_diff,
            (match r {
                Ok(t) => final(self).last == t && ts_lt(old(self).last, t),
                Err(_) => final(self).last == old(self).last,
            }),
            now_outcome(*old(self), *final(self), r),
    {
        let ghost pre = *self;
        let pt = match self.source.now() {
            Ok(pt) => pt,
            Err(e) => {
                proof {
                    assert(C::read_spec(pre.source, self.source, Err::<C::Time, Error>(e)));
                    assert(now_outcome(pre, *self, Err::<Timestamp<C::Time>, Error>(e)));
                }
                return Err(e);
            },
        };
        match advance(self.last, pt) {
            Ok(t) => {
                self.last = t;
                proof {
                    assert(C::read_spec(pre.source, self.source, Ok::<C::Time, Error>(pt)));
                    assert(now_outcome(pre, *self, Ok::<Timestamp<C::Time>, Error>(t)));
                }
                Ok(t)
            },
            Err(e) => {
                proof {
                    assert(C::read_spec(pre.source, self.source, Ok::<C::Time, Error>(pt)));
                    assert(now_outcome(pre, *self, Err::<Timestamp<C::Time>, Error>(e)));
                }
                Err(e)
            },
        }
    }

    /// Folds a remote timestamp into local knowledge without minting an
    /// event: on success the new state is `merged` of the old state and the
    /// remote value, at or above both. A remote time too far ahead of the
    /// physical reading fails with `OffsetTooGreat`; any failure leaves the
    /// state untouched.
    ///
    /// The source reads once, for drift validation only; for whatever it
    /// returned, the outcome is exactly `observe_result` of the old state,
    /// the remote value and that reading — so a rejection happens only as
    /// `drift_rejected` says, never for a remote time at or behind the
    /// reading — or the propagated read error.
    pub fn observe(&mut self, remote: &Timestamp<C::Time>) -> (r: Result<(), Error>)
        ensures
            final(self).max_diff == old(self).max_diff,
            (match r {
                Ok(_) => final(self).last == merged(old(self).last, *remote) && ts_le(
                    old(self).last,
                    final(self).last,
                ) && ts_le(*remote, final(self).last),
                Err(_) => final(self).last == old(self).last,
            }),
            observe_outcome(*old(self), *final(self), *remote, r),
    {
        let ghost pre = *self;
        let pt = match self.source.now() {
            Ok(pt) => pt,
            Err(e) => {
                proof {
                    assert(C::read_spec(pre.source, self.source, Err::<C::Time, Error>(e)));
                    assert(observe_outcome(pre, *self, *remote, Err::<(), Error>(e)));
                }
                return Err(e);
            },
        };
        match merge_observed(self.last, remote, pt, self.max_diff) {
            Ok(m) => {
                proof {
                    lemma_merged_dominates::<C::Time>(self.last, *remote);
                }
                self.last = m;
                proof {
                    assert(C::read_spec(pre.source, self.source, Ok::<C::Time, Error>(pt)));
                    assert(observe_outcome(pre, *self, *remote, Ok::<(), Error>(())));
                }
                Ok(())
            },
            Err(e) => {
                proof {
                    assert(C::read_spec(pre.source, self.source, Ok::<C::Time, Error>(pt)));
                    assert(observe_outcome(pre, *self, *remote, Err::<(), Error>(e)));
                }
                Err(e)
            },
        }
    }
}

impl Clock<ManualClock> {
    /// A clock over a `ManualClock` starting at `initial`; never fails.
    pub fn manual(initial: u64) -> (r: Result<Clock<ManualClock>, Error>)
        ensures
            (match r {
                Ok(c) => c.source.0 == initial && c.last == (Timestamp {
                    time: initial,
                    count: 0u16,
                }) && c.max_diff is None,
                Err(_) => false,
            }),
    {
        Ok(
            Clock {
                source: ManualClock::new(initial),
                last: Timestamp { time: initial, count: 0 },
                max_diff: None,
            },
        )
    }

    /// Moves the manual source to `t` (forward or backward) without touching
    /// the clock state.
    pub fn set_time(&mut self, t: u64)
        ensures
            final(self).source.0 == t,
            final(self).last == old(self).last,
            final(self).max_diff == old(self).max_diff,
    {
        self.source.set_time(t);
    }
}

} // verus!
