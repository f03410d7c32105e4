use vstd::prelude::*;

use crate::source::TimePoint;

verus! {

/// A hybrid logical clock reading: a physical time value paired with a
/// logical counter that breaks ties when physical time stalls.
///
/// Ordering is lexicographic: primarily by `time`, with `count` deciding
/// between equal times; see `ts_lt` and `ts_le`. Values are immutable; they
/// are produced by `Clock::now`, carried between processes, or decoded from
/// bytes.
#[derive(Debug, Clone, Copy, PartialEq, Eq, PartialOrd, Ord, Hash, Structural)]
pub struct Timestamp<T> {
    pub time: T,
    pub count: u16,
}

/// Strict lexicographic order on timestamps: by time, then by counter.
pub open spec fn ts_lt<T: TimePoint>(a: Timestamp<T>, b: Timestamp<T>) -> bool {
    (a.time.le(b.time) && a.time != b.time) || (a.time == b.time && a.count < b.count)
}

/// Non-strict form of `ts_lt`.
pub open spec fn ts_le<T: TimePoint>(a: Timestamp<T>, b: Timestamp<T>) -> bool {
    ts_lt(a, b) || a == b
}

/// The timestamp order is total: any two timestamps are comparable.
pub proof fn lemma_ts_order_total<T: TimePoint>(a: Timestamp<T>, b: Timestamp<T>)
    ensures
        ts_le(a, b) || ts_le(b, a),
{
    T::total(a.time, b.time);
}

/// The timestamp order is antisymmetric: mutual `ts_le` forces equality.
pub proof fn lemma_ts_order_antisymmetric<T: TimePoint>(a: Timestamp<T>, b: Timestamp<T>)
    requires
        ts_le(a, b),
        ts_le(b, a),
    ensures
        a == b,
{
    if a != b {
        if a.time != b.time {
            T::antisymmetric(a.time, b.time);
        }
    }
}

/// The strict timestamp order is transitive.
pub proof fn lemma_ts_lt_transitive<T: TimePoint>(
    a: Timestamp<T>,
    b: Timestamp<T>,
    c: Timestamp<T>,
)
    requires
        ts_lt(a, b),
        ts_lt(b, c),
    ensures
        ts_lt(a, c),
{
    if a.time != b.time && b.time != c.time {
        T::transitive(a.time, b.time, c.time);
        if a.time == c.time {
            T::antisymmetric(b.time, c.time);
        }
    }
}

/// A weak step followed by a strict step (or the reverse) is strict; chaining
/// this along a run of `now`/`observe` calls gives the monotonicity of every
/// timestamp a clock hands out.
pub proof fn lemma_ts_le_lt_transitive<T: TimePoint>(
    a: Timestamp<T>,
    b: Timestamp<T>,
    c: Timestamp<T>,
)
    requires
        ts_le(a, b),
        ts_lt(b, c),
    ensures
        ts_lt(a, c),
{
    if a != b {
        lemma_ts_lt_transitive(a, b, c);
    }
}

/// The weak timestamp order is transitive.
pub proof fn lemma_ts_le_transitive<T: TimePoint>(
    a: Timestamp<T>,
    b: Timestamp<T>,
    c: Timestamp<T>,
)
    requires
        ts_le(a, b),
        ts_le(b, c),
    ensures
        ts_le(a, c),
{
    if a != b && b != c {
        lemma_ts_lt_transitive(a, b, c);
    }
}

/// Monotonicity along a whole run: in any chain of clock states in which
/// each step only grows `last` — as `now` and `observe` ensure of every
/// call — each state stays at or below every later one.
pub proof fn lemma_run_monotone<T: TimePoint>(run: Seq<Timestamp<T>>, i: int, j: int)
    requires
        forall|k: int| 0 <= k < run.len() - 1 ==> #[trigger] ts_le(run[k], run[k + 1]),
        0 <= i <= j < run.len(),
    ensures
        ts_le(run[i], run[j]),
    decreases j - i,
{
    if i < j {
        lemma_run_monotone(run, i, j - 1);
        assert(ts_le(run[j - 1], run[(j - 1) + 1]));
        lemma_ts_le_transitive(run[i], run[j - 1], run[j]);
    }
}

/// A timestamp minted strictly above the end of such a run — as `now`
/// ensures of its result — exceeds every timestamp in the run: each value a
/// clock returns is greater than all it returned or observed before.
pub proof fn lemma_minted_tops_run<T: TimePoint>(run: Seq<Timestamp<T>>, minted: Timestamp<T>)
    requires
        forall|k: int| 0 <= k < run.len() - 1 ==> #[trigger] ts_le(run[k], run[k + 1]),
        run.len() > 0,
        ts_lt(run[run.len() - 1], minted),
    ensures
        forall|k: int| 0 <= k < run.len() ==> ts_lt(#[trigger] run[k], minted),
{
    assert forall|k: int| 0 <= k < run.len() implies ts_lt(#[trigger] run[k], minted) by {
        lemma_run_monotone(run, k, run.len() - 1);
        lemma_ts_le_lt_transitive(run[k], run[run.len() - 1], minted);
    }
}

/// Strict order is irreflexive, so `ts_lt` and equality never coincide.
pub proof fn lemma_ts_lt_irreflexive<T: TimePoint>(a: Timestamp<T>)
    ensures
        !ts_lt(a, a),
{
}

} // verus!
