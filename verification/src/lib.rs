//! A hybrid logical clock: timestamps that track wall-clock time while
//! staying strictly monotonic across `now`/`observe` exchanges between
//! processes, with an optional drift bound on observed remote timestamps and
//! an order-preserving fixed-width byte encoding for the wall-clock form.

mod clock;
mod errors;
mod source;
mod timestamp;
mod wall_ms;

pub use clock::{
    advance, advance_result, drift_rejected, lemma_drift_rejection_is_one_sided,
    lemma_merged_dominates, merge_observed, merged, now_outcome, observe_outcome, observe_result,
    Clock,
};
pub use errors::Error;
pub use source::{ClockSource, ManualClock, TimeOrder, TimePoint, NANOS_PER_SEC};
pub use timestamp::{
    lemma_minted_tops_run, lemma_run_monotone, lemma_ts_le_lt_transitive, lemma_ts_le_transitive,
    lemma_ts_lt_irreflexive, lemma_ts_lt_transitive, lemma_ts_order_antisymmetric,
    lemma_ts_order_total, ts_le, ts_lt, Timestamp,
};
pub use wall_ms::{
    bytes_lt, decoded, encoded, lemma_codec_round_trips, lemma_encoding_preserves_order,
    lemma_issue_order_in_bytes, lemma_tick_quantization_error, lemma_ticks_round_trip,
    lemma_unix_reading_preserves_order, lemma_unix_round_trip, lemma_wall_ticks_bounds,
    lemma_wall_ticks_monotone, ticks_of_nanos, unix_secs, unix_subsec_nanos, wall_of_unix,
    wall_ticks, WallMS, WallMST, EPOCH_2020, TICKS_PER_SEC,
};
