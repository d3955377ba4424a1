//! Trusted boundary to the `anomaly_grid` engine.
//!
//! The engine is consumed as an opaque capability. Each wrapper below
//! holds one chain of engine calls and nothing else; its contract states
//! only what the engine's source plainly shows. Engine errors are carried
//! out as their display message and mapped to the library's error
//! taxonomy by verified code.
//!
//! A successfully trained engine is held in [`TrainedEngine`], whose only
//! constructor is the trusted training call: every value of the type
//! therefore holds a model on which detection cannot fail.

use vstd::prelude::*;

use crate::detector::Metrics;
use crate::scoring::{normalized, raw_strength_bits};

verus! {

#[verifier::external_type_specification]
#[verifier::external_body]
pub struct ExAnomalyDetector(anomaly_grid::AnomalyDetector);

/// An engine that finished training successfully. The field is private
/// and the trusted training call is the only constructor, so detection
/// and metrics reads on it cannot hit the engine's untrained error path.
pub struct TrainedEngine {
    raw: anomaly_grid::AnomalyDetector,
}

/// Whether the engine's training succeeds for the given maximum order and
/// sequence collection. The outcome is a deterministic function of these
/// alone: the engine rejects an empty batch, any sequence shorter than
/// its fixed minimum length of two symbols, and a batch whose contexts
/// overrun its fixed memory budget, and succeeds otherwise.
pub uninterp spec fn trains(max_order: usize, sequences: Seq<Seq<Seq<char>>>) -> bool;

/// Relies on `AnomalyGridConfig::default` + `with_max_order`,
/// `AnomalyDetector::with_config` and `train_sequences`: builds the stock
/// configuration with the given order — rejected exactly when the order
/// is zero, and accepted by the engine's validation otherwise — then
/// trains a fresh engine on the collection. Training fails on an empty
/// batch, on any sequence of fewer than two symbols, or on a context
/// overrun, all functions of the order and the collection alone.
#[verifier::external_body]
pub(crate) fn grid_train_engine(max_order: usize, sequences: &Vec<Vec<String>>) -> (r: Result<
    TrainedEngine,
    String,
>)
    ensures
        max_order >= 1 ==> (r is Ok <==> trains(max_order, sequences.deep_view())),
        max_order == 0 ==> r is Err,
        sequences@.len() == 0 ==> r is Err,
        (exists|i: int| 0 <= i < sequences@.len() && sequences@[i]@.len() < 2) ==> r is Err,
{
    let config = match anomaly_grid::AnomalyGridConfig::default().with_max_order(max_order) {
        Ok(c) => c,
        Err(e) => return Err(e.to_string()),
    };
    let mut raw = match anomaly_grid::AnomalyDetector::with_config(config) {
        Ok(d) => d,
        Err(e) => return Err(e.to_string()),
    };
    match raw.train_sequences(sequences) {
        Ok(()) => Ok(TrainedEngine { raw }),
        Err(e) => Err(e.to_string()),
    }
}

/// The engine's detection output for a trained engine and one query
/// sequence, at zero sensitivity, with the sign of any zero strength
/// collapsed to positive. Detection reads only the engine's frozen
/// counts and vocabulary, so the output is a function of the engine
/// value and the query; the one unpinned sign of a zero surprise is
/// removed by the normalization.
pub uninterp spec fn detections(engine: TrainedEngine, sequence: Seq<Seq<char>>) -> Seq<u64>;

/// The engine's training diagnostics: a plain read of the three counters
/// stored in the engine value.
pub uninterp spec fn metrics_of(engine: TrainedEngine) -> Metrics;

/// Relies on `AnomalyDetector::detect_anomalies` at zero sensitivity: on
/// a trained engine neither of its error paths is reachable (the
/// sensitivity is in range, and successful training leaves at least one
/// context), so the call succeeds; the error is still propagated rather
/// than swallowed, so a change in the engine would surface here. Every
/// reported anomaly carries a strength squashed by `tanh` into the unit
/// interval — or an exact negative zero, when the sign of a zero
/// surprise falls that way — returned as its raw bit pattern; once those
/// signs are collapsed, the output is the function of the engine value
/// and the query named above.
#[verifier::external_body]
pub(crate) fn grid_detect_strength_bits(engine: &TrainedEngine, sequence: &Vec<String>) -> (r:
    Result<Vec<u64>, String>)
    ensures
        r is Ok,
        r matches Ok(v) ==> forall|i: int| 0 <= i < v@.len() ==> raw_strength_bits(v@[i]),
        r matches Ok(v) ==> normalized(v@) == detections(*engine, sequence.deep_view()),
{
    // The default double is zero: detection at minimum sensitivity, so
    // every anomaly event the engine found is reported.
    match engine.raw.detect_anomalies(sequence, Default::default()) {
        Ok(anomalies) => Ok(anomalies.iter().map(|a| a.anomaly_strength.to_bits()).collect()),
        Err(e) => Err(e.to_string()),
    }
}

/// Relies on `AnomalyDetector::performance_metrics`: the training
/// diagnostics of the engine, copied out field for field.
#[verifier::external_body]
pub(crate) fn grid_read_metrics(engine: &TrainedEngine) -> (r: Metrics)
    ensures
        r == metrics_of(*engine),
{
    let m = engine.raw.performance_metrics();
    Metrics {
        training_time_ms: m.training_time_ms,
        context_count: m.context_count,
        memory_bytes: m.estimated_memory_bytes,
    }
}

} // verus!
