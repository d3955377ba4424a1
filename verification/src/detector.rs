//! Model lifecycle, scoring, prediction and metrics export.
//!
//! A [`Detector`] holds an immutable configuration and a tagged model
//! state: unfitted, or fitted with an opaque trained engine. The state
//! only ever moves from unfitted to fitted, and a later successful fit
//! replaces the trained engine wholesale; a failed fit leaves the prior
//! state untouched. Every operation that needs a trained model fails
//! deterministically while unfitted, and that state check precedes input
//! validation for the read operations. On a fitted detector the read
//! operations succeed on every valid collection: the engine's detection
//! has no reachable error path on a trained model, so success is owed,
//! not merely possible.

use vstd::prelude::*;

use crate::errors::{DetectorError, ErrorKind};
use crate::grid::{
    detections, grid_detect_strength_bits, grid_read_metrics, grid_train_engine, metrics_of,
    trains, TrainedEngine,
};
use crate::ingest::{sequences_valid, validate_sequences};
use crate::scoring::{
    all_non_negative, all_unit_interval, apply_threshold, effective_threshold,
    lemma_score_of_in_unit_interval, max_strength, non_negative_bits, normalize_strengths,
    predictions_of, score_of, unit_interval_bits, DEFAULT_THRESHOLD_BITS,
};

verus! {

/// The maximum context order a detector is built with when none is given.
pub const DEFAULT_MAX_ORDER: usize = 3;

/// Diagnostic counters read from a trained engine. All three are
/// unsigned, so each is non-negative by construction.
pub struct Metrics {
    /// Wall-clock training time, in milliseconds.
    pub training_time_ms: u64,
    /// Number of distinct historical contexts the trained model retains.
    pub context_count: usize,
    /// Estimated memory footprint of the trained model, in bytes.
    pub memory_bytes: usize,
}

/// The requested maximum context order: the caller's, or the default
/// when none was given.
pub open spec fn requested_order(max_order: Option<usize>) -> usize {
    match max_order {
        Some(m) => m,
        None => DEFAULT_MAX_ORDER,
    }
}

/// A score vector as the scoring path produces it for `n` sequences: one
/// entry per sequence, in input order, each the bit pattern of a double
/// in the unit interval and hence non-negative.
pub open spec fn valid_scores(scores: Seq<u64>, n: int) -> bool {
    &&& scores.len() == n
    &&& all_unit_interval(scores)
    &&& all_non_negative(scores)
}

/// The boundary wrapper around the engine: an immutable configuration
/// and the unfitted-or-fitted model state.
pub struct Detector {
    max_order: usize,
    model: Option<TrainedEngine>,
}

impl Detector {
    /// Well-formed: the stored order lies in the supported domain.
    pub closed spec fn wf(&self) -> bool {
        self.max_order >= 1
    }

    /// Whether the detector holds a trained model.
    pub closed spec fn is_fitted(&self) -> bool {
        self.model is Some
    }

    /// The trained engine currently held; meaningful only while fitted.
    pub closed spec fn engine(&self) -> TrainedEngine
        recommends
            self.is_fitted(),
    {
        self.model->Some_0
    }

    /// The score vector the scoring path owes for this detector and
    /// collection: per sequence, in input order, the aggregate of the
    /// engine's detection output for that sequence.
    pub open spec fn expected_scores(&self, sequences: Seq<Vec<String>>) -> Seq<u64> {
        Seq::new(sequences.len(), |i: int| score_of(detections(self.engine(), sequences[i].deep_view())))
    }

    /// The maximum context order this detector was built with.
    pub closed spec fn order(&self) -> usize {
        self.max_order
    }

    /// Whether a trained model is currently held.
    pub fn fitted(&self) -> (r: bool)
        ensures
            r == self.is_fitted(),
    {
        self.model.is_some()
    }

    /// Builds an unfitted detector, defaulting the order when none is
    /// given. Fails with a configuration error exactly when the requested
    /// order is outside the supported domain — zero, the one value the
    /// engine rejects — so no fit is possible on a misconfigured detector.
    pub fn new(max_order: Option<usize>) -> (r: Result<Detector, DetectorError>)
        ensures
            r is Ok <==> requested_order(max_order) >= 1,
            r matches Ok(d) ==> d.wf() && !d.is_fitted() && d.order() == requested_order(
                max_order,
            ),
            r matches Err(e) ==> e.kind == ErrorKind::Config,
    {
        let order = match max_order {
            Some(m) => m,
            None => DEFAULT_MAX_ORDER,
        };
        if order == 0 {
            Err(DetectorError::new(
                ErrorKind::Config,
                "invalid max_order 0: max_order must be greater than 0".to_owned(),
            ))
        } else {
            Ok(Detector { max_order: order, model: None })
        }
    }

    /// Validates the collection, trains a fresh engine on it, and commits
    /// the trained engine only after training succeeds: on any failure
    /// the detector is left exactly as it was, so a previously fitted
    /// model stays usable and the state never reverts to unfitted.
    /// Training succeeds or fails as a function of the order and the
    /// collection alone; in particular it fails on any sequence of fewer
    /// than two symbols.
    pub fn fit(&mut self, sequences: &Vec<Vec<String>>) -> (r: Result<(), DetectorError>)
        ensures
            final(self).order() == old(self).order(),
            old(self).wf() ==> final(self).wf(),
            old(self).is_fitted() ==> final(self).is_fitted(),
            r is Ok ==> final(self).is_fitted(),
            r matches Err(e) ==> *final(self) == *old(self),
            !sequences_valid(sequences@) <==> (r matches Err(e) && e.kind
                == ErrorKind::Validation),
            sequences_valid(sequences@) && r is Err ==> (r matches Err(e) && e.kind
                == ErrorKind::Training),
            old(self).wf() && sequences_valid(sequences@) ==> (r is Ok <==> trains(
                old(self).order(),
                sequences.deep_view(),
            )),
            old(self).wf() && (exists|i: int|
                0 <= i < sequences@.len() && sequences@[i]@.len() < 2) ==> r is Err,
    {
        match validate_sequences(sequences) {
            Ok(()) => (),
            Err(e) => {
                return Err(e);
            },
        }
        match grid_train_engine(self.max_order, sequences) {
            Ok(engine) => {
                self.model = Some(engine);
                Ok(())
            },
            Err(message) => Err(DetectorError::new(ErrorKind::Training, message)),
        }
    }

    /// Scores each sequence of the collection, in input order: a sequence
    /// with no reported anomaly scores exactly zero, any other scores the
    /// maximum reported anomaly strength; every score lies in the unit
    /// interval, and the vector is exactly [`Detector::expected_scores`]
    /// — the aggregates of the engine's detection output per sequence, so
    /// repeated calls on one state agree. Fails with a not-fitted error
    /// while unfitted — checked before input validation — and with a
    /// validation error on an empty collection; on a fitted detector and
    /// a valid collection it succeeds.
    pub fn predict_proba(&self, sequences: &Vec<Vec<String>>) -> (r: Result<
        Vec<u64>,
        DetectorError,
    >)
        ensures
            r is Ok <==> self.is_fitted() && sequences_valid(sequences@),
            !self.is_fitted() <==> (r matches Err(e) && e.kind == ErrorKind::NotFitted),
            (self.is_fitted() && !sequences_valid(sequences@)) <==> (r matches Err(e) && e.kind
                == ErrorKind::Validation),
            r matches Ok(scores) ==> valid_scores(scores@, sequences@.len() as int),
            r matches Ok(scores) ==> scores@ == self.expected_scores(sequences@),
    {
        let engine = match &self.model {
            Some(m) => m,
            None => {
                return Err(DetectorError::new(
                    ErrorKind::NotFitted,
                    "the detector has not been fitted; call fit before predicting".to_owned(),
                ));
            },
        };
        match validate_sequences(sequences) {
            Ok(()) => (),
            Err(e) => {
                return Err(e);
            },
        }
        let mut scores: Vec<u64> = Vec::new();
        let mut i: usize = 0;
        while i < sequences.len()
            invariant
                self.is_fitted(),
                *engine == self.engine(),
                i <= sequences@.len(),
                scores@.len() == i,
                forall|j: int| 0 <= j < i ==> unit_interval_bits(#[trigger] scores@[j]),
                forall|j: int| 0 <= j < i ==> non_negative_bits(#[trigger] scores@[j]),
                forall|j: int| 0 <= j < i ==> #[trigger] scores@[j] == score_of(
                    detections(self.engine(), sequences@[j].deep_view()),
                ),
            decreases sequences@.len() - i,
        {
            let raw = match grid_detect_strength_bits(engine, &sequences[i]) {
                Ok(v) => v,
                Err(message) => {
                    // Dead for this engine: detection cannot fail on a
                    // trained model; kept so a change would surface as
                    // the taxonomy's detection error, not silently.
                    return Err(DetectorError::new(ErrorKind::Detection, message));
                },
            };
            let strengths = normalize_strengths(&raw);
            let score = max_strength(&strengths);
            proof {
                lemma_score_of_in_unit_interval(strengths@);
            }
            scores.push(score);
            i += 1;
        }
        proof {
            assert(scores@ =~= self.expected_scores(sequences@));
        }
        Ok(scores)
    }

    /// Thresholds the scores of [`Detector::predict_proba`] elementwise:
    /// the prediction vector has the same length and order, and each entry
    /// holds exactly when the matching score reaches the effective
    /// threshold — the caller's, or one tenth when none is given. There is
    /// no independent scoring path: the scores are the ones the
    /// probability path produced, so the failure modes and the success
    /// condition are identical.
    pub fn predict(&self, sequences: &Vec<Vec<String>>, threshold: Option<u64>) -> (r: Result<
        Vec<bool>,
        DetectorError,
    >)
        ensures
            r is Ok <==> self.is_fitted() && sequences_valid(sequences@),
            !self.is_fitted() <==> (r matches Err(e) && e.kind == ErrorKind::NotFitted),
            (self.is_fitted() && !sequences_valid(sequences@)) <==> (r matches Err(e) && e.kind
                == ErrorKind::Validation),
            r matches Ok(preds) ==> preds@ == predictions_of(
                self.expected_scores(sequences@),
                effective_threshold(threshold),
            ),
    {
        let scores = match self.predict_proba(sequences) {
            Ok(v) => v,
            Err(e) => {
                return Err(e);
            },
        };
        let t = match threshold {
            Some(v) => v,
            None => DEFAULT_THRESHOLD_BITS,
        };
        Ok(apply_threshold(&scores, t))
    }

    /// Reads the diagnostic counters directly from the trained model:
    /// the returned record is exactly the engine's current diagnostics.
    /// Fails with a not-fitted error exactly while unfitted; the counters
    /// themselves are unsigned and hence non-negative.
    pub fn get_metrics(&self) -> (r: Result<Metrics, DetectorError>)
        ensures
            r is Ok <==> self.is_fitted(),
            r matches Ok(m) ==> m == metrics_of(self.engine()),
            r matches Err(e) ==> e.kind == ErrorKind::NotFitted,
    {
        match &self.model {
            Some(m) => Ok(grid_read_metrics(m)),
            None => Err(DetectorError::new(
                ErrorKind::NotFitted,
                "the detector has not been fitted; call fit before reading metrics".to_owned(),
            )),
        }
    }
}

} // verus!
