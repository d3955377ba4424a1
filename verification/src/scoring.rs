//! Score aggregation and thresholding.
//!
//! A score is carried as the raw bit pattern (`u64`) of a non-negative
//! finite IEEE-754 double. For such values the unsigned order of the bit
//! patterns coincides with the numeric order of the doubles, so `>=` on
//! the patterns is `>=` on the numbers; the boundary converts between the
//! two representations with `to_bits` / `from_bits` and never re-orders.
//!
//! Aggregation policy: a sequence with no detected anomalies scores the
//! pattern of positive zero (all bits clear); otherwise its score is the
//! maximum anomaly strength reported for it.

use vstd::prelude::*;

verus! {

/// Bit pattern of the default classification threshold, one tenth.
pub const DEFAULT_THRESHOLD_BITS: u64 = 0x3FB999999999999A;

/// A pattern with the sign bit clear encodes a non-negative double.
pub open spec fn non_negative_bits(bits: u64) -> bool {
    bits < 0x8000000000000000u64
}

/// Every entry encodes a non-negative double.
pub open spec fn all_non_negative(s: Seq<u64>) -> bool {
    forall|i: int| 0 <= i < s.len() ==> non_negative_bits(s[i])
}

/// A pattern no greater than that of one encodes a finite double in the
/// unit interval: every pattern of a NaN, of infinity or of a negative
/// double lies strictly above the pattern of one.
pub open spec fn unit_interval_bits(bits: u64) -> bool {
    bits <= 0x3FF0000000000000u64
}

/// Every entry encodes a double in the unit interval.
pub open spec fn all_unit_interval(s: Seq<u64>) -> bool {
    forall|i: int| 0 <= i < s.len() ==> unit_interval_bits(s[i])
}

/// The pattern of a strength as the engine reports it: a double in the
/// unit interval — or negative zero, which the engine can produce for a
/// window of fully expected symbols, where the sign of a zero surprise
/// is not pinned down.
pub open spec fn raw_strength_bits(bits: u64) -> bool {
    unit_interval_bits(bits) || bits == 0x8000000000000000u64
}

/// Every entry is a strength pattern as the engine reports it.
pub open spec fn all_raw_strengths(s: Seq<u64>) -> bool {
    forall|i: int| 0 <= i < s.len() ==> raw_strength_bits(s[i])
}

/// Collapses the sign of a zero: the pattern of negative zero becomes
/// that of positive zero; every other pattern is kept. Negative and
/// positive zero are numerically equal, but only the positive pattern
/// orders correctly under the unsigned comparison scores use.
pub open spec fn normalize_bits(bits: u64) -> u64 {
    if bits == 0x8000000000000000u64 {
        0u64
    } else {
        bits
    }
}

/// [`normalize_bits`], entry by entry.
pub open spec fn normalized(s: Seq<u64>) -> Seq<u64> {
    s.map_values(|b: u64| normalize_bits(b))
}

/// Applies [`normalize_bits`] to every reported strength, so that a zero
/// strength always carries the positive-zero pattern; raw engine
/// strengths thereby land in the unit interval.
pub fn normalize_strengths(strengths: &Vec<u64>) -> (r: Vec<u64>)
    ensures
        r@ == normalized(strengths@),
        r@.len() == strengths@.len(),
        all_raw_strengths(strengths@) ==> all_unit_interval(r@),
{
    let mut out: Vec<u64> = Vec::new();
    let mut i: usize = 0;
    while i < strengths.len()
        invariant
            i <= strengths@.len(),
            out@.len() == i,
            forall|j: int| 0 <= j < i ==> out@[j] == normalize_bits(#[trigger] strengths@[j]),
        decreases strengths@.len() - i,
    {
        let b = strengths[i];
        if b == 0x8000000000000000u64 {
            out.push(0u64);
        } else {
            out.push(b);
        }
        i += 1;
    }
    proof {
        assert(out@ =~= normalized(strengths@));
    }
    out
}

/// The aggregate score of one sequence's anomaly strengths: zero when no
/// anomaly was reported, otherwise the maximum reported strength.
pub open spec fn score_of(strengths: Seq<u64>) -> u64
    decreases strengths.len(),
{
    if strengths.len() == 0 {
        0u64
    } else {
        let rest = score_of(strengths.drop_last());
        if strengths.last() >= rest {
            strengths.last()
        } else {
            rest
        }
    }
}

/// An empty strength list scores exactly zero; a non-empty one scores a
/// value that is attained in the list and bounds every entry of it.
pub proof fn lemma_score_of_is_max(strengths: Seq<u64>)
    ensures
        strengths.len() == 0 ==> score_of(strengths) == 0,
        strengths.len() > 0 ==> exists|i: int|
            0 <= i < strengths.len() && score_of(strengths) == strengths[i],
        forall|i: int| 0 <= i < strengths.len() ==> strengths[i] <= score_of(strengths),
    decreases strengths.len(),
{
    if strengths.len() > 0 {
        lemma_score_of_is_max(strengths.drop_last());
        let rest = strengths.drop_last();
        assert forall|i: int| 0 <= i < strengths.len() implies strengths[i] <= score_of(
            strengths,
        ) by {
            if i < strengths.len() - 1 {
                assert(strengths[i] == rest[i]);
            }
        }
        if strengths.last() >= score_of(rest) {
            assert(score_of(strengths) == strengths[strengths.len() - 1]);
        } else {
            let j = choose|j: int| 0 <= j < rest.len() && score_of(rest) == rest[j];
            assert(score_of(strengths) == strengths[j]);
        }
    }
}

/// The aggregate score stays in the unit interval — and hence
/// non-negative — whenever every strength lies in it.
pub proof fn lemma_score_of_in_unit_interval(strengths: Seq<u64>)
    requires
        all_unit_interval(strengths),
    ensures
        unit_interval_bits(score_of(strengths)),
        non_negative_bits(score_of(strengths)),
{
    lemma_score_of_is_max(strengths);
}

/// Computes the aggregate score of one sequence's anomaly strengths.
pub fn max_strength(strengths: &Vec<u64>) -> (r: u64)
    ensures
        r == score_of(strengths@),
        strengths@.len() == 0 ==> r == 0,
{
    let mut best: u64 = 0;
    let mut i: usize = 0;
    while i < strengths.len()
        invariant
            i <= strengths@.len(),
            best == score_of(strengths@.take(i as int)),
        decreases strengths@.len() - i,
    {
        let s = strengths[i];
        proof {
            assert(strengths@.take(i + 1).drop_last() =~= strengths@.take(i as int));
            assert(strengths@.take(i + 1).last() == strengths@[i as int]);
        }
        if s > best {
            best = s;
        }
        i += 1;
    }
    proof {
        assert(strengths@.take(strengths@.len() as int) =~= strengths@);
    }
    best
}

/// The effective classification threshold: the caller's, or one tenth
/// when none was given.
pub open spec fn effective_threshold(threshold: Option<u64>) -> u64 {
    match threshold {
        Some(t) => t,
        None => DEFAULT_THRESHOLD_BITS,
    }
}

/// The boolean predictions derived from a score vector: entry by entry,
/// whether the score reaches the threshold.
pub open spec fn predictions_of(scores: Seq<u64>, threshold: u64) -> Seq<bool> {
    scores.map_values(|s: u64| s >= threshold)
}

/// Predictions are exactly the elementwise comparison of the score vector
/// against the threshold: same length, and each entry holds precisely when
/// the matching score reaches the threshold.
pub proof fn lemma_predictions_elementwise(scores: Seq<u64>, threshold: u64)
    ensures
        predictions_of(scores, threshold).len() == scores.len(),
        forall|i: int| 0 <= i < scores.len() ==> predictions_of(scores, threshold)[i] == (
        scores[i] >= threshold),
{
}

/// Omitting the threshold behaves identically to passing the default one:
/// the derived predictions coincide for every score vector.
pub proof fn lemma_default_threshold(scores: Seq<u64>)
    ensures
        effective_threshold(None) == effective_threshold(Some(DEFAULT_THRESHOLD_BITS)),
        predictions_of(scores, effective_threshold(None)) == predictions_of(
            scores,
            effective_threshold(Some(DEFAULT_THRESHOLD_BITS)),
        ),
{
}

/// Applies the threshold to a score vector, producing the boolean
/// prediction vector of identical length and order.
pub fn apply_threshold(scores: &Vec<u64>, threshold: u64) -> (r: Vec<bool>)
    ensures
        r@ == predictions_of(scores@, threshold),
        r@.len() == scores@.len(),
        forall|i: int| 0 <= i < scores@.len() ==> r@[i] == (scores@[i] >= threshold),
{
    let mut preds: Vec<bool> = Vec::new();
    let mut i: usize = 0;
    while i < scores.len()
        invariant
            i <= scores@.len(),
            preds@.len() == i,
            forall|j: int| 0 <= j < i ==> preds@[j] == (scores@[j] >= threshold),
        decreases scores@.len() - i,
    {
        preds.push(scores[i] >= threshold);
        i += 1;
    }
    proof {
        assert(preds@ =~= predictions_of(scores@, threshold));
    }
    preds
}

} // verus!
