//! Sequence ingestion: structural validation of the incoming collection.
//!
//! A submission is an ordered collection of sequences, each an ordered
//! collection of symbols (here: strings). The type already guarantees that
//! every element is itself a proper sequence, so the one structural rule
//! enforced at this layer is that the outer collection is non-empty.
//! Validation runs before any heavier computation, so malformed input
//! never reaches training or detection.

use vstd::prelude::*;

use crate::errors::{DetectorError, ErrorKind};

verus! {

/// Structural validity of a sequence collection: the outer collection
/// must hold at least one sequence.
pub open spec fn sequences_valid(seqs: Seq<Vec<String>>) -> bool {
    seqs.len() > 0
}

/// Checks the incoming collection, failing with a validation error
/// exactly when it is structurally invalid.
pub fn validate_sequences(seqs: &Vec<Vec<String>>) -> (r: Result<(), DetectorError>)
    ensures
        r is Ok <==> sequences_valid(seqs@),
        r matches Err(e) ==> e.kind == ErrorKind::Validation,
{
    if seqs.len() == 0 {
        Err(DetectorError::new(
            ErrorKind::Validation,
            "sequences must be a non-empty collection of sequences".to_owned(),
        ))
    } else {
        Ok(())
    }
}

} // verus!
