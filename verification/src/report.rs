use vstd::prelude::*;

verus! {

// Loudness values are handled here as order-preserving integer keys: the
// caller encodes each finite loudness value (and the threshold) through one
// monotone embedding, so that comparing two keys compares the two loudness
// values. The reporter's whole decision is a strict order comparison, so it
// is insensitive to which monotone embedding the caller picked.

/// What the reporter decides for one analyzed file.
#[derive(Clone, Copy, Debug, PartialEq, Eq, Structural)]
pub struct ReportDecision {
    /// Emit a diagnostic line (path and measured loudness) on the
    /// diagnostic stream.
    pub diagnostic: bool,
    /// Emit the file's path on the primary result stream.
    pub emit_path: bool,
}

/// The reporter's decision: a diagnostic line is owed exactly in verbose
/// mode, and the path is owed exactly when the loudness lies strictly below
/// the threshold.
pub open spec fn report_spec(loudness_key: int, threshold_key: int, verbose: bool) -> ReportDecision {
    ReportDecision {
        diagnostic: verbose,
        emit_path: loudness_key < threshold_key,
    }
}

/// Decide what to emit for one file whose measured loudness is
/// `loudness_key`, against the configured `threshold_key`.
pub fn report_decision(loudness_key: i64, threshold_key: i64, verbose: bool) -> (r: ReportDecision)
    ensures
        r == report_spec(loudness_key as int, threshold_key as int, verbose),
{
    ReportDecision {
        diagnostic: verbose,
        emit_path: loudness_key < threshold_key,
    }
}

/// A file whose measured loudness equals the threshold exactly is not
/// reported: only a strictly lower loudness is.
pub proof fn lemma_equal_loudness_not_reported(key: int, verbose: bool)
    ensures
        !report_spec(key, key, verbose).emit_path,
{
}

} // verus!
