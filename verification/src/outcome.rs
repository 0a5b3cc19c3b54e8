//! Per-file conversion outcomes and the aggregate batch result.
//!
//! A single conversion either succeeds with the path it wrote, or fails
//! with the path it read and the stage that failed. A batch run collects
//! one outcome per scanned file; failures are isolated, never fatal.

use vstd::prelude::*;

verus! {

/// The stage of a single conversion that failed.
#[derive(Clone, Copy, Debug, PartialEq, Eq, PartialOrd, Ord, Structural)]
pub enum ErrorKind {
    /// The source bytes could not be decoded as an image.
    Decode,
    /// The decoded image could not be encoded as WebP.
    Encode,
    /// The encoded bytes could not be written to the destination.
    Write,
}

/// The outcome of converting one source file.
#[derive(Debug, PartialEq, Eq)]
pub enum ConversionOutcome {
    /// The file was converted and written to `output_path`.
    Success { output_path: String },
    /// Converting `source_path` failed at stage `kind`; the batch goes on.
    Failure { source_path: String, kind: ErrorKind },
}

/// The mathematical value of a `ConversionOutcome`.
#[verifier::ext_equal]
pub enum OutcomeView {
    Success { output_path: Seq<char> },
    Failure { source_path: Seq<char>, kind: ErrorKind },
}

impl View for ConversionOutcome {
    type V = OutcomeView;

    open spec fn view(&self) -> OutcomeView {
        match self {
            ConversionOutcome::Success { output_path } => (OutcomeView::Success {
                output_path: output_path@,
            }),
            ConversionOutcome::Failure { source_path, kind } => (OutcomeView::Failure {
                source_path: source_path@,
                kind: *kind,
            }),
        }
    }
}

/// One failed file of a batch: its source path and the failing stage.
#[derive(Debug, PartialEq, Eq)]
pub struct FailedFile {
    pub source_path: String,
    pub kind: ErrorKind,
}

/// The mathematical value of a `FailedFile`.
#[verifier::ext_equal]
pub struct FailedFileView {
    pub source_path: Seq<char>,
    pub kind: ErrorKind,
}

impl View for FailedFile {
    type V = FailedFileView;

    open spec fn view(&self) -> FailedFileView {
        FailedFileView { source_path: self.source_path@, kind: self.kind }
    }
}

/// The result of a whole batch run: how many files were scanned, how many
/// converted, and which failed at which stage.
#[derive(Debug, PartialEq, Eq)]
pub struct BatchResult {
    pub total_scanned: usize,
    pub succeeded: usize,
    pub failed: Vec<FailedFile>,
}

/// The outcome of a failed conversion of `source_path` at stage `kind`.
pub fn failed_outcome(source_path: &str, kind: ErrorKind) -> (r: ConversionOutcome)
    ensures
        r@ == (OutcomeView::Failure { source_path: source_path@, kind }),
{
    ConversionOutcome::Failure { source_path: source_path.to_owned(), kind }
}

/// The outcome of a conversion whose decode succeeded: encoding was tried,
/// and writing only after a successful encode. `write_ok` is only consulted
/// when `encode_ok` holds.
pub fn outcome_after_encode(
    source_path: &str,
    output_path: String,
    encode_ok: bool,
    write_ok: bool,
) -> (r: ConversionOutcome)
    ensures
        !encode_ok ==> r@ == (OutcomeView::Failure {
            source_path: source_path@,
            kind: ErrorKind::Encode,
        }),
        encode_ok && !write_ok ==> r@ == (OutcomeView::Failure {
            source_path: source_path@,
            kind: ErrorKind::Write,
        }),
        encode_ok && write_ok ==> r@ == (OutcomeView::Success { output_path: output_path@ }),
{
    if !encode_ok {
        ConversionOutcome::Failure { source_path: source_path.to_owned(), kind: ErrorKind::Encode }
    } else if !write_ok {
        ConversionOutcome::Failure { source_path: source_path.to_owned(), kind: ErrorKind::Write }
    } else {
        ConversionOutcome::Success { output_path }
    }
}

} // verus!
