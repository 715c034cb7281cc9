//! What becomes of one artifact, and why.

use crate::text::{chars_of, string_of};
use vstd::prelude::*;

verus! {

broadcast use vstd::string::group_string_axioms;

/// Why an artifact was left alone.
#[derive(Clone, Copy, Debug, PartialEq, Eq, Structural)]
pub enum SkipReason {
    /// A valid file already stands at the destination.
    AlreadyPresent,
    /// The true name shows a resource pack, which is no mod.
    ResourcePack,
}

/// Why one attempt at one source failed. Either kind is answered by trying the
/// next source.
#[derive(Clone, Debug)]
pub enum MirrorError {
    /// The connection or the server failed; the text says how.
    Transport(String),
    /// The content arrived, and its digest is not the expected one.
    Integrity,
}

/// The mathematical value of a [`MirrorError`].
pub enum MirrorErrorModel {
    Transport(Seq<char>),
    Integrity,
}

impl View for MirrorError {
    type V = MirrorErrorModel;

    open spec fn view(&self) -> MirrorErrorModel {
        match self {
            MirrorError::Transport(detail) => MirrorErrorModel::Transport(detail@),
            MirrorError::Integrity => MirrorErrorModel::Integrity,
        }
    }
}

/// Why an artifact could not be fetched.
#[derive(Clone, Debug)]
pub enum FailureCause {
    /// The artifact names no source at all.
    NoSources,
    /// Every source was tried; the error is that of the last one.
    Exhausted(MirrorError),
    /// The verified content could not be moved into place.
    Storage(String),
}

/// The mathematical value of a [`FailureCause`].
pub enum CauseModel {
    NoSources,
    Exhausted(MirrorErrorModel),
    Storage(Seq<char>),
}

impl View for FailureCause {
    type V = CauseModel;

    open spec fn view(&self) -> CauseModel {
        match self {
            FailureCause::NoSources => CauseModel::NoSources,
            FailureCause::Exhausted(e) => CauseModel::Exhausted(e@),
            FailureCause::Storage(detail) => CauseModel::Storage(detail@),
        }
    }
}

/// What became of one artifact. Each artifact gets exactly one.
#[derive(Clone, Debug)]
pub enum TransferOutcome {
    Skipped(SkipReason),
    Completed { filename: String, bytes: u64 },
    Failed(FailureCause),
}

/// The mathematical value of a [`TransferOutcome`].
pub enum OutcomeModel {
    Skipped(SkipReason),
    Completed { filename: Seq<char>, bytes: u64 },
    Failed(CauseModel),
}

impl View for TransferOutcome {
    type V = OutcomeModel;

    open spec fn view(&self) -> OutcomeModel {
        match self {
            TransferOutcome::Skipped(reason) => OutcomeModel::Skipped(*reason),
            TransferOutcome::Completed { filename, bytes } => OutcomeModel::Completed {
                filename: filename@,
                bytes: *bytes,
            },
            TransferOutcome::Failed(cause) => OutcomeModel::Failed(cause@),
        }
    }
}

impl MirrorError {
    /// A copy with the same value.
    pub fn duplicate(&self) -> (r: MirrorError)
        ensures
            r@ == self@,
    {
        match self {
            MirrorError::Transport(detail) => MirrorError::Transport(detail.clone()),
            MirrorError::Integrity => MirrorError::Integrity,
        }
    }
}

impl FailureCause {
    /// A copy with the same value.
    pub fn duplicate(&self) -> (r: FailureCause)
        ensures
            r@ == self@,
    {
        match self {
            FailureCause::NoSources => FailureCause::NoSources,
            FailureCause::Exhausted(e) => FailureCause::Exhausted(e.duplicate()),
            FailureCause::Storage(detail) => FailureCause::Storage(detail.clone()),
        }
    }
}

impl TransferOutcome {
    /// A copy with the same value.
    pub fn duplicate(&self) -> (r: TransferOutcome)
        ensures
            r@ == self@,
    {
        match self {
            TransferOutcome::Skipped(reason) => TransferOutcome::Skipped(*reason),
            TransferOutcome::Completed { filename, bytes } => TransferOutcome::Completed {
                filename: filename.clone(),
                bytes: *bytes,
            },
            TransferOutcome::Failed(cause) => TransferOutcome::Failed(cause.duplicate()),
        }
    }

    /// Whether the artifact could not be fetched.
    pub fn is_failed(&self) -> (r: bool)
        ensures
            r == (self@ is Failed),
    {
        match self {
            TransferOutcome::Failed(_) => true,
            _ => false,
        }
    }
}

/// What is said of an artifact that could not be fetched: the text of the
/// last transport error or of the storage error where there is one.
pub open spec fn failure_sentence(cause: CauseModel) -> Seq<char> {
    match cause {
        CauseModel::NoSources => "All nodes failed to download"@,
        CauseModel::Exhausted(MirrorErrorModel::Transport(detail)) => detail,
        CauseModel::Exhausted(MirrorErrorModel::Integrity) => "Hash mismatch"@,
        CauseModel::Storage(detail) => detail,
    }
}

/// The message for an artifact that could not be fetched: see
/// [`failure_sentence`].
pub fn describe_failure(cause: &FailureCause) -> (r: String)
    ensures
        r@ == failure_sentence(cause@),
{
    match cause {
        FailureCause::NoSources => string_of(&chars_of("All nodes failed to download")),
        FailureCause::Exhausted(MirrorError::Transport(detail)) => detail.clone(),
        FailureCause::Exhausted(MirrorError::Integrity) => string_of(&chars_of("Hash mismatch")),
        FailureCause::Storage(detail) => detail.clone(),
    }
}

} // verus!
