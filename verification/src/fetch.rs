//! The life of one artifact, as a state machine.
//!
//! The machine performs no input or output itself. At every moment it has one
//! pending [`FetchAction`]; whoever drives it carries the action out and hands
//! back the [`FetchEvent`] that tells how it went. The machine then moves on:
//! it checks for an existing file, looks up metadata where the source is an
//! endpoint, tries the sources in order with a growing delay between them,
//! lets content through only if its digest is acceptable, and ends in exactly
//! one [`TransferOutcome`].
//!
//! The model a contract speaks of is [`FetcherModel`] with [`init`],
//! [`pending`] and [`transition`].

use crate::integrity::{
    accepts, algorithm_of, content_accepted, needs_verification, parse_algorithm,
    verification_required, DigestAlgorithm,
};
use crate::mirror::{
    is_api_endpoint, is_metadata_endpoint, metadata_location, metadata_url, synthesize_mirror,
    synthesized_mirror,
};
use crate::models::{opt_view, views, ArtifactModel, MetadataModel, ModInfo, ModMetadata};
use crate::outcome::{
    CauseModel, FailureCause, MirrorError, MirrorErrorModel, OutcomeModel, SkipReason,
    TransferOutcome,
};
use crate::resolve::{resolve, resolved_name};
use crate::text::{str_concat, str_ends_with, str_starts_with};
use crate::utils::{sanitize_filename, sanitized};
use vstd::prelude::*;

verus! {

broadcast use vstd::string::group_string_axioms;

/// Where the machine stands.
#[derive(Clone, Copy, Debug, PartialEq, Eq, Structural)]
pub enum Phase {
    /// Asking whether a valid file already stands under the placeholder name.
    CheckExisting,
    /// Asking the endpoint for the file's metadata.
    Lookup,
    /// Asking again for an existing file, now under the true name.
    Recheck,
    /// Waiting before the next source is tried.
    Waiting,
    /// Streaming from the current source into the temporary file.
    Downloading,
    /// Moving the temporary file into place.
    Finalizing,
    /// Reading the manifest embedded in the finished artifact.
    ReadingMetadata,
    /// Giving the finished artifact a descriptive name.
    Renaming,
    /// Done: the outcome is known.
    Settled,
}

/// How a metadata lookup went.
#[derive(Clone, Debug)]
pub enum LookupResult {
    /// No response could be had.
    Unreachable,
    /// The endpoint answered with a status other than success.
    Rejected,
    /// The endpoint answered, and the answer could not be read.
    Malformed,
    /// The endpoint gave the file's name.
    Named(String),
}

/// The mathematical value of a [`LookupResult`].
pub enum LookupModel {
    Unreachable,
    Rejected,
    Malformed,
    Named(Seq<char>),
}

impl View for LookupResult {
    type V = LookupModel;

    open spec fn view(&self) -> LookupModel {
        match self {
            LookupResult::Unreachable => LookupModel::Unreachable,
            LookupResult::Rejected => LookupModel::Rejected,
            LookupResult::Malformed => LookupModel::Malformed,
            LookupResult::Named(name) => LookupModel::Named(name@),
        }
    }
}

/// A transfer that ran to its end.
#[derive(Clone, Debug)]
pub struct Transfer {
    /// The location that finally delivered, after redirects.
    pub final_url: String,
    /// The `Content-Disposition` header of the response, if it had one.
    pub disposition: Option<String>,
    /// The digest of what was written, computed while streaming under the
    /// algorithm the action named.
    pub digest: String,
    /// How many bytes were written.
    pub bytes: u64,
}

/// The mathematical value of a [`Transfer`].
pub struct TransferModel {
    pub final_url: Seq<char>,
    pub disposition: Option<Seq<char>>,
    pub digest: Seq<char>,
    pub bytes: u64,
}

impl View for Transfer {
    type V = TransferModel;

    open spec fn view(&self) -> TransferModel {
        TransferModel {
            final_url: self.final_url@,
            disposition: opt_view(self.disposition),
            digest: self.digest@,
            bytes: self.bytes,
        }
    }
}

/// What the driver reports back after carrying out the pending action.
#[derive(Clone, Debug)]
pub enum FetchEvent {
    /// Answer to `Probe`: whether a file stands there and, where a digest was
    /// asked for, the digest of its content.
    Existing { present: bool, digest: String },
    /// Answer to `Lookup`.
    Lookup(LookupResult),
    /// Answer to `Backoff`: the delay has passed.
    Waited,
    /// Answer to `Download`: the content is in the temporary file.
    Transferred(Transfer),
    /// Answer to `Download`: the transfer failed; the text says how.
    TransferFailed(String),
    /// Answer to `Finalize`: the file is in place.
    Finalized,
    /// Answer to `Finalize`: the file could not be moved; the text says how.
    FinalizeFailed(String),
    /// Answer to `ReadMetadata`: what the artifact says about itself, if it
    /// could be opened.
    Embedded(Option<ModMetadata>),
    /// Answer to `Rename`: whether the file now has the new name.
    Renamed(bool),
}

/// The view of metadata that may be missing.
pub open spec fn opt_metadata(m: Option<ModMetadata>) -> Option<MetadataModel> {
    match m {
        Some(meta) => Some(meta@),
        None => None,
    }
}

/// The mathematical value of a [`FetchEvent`].
pub enum EventModel {
    Existing { present: bool, digest: Seq<char> },
    Lookup(LookupModel),
    Waited,
    Transferred(TransferModel),
    TransferFailed(Seq<char>),
    Finalized,
    FinalizeFailed(Seq<char>),
    Embedded(Option<MetadataModel>),
    Renamed(bool),
}

impl View for FetchEvent {
    type V = EventModel;

    open spec fn view(&self) -> EventModel {
        match self {
            FetchEvent::Existing { present, digest } => EventModel::Existing {
                present: *present,
                digest: digest@,
            },
            FetchEvent::Lookup(result) => EventModel::Lookup(result@),
            FetchEvent::Waited => EventModel::Waited,
            FetchEvent::Transferred(t) => EventModel::Transferred(t@),
            FetchEvent::TransferFailed(detail) => EventModel::TransferFailed(detail@),
            FetchEvent::Finalized => EventModel::Finalized,
            FetchEvent::FinalizeFailed(detail) => EventModel::FinalizeFailed(detail@),
            FetchEvent::Embedded(meta) => EventModel::Embedded(opt_metadata(*meta)),
            FetchEvent::Renamed(ok) => EventModel::Renamed(*ok),
        }
    }
}

/// What the machine asks of its driver. File names are relative to the
/// destination directory.
#[derive(Clone, Debug)]
pub enum FetchAction {
    /// Tell whether a file stands under `filename`; unless `algorithm` is
    /// `Disabled`, compute its digest.
    Probe { filename: String, algorithm: DigestAlgorithm },
    /// Ask `url` for the file's metadata.
    Lookup { url: String },
    /// Remove the temporary file, then wait `millis` milliseconds.
    Backoff { millis: u64, temp: String },
    /// Stream `url` into the temporary file `temp`, computing the digest under
    /// `algorithm` on the way.
    Download { url: String, temp: String, algorithm: DigestAlgorithm },
    /// Remove whatever stands under `filename` and move `temp` there.
    Finalize { temp: String, filename: String },
    /// Open the artifact under `filename` and read its embedded manifest.
    ReadMetadata { filename: String },
    /// Move the artifact from one name to another.
    Rename { from: String, to: String },
    /// Nothing more to do but, where `discard` names it, to remove the
    /// temporary file. `outcome` is what became of the artifact.
    Settle { outcome: TransferOutcome, discard: Option<String> },
}

/// The mathematical value of a [`FetchAction`].
pub enum ActionModel {
    Probe { filename: Seq<char>, algorithm: DigestAlgorithm },
    Lookup { url: Seq<char> },
    Backoff { millis: u64, temp: Seq<char> },
    Download { url: Seq<char>, temp: Seq<char>, algorithm: DigestAlgorithm },
    Finalize { temp: Seq<char>, filename: Seq<char> },
    ReadMetadata { filename: Seq<char> },
    Rename { from: Seq<char>, to: Seq<char> },
    Settle { outcome: OutcomeModel, discard: Option<Seq<char>> },
}

impl View for FetchAction {
    type V = ActionModel;

    open spec fn view(&self) -> ActionModel {
        match self {
            FetchAction::Probe { filename, algorithm } => ActionModel::Probe {
                filename: filename@,
                algorithm: *algorithm,
            },
            FetchAction::Lookup { url } => ActionModel::Lookup { url: url@ },
            FetchAction::Backoff { millis, temp } => ActionModel::Backoff {
                millis: *millis,
                temp: temp@,
            },
            FetchAction::Download { url, temp, algorithm } => ActionModel::Download {
                url: url@,
                temp: temp@,
                algorithm: *algorithm,
            },
            FetchAction::Finalize { temp, filename } => ActionModel::Finalize {
                temp: temp@,
                filename: filename@,
            },
            FetchAction::ReadMetadata { filename } => ActionModel::ReadMetadata {
                filename: filename@,
            },
            FetchAction::Rename { from, to } => ActionModel::Rename { from: from@, to: to@ },
            FetchAction::Settle { outcome, discard } => ActionModel::Settle {
                outcome: outcome@,
                discard: opt_view(*discard),
            },
        }
    }
}

/// The state of the machine as a mathematical value.
pub struct FetcherModel {
    /// The artifact's name for people.
    pub name: Seq<char>,
    /// The digest the content must have.
    pub expected: Seq<char>,
    /// The algorithm of that digest.
    pub algorithm: DigestAlgorithm,
    /// Whether the policy skips verification.
    pub skip_hash: bool,
    pub phase: Phase,
    /// The file name the artifact is to have, as far as it is known.
    pub target: Seq<char>,
    /// Whether `target` is the true name rather than the placeholder.
    pub resolved: bool,
    /// The sources to try, in order.
    pub sources: Seq<Seq<char>>,
    /// The index of the source being tried.
    pub attempt: nat,
    /// The name of the temporary file.
    pub temp: Seq<char>,
    /// Why the last failed attempt failed.
    pub last_error: Option<MirrorErrorModel>,
    /// The digest of the content that was let through.
    pub digest: Seq<char>,
    /// The size of that content.
    pub bytes: u64,
    /// The descriptive name the artifact is being given.
    pub descriptive: Seq<char>,
    /// What became of the artifact, once that is known.
    pub outcome: Option<OutcomeModel>,
    /// Whether the temporary file is to be removed at the end.
    pub discard: bool,
}

/// The name of the temporary file for a target.
pub open spec fn temp_name(target: Seq<char>) -> Seq<char> {
    target + ".part"@
}

/// Whether a file name shows a resource pack.
pub open spec fn is_resource_pack(name: Seq<char>) -> bool {
    ".zip"@.is_suffix_of(name)
}

/// Whether a file name is one that was made up from identifiers and says
/// little.
pub open spec fn is_synthesized_name(name: Seq<char>) -> bool {
    "CF-"@.is_prefix_of(name)
}

/// The delay before the source with index `attempt` is tried: half a second
/// for each source tried before it, as far as the number type reaches.
pub open spec fn backoff_millis(attempt: nat) -> u64 {
    if 500 * attempt <= u64::MAX {
        (500 * attempt) as u64
    } else {
        u64::MAX
    }
}

/// The descriptive name for an artifact that says who it is: name and
/// version, sanitized as a whole.
pub open spec fn descriptive_name(meta: MetadataModel, name: Seq<char>) -> Seq<char> {
    sanitized(meta.display_name(name) + "-"@ + meta.display_version() + ".jar"@)
}

impl FetcherModel {
    /// Whether the state is one the machine can be in.
    pub open spec fn wf(self) -> bool {
        &&& (self.phase == Phase::Waiting || self.phase == Phase::Downloading) ==> self.attempt
            < self.sources.len()
        &&& self.phase == Phase::Lookup ==> self.sources.len() > 0
        &&& self.phase == Phase::Settled <==> self.outcome is Some
    }

    /// Whether content has to be verified for this artifact.
    pub open spec fn verifying(self) -> bool {
        verification_required(self.skip_hash, self.expected, self.algorithm)
    }

    /// The algorithm under which the driver is asked to compute digests.
    pub open spec fn wanted(self) -> DigestAlgorithm {
        if self.verifying() {
            self.algorithm
        } else {
            DigestAlgorithm::Disabled
        }
    }

    /// Whether content with this digest may be taken as the artifact.
    pub open spec fn accepts(self, digest: Seq<char>) -> bool {
        content_accepted(self.skip_hash, self.expected, self.algorithm, digest)
    }

    /// The state once the outcome is known.
    pub open spec fn settle(self, outcome: OutcomeModel, discard: bool) -> FetcherModel {
        FetcherModel { phase: Phase::Settled, outcome: Some(outcome), discard, ..self }
    }

    /// The state when the sources begin to be tried.
    pub open spec fn begin(self) -> FetcherModel {
        let named = FetcherModel { temp: temp_name(self.target), ..self };
        if self.sources.len() == 0 {
            named.settle(OutcomeModel::Failed(CauseModel::NoSources), true)
        } else {
            FetcherModel { phase: Phase::Downloading, attempt: 0, ..named }
        }
    }

    /// The state after the current source failed with `error`.
    pub open spec fn fallback(self, error: MirrorErrorModel) -> FetcherModel {
        let failed = FetcherModel { last_error: Some(error), ..self };
        if self.attempt + 1 < self.sources.len() {
            FetcherModel { phase: Phase::Waiting, attempt: self.attempt + 1, ..failed }
        } else {
            failed.settle(OutcomeModel::Failed(CauseModel::Exhausted(error)), true)
        }
    }

    /// The state after a probe was answered.
    pub open spec fn after_probe(self, present: bool, digest: Seq<char>) -> FetcherModel {
        if present && self.accepts(digest) {
            self.settle(OutcomeModel::Skipped(SkipReason::AlreadyPresent), false)
        } else if self.phase == Phase::CheckExisting && self.sources.len() > 0
            && is_metadata_endpoint(self.sources[0]) {
            FetcherModel { phase: Phase::Lookup, ..self }
        } else {
            self.begin()
        }
    }

    /// The state after the metadata lookup was answered. A lookup that gives
    /// the file's name settles it; any other answer counts as a failed lookup,
    /// and the fallback mirror built from the endpoint's location, where one
    /// can be built, goes ahead of the sources.
    pub open spec fn after_lookup(self, result: LookupModel) -> FetcherModel {
        match result {
            LookupModel::Named(name) => {
                let named = FetcherModel { target: sanitized(name), resolved: true, ..self };
                if is_resource_pack(named.target) {
                    named.settle(OutcomeModel::Skipped(SkipReason::ResourcePack), false)
                } else {
                    FetcherModel { phase: Phase::Recheck, ..named }
                }
            },
            _ => match synthesized_mirror(self.sources[0]) {
                Some(mirror) => FetcherModel {
                    sources: seq![mirror] + self.sources,
                    ..self
                }.begin(),
                None => self.begin(),
            },
        }
    }

    /// The state after a transfer ran to its end.
    pub open spec fn after_transfer(self, t: TransferModel) -> FetcherModel {
        let named = if self.resolved {
            self
        } else {
            match resolved_name(t.disposition, t.final_url) {
                Some(name) => FetcherModel { target: name, resolved: true, ..self },
                None => self,
            }
        };
        if is_resource_pack(named.target) {
            named.settle(OutcomeModel::Skipped(SkipReason::ResourcePack), true)
        } else if self.accepts(t.digest) {
            FetcherModel { phase: Phase::Finalizing, digest: t.digest, bytes: t.bytes, ..named }
        } else {
            named.fallback(MirrorErrorModel::Integrity)
        }
    }

    /// The outcome of an artifact that stands in place under `filename`.
    pub open spec fn completed(self, filename: Seq<char>) -> FetcherModel {
        self.settle(OutcomeModel::Completed { filename, bytes: self.bytes }, false)
    }

    /// The state after the file was moved into place.
    pub open spec fn after_finalize(self) -> FetcherModel {
        if !self.resolved && is_synthesized_name(self.target) {
            FetcherModel { phase: Phase::ReadingMetadata, ..self }
        } else {
            self.completed(self.target)
        }
    }

    /// The state after the embedded manifest was read, or could not be.
    pub open spec fn after_metadata(self, meta: Option<MetadataModel>) -> FetcherModel {
        match meta {
            Some(m) => FetcherModel {
                phase: Phase::Renaming,
                descriptive: descriptive_name(m, self.name),
                ..self
            },
            None => self.completed(self.target),
        }
    }
}

/// The state in which the machine starts on an artifact.
pub open spec fn init(artifact: ArtifactModel, skip_hash: bool) -> FetcherModel {
    FetcherModel {
        name: artifact.name,
        expected: artifact.hash,
        algorithm: algorithm_of(artifact.hash_algo),
        skip_hash,
        phase: Phase::CheckExisting,
        target: artifact.file_name,
        resolved: false,
        sources: artifact.sources,
        attempt: 0,
        temp: Seq::<char>::empty(),
        last_error: None,
        digest: Seq::<char>::empty(),
        bytes: 0,
        descriptive: Seq::<char>::empty(),
        outcome: None,
        discard: false,
    }
}

/// What the machine asks for in state `s`.
pub open spec fn pending(s: FetcherModel) -> ActionModel {
    match s.phase {
        Phase::CheckExisting | Phase::Recheck => ActionModel::Probe {
            filename: s.target,
            algorithm: s.wanted(),
        },
        Phase::Lookup => ActionModel::Lookup { url: metadata_location(s.sources[0]) },
        Phase::Waiting => ActionModel::Backoff { millis: backoff_millis(s.attempt), temp: s.temp },
        Phase::Downloading => ActionModel::Download {
            url: s.sources[s.attempt as int],
            temp: s.temp,
            algorithm: s.wanted(),
        },
        Phase::Finalizing => ActionModel::Finalize { temp: s.temp, filename: s.target },
        Phase::ReadingMetadata => ActionModel::ReadMetadata { filename: s.target },
        Phase::Renaming => ActionModel::Rename { from: s.target, to: s.descriptive },
        Phase::Settled => ActionModel::Settle {
            outcome: s.outcome->0,
            discard: if s.discard {
                Some(s.temp)
            } else {
                None
            },
        },
    }
}

/// The state after event `e` in state `s`. An event that does not answer the
/// pending action changes nothing.
pub open spec fn transition(s: FetcherModel, e: EventModel) -> FetcherModel {
    match (s.phase, e) {
        (Phase::CheckExisting, EventModel::Existing { present, digest }) => s.after_probe(
            present,
            digest,
        ),
        (Phase::Recheck, EventModel::Existing { present, digest }) => s.after_probe(
            present,
            digest,
        ),
        (Phase::Lookup, EventModel::Lookup(result)) => s.after_lookup(result),
        (Phase::Waiting, EventModel::Waited) => FetcherModel { phase: Phase::Downloading, ..s },
        (Phase::Downloading, EventModel::Transferred(t)) => s.after_transfer(t),
        (Phase::Downloading, EventModel::TransferFailed(detail)) => s.fallback(
            MirrorErrorModel::Transport(detail),
        ),
        (Phase::Finalizing, EventModel::Finalized) => s.after_finalize(),
        (Phase::Finalizing, EventModel::FinalizeFailed(detail)) => s.settle(
            OutcomeModel::Failed(CauseModel::Storage(detail)),
            true,
        ),
        (Phase::ReadingMetadata, EventModel::Embedded(meta)) => s.after_metadata(meta),
        (Phase::Renaming, EventModel::Renamed(ok)) => s.completed(
            if ok {
                s.descriptive
            } else {
                s.target
            },
        ),
        _ => s,
    }
}

/// The descriptive file name for an artifact, from what it says about itself:
/// see [`descriptive_name`].
pub fn descriptive_filename(meta: &ModMetadata, mod_name: &str) -> (r: String)
    ensures
        r@ == descriptive_name(meta@, mod_name@),
{
    let display = meta.get_display_name(mod_name);
    let version = meta.get_version();
    let a = str_concat(display.as_str(), "-");
    let b = str_concat(a.as_str(), version.as_str());
    let c = str_concat(b.as_str(), ".jar");
    sanitize_filename(c.as_str())
}

/// Copies a list of strings.
pub fn copy_strings(list: &Vec<String>) -> (r: Vec<String>)
    ensures
        views(r@) == views(list@),
{
    let mut r: Vec<String> = Vec::new();
    let mut i: usize = 0;
    while i < list.len()
        invariant
            i <= list.len(),
            views(r@) == views(list@.take(i as int)),
        decreases list.len() - i,
    {
        r.push(list[i].clone());
        assert(views(list@.take(i + 1)) =~= views(list@.take(i as int)).push(list@[i as int]@));
        assert(views(r@) =~= views(list@.take(i + 1)));
        i += 1;
    }
    assert(list@.take(list@.len() as int) =~= list@);
    r
}

/// The machine for one artifact.
pub struct Fetcher {
    name: String,
    expected: String,
    algorithm: DigestAlgorithm,
    skip_hash: bool,
    phase: Phase,
    target: String,
    resolved: bool,
    sources: Vec<String>,
    attempt: usize,
    temp: String,
    last_error: Option<MirrorError>,
    digest: String,
    bytes: u64,
    descriptive: String,
    outcome: Option<TransferOutcome>,
    discard: bool,
}

/// The view of an error that may be missing.
pub open spec fn opt_error(e: Option<MirrorError>) -> Option<MirrorErrorModel> {
    match e {
        Some(err) => Some(err@),
        None => None,
    }
}

/// The view of an outcome that may be missing.
pub open spec fn opt_outcome(o: Option<TransferOutcome>) -> Option<OutcomeModel> {
    match o {
        Some(outcome) => Some(outcome@),
        None => None,
    }
}

impl View for Fetcher {
    type V = FetcherModel;

    closed spec fn view(&self) -> FetcherModel {
        FetcherModel {
            name: self.name@,
            expected: self.expected@,
            algorithm: self.algorithm,
            skip_hash: self.skip_hash,
            phase: self.phase,
            target: self.target@,
            resolved: self.resolved,
            sources: views(self.sources@),
            attempt: self.attempt as nat,
            temp: self.temp@,
            last_error: opt_error(self.last_error),
            digest: self.digest@,
            bytes: self.bytes,
            descriptive: self.descriptive@,
            outcome: opt_outcome(self.outcome),
            discard: self.discard,
        }
    }
}

impl Fetcher {
    #[verifier::type_invariant]
    spec fn inv(self) -> bool {
        self@.wf()
    }

    /// Starts on an artifact under the given policy.
    pub fn new(artifact: &ModInfo, skip_hash: bool) -> (r: Fetcher)
        ensures
            r@ == init(artifact@, skip_hash),
            r@.wf(),
    {
        Fetcher {
            name: artifact.name.clone(),
            expected: artifact.hash.clone(),
            algorithm: parse_algorithm(artifact.hash_algo.as_str()),
            skip_hash,
            phase: Phase::CheckExisting,
            target: artifact.file_name.clone(),
            resolved: false,
            sources: copy_strings(&artifact.download_urls),
            attempt: 0,
            temp: String::new(),
            last_error: None,
            digest: String::new(),
            bytes: 0,
            descriptive: String::new(),
            outcome: None,
            discard: false,
        }
    }

    /// Whether the outcome is known.
    pub fn is_settled(&self) -> (r: bool)
        ensures
            r == (self@.phase == Phase::Settled),
            r == (self@.outcome is Some),
            self@.wf(),
    {
        proof {
            use_type_invariant(self);
        }
        self.phase == Phase::Settled
    }

    /// What became of the artifact, once that is known.
    pub fn outcome(&self) -> (r: Option<TransferOutcome>)
        ensures
            opt_outcome(r) == self@.outcome,
    {
        match &self.outcome {
            Some(o) => Some(o.duplicate()),
            None => None,
        }
    }

    fn wanted(&self) -> (r: DigestAlgorithm)
        ensures
            r == self@.wanted(),
    {
        if needs_verification(self.skip_hash, self.expected.as_str(), self.algorithm) {
            self.algorithm
        } else {
            DigestAlgorithm::Disabled
        }
    }

    /// The action the machine waits for.
    pub fn pending(&self) -> (r: FetchAction)
        ensures
            r@ == pending(self@),
    {
        proof {
            use_type_invariant(self);
        }
        match self.phase {
            Phase::CheckExisting | Phase::Recheck => FetchAction::Probe {
                filename: self.target.clone(),
                algorithm: self.wanted(),
            },
            Phase::Lookup => FetchAction::Lookup { url: metadata_url(self.sources[0].as_str()) },
            Phase::Waiting => {
                let millis: u64 = if (self.attempt as u64) <= u64::MAX / 500 {
                    500 * (self.attempt as u64)
                } else {
                    u64::MAX
                };
                FetchAction::Backoff { millis, temp: self.temp.clone() }
            },
            Phase::Downloading => FetchAction::Download {
                url: self.sources[self.attempt].clone(),
                temp: self.temp.clone(),
                algorithm: self.wanted(),
            },
            Phase::Finalizing => FetchAction::Finalize {
                temp: self.temp.clone(),
                filename: self.target.clone(),
            },
            Phase::ReadingMetadata => FetchAction::ReadMetadata { filename: self.target.clone() },
            Phase::Renaming => FetchAction::Rename {
                from: self.target.clone(),
                to: self.descriptive.clone(),
            },
            Phase::Settled => {
                let outcome = match &self.outcome {
                    Some(o) => o.duplicate(),
                    None => TransferOutcome::Failed(FailureCause::NoSources),
                };
                let discard = if self.discard {
                    Some(self.temp.clone())
                } else {
                    None
                };
                FetchAction::Settle { outcome, discard }
            },
        }
    }

    fn settle(self, outcome: TransferOutcome, discard: bool) -> (r: Fetcher)
        ensures
            r@ == self@.settle(outcome@, discard),
    {
        Fetcher { phase: Phase::Settled, outcome: Some(outcome), discard, ..self }
    }

    fn begin(self) -> (r: Fetcher)
        requires
            self@.phase != Phase::Settled,
        ensures
            r@ == self@.begin(),
    {
        proof {
            use_type_invariant(&self);
        }
        let temp = str_concat(self.target.as_str(), ".part");
        if self.sources.len() == 0 {
            let named = Fetcher { temp, ..self };
            named.settle(TransferOutcome::Failed(FailureCause::NoSources), true)
        } else {
            Fetcher { phase: Phase::Downloading, attempt: 0, temp, ..self }
        }
    }

    fn fallback(self, error: MirrorError) -> (r: Fetcher)
        requires
            self@.phase == Phase::Downloading,
        ensures
            r@ == self@.fallback(error@),
    {
        proof {
            use_type_invariant(&self);
        }
        let count: usize = self.sources.len();
        if self.attempt + 1 < count {
            let next: usize = self.attempt + 1;
            Fetcher { phase: Phase::Waiting, attempt: next, last_error: Some(error), ..self }
        } else {
            let cause = FailureCause::Exhausted(error.duplicate());
            let failed = Fetcher { last_error: Some(error), ..self };
            failed.settle(TransferOutcome::Failed(cause), true)
        }
    }

    fn completed(self, filename: String) -> (r: Fetcher)
        ensures
            r@ == self@.completed(filename@),
    {
        let bytes = self.bytes;
        self.settle(TransferOutcome::Completed { filename, bytes }, false)
    }

    fn after_probe(self, present: bool, digest: String) -> (r: Fetcher)
        requires
            self@.phase == Phase::CheckExisting || self@.phase == Phase::Recheck,
        ensures
            r@ == self@.after_probe(present, digest@),
    {
        proof {
            use_type_invariant(&self);
        }
        if present && accepts(
            self.skip_hash,
            self.expected.as_str(),
            self.algorithm,
            digest.as_str(),
        ) {
            self.settle(TransferOutcome::Skipped(SkipReason::AlreadyPresent), false)
        } else if self.phase == Phase::CheckExisting && self.sources.len() > 0 && is_api_endpoint(
            self.sources[0].as_str(),
        ) {
            Fetcher { phase: Phase::Lookup, ..self }
        } else {
            self.begin()
        }
    }

    fn after_lookup(self, result: LookupResult) -> (r: Fetcher)
        requires
            self@.phase == Phase::Lookup,
        ensures
            r@ == self@.after_lookup(result@),
    {
        proof {
            use_type_invariant(&self);
        }
        match result {
            LookupResult::Named(name) => {
                let target = sanitize_filename(name.as_str());
                if str_ends_with(target.as_str(), ".zip") {
                    let named = Fetcher { target, resolved: true, ..self };
                    named.settle(TransferOutcome::Skipped(SkipReason::ResourcePack), false)
                } else {
                    Fetcher { phase: Phase::Recheck, target, resolved: true, ..self }
                }
            },
            _ => match synthesize_mirror(self.sources[0].as_str()) {
                Some(mirror) => {
                    let mut sources = copy_strings(&self.sources);
                    let ghost before = sources@;
                    sources.insert(0, mirror);
                    assert(views(sources@) =~= seq![mirror@] + views(before));
                    let widened = Fetcher { sources, ..self };
                    widened.begin()
                },
                None => self.begin(),
            },
        }
    }

    fn after_transfer(self, t: Transfer) -> (r: Fetcher)
        requires
            self@.phase == Phase::Downloading,
        ensures
            r@ == self@.after_transfer(t@),
    {
        proof {
            use_type_invariant(&self);
        }
        let accepted = accepts(
            self.skip_hash,
            self.expected.as_str(),
            self.algorithm,
            t.digest.as_str(),
        );
        let named = if self.resolved {
            self
        } else {
            match resolve(&t.disposition, t.final_url.as_str()) {
                Some(name) => Fetcher { target: name, resolved: true, ..self },
                None => self,
            }
        };
        if str_ends_with(named.target.as_str(), ".zip") {
            named.settle(TransferOutcome::Skipped(SkipReason::ResourcePack), true)
        } else if accepted {
            Fetcher { phase: Phase::Finalizing, digest: t.digest, bytes: t.bytes, ..named }
        } else {
            named.fallback(MirrorError::Integrity)
        }
    }

    fn after_finalize(self) -> (r: Fetcher)
        requires
            self@.phase == Phase::Finalizing,
        ensures
            r@ == self@.after_finalize(),
    {
        proof {
            use_type_invariant(&self);
        }
        if !self.resolved && str_starts_with(self.target.as_str(), "CF-") {
            Fetcher { phase: Phase::ReadingMetadata, ..self }
        } else {
            let filename = self.target.clone();
            self.completed(filename)
        }
    }

    fn after_metadata(self, meta: Option<ModMetadata>) -> (r: Fetcher)
        requires
            self@.phase == Phase::ReadingMetadata,
        ensures
            r@ == self@.after_metadata(opt_metadata(meta)),
    {
        proof {
            use_type_invariant(&self);
        }
        match meta {
            Some(m) => {
                let descriptive = descriptive_filename(&m, self.name.as_str());
                Fetcher { phase: Phase::Renaming, descriptive, ..self }
            },
            None => {
                let filename = self.target.clone();
                self.completed(filename)
            },
        }
    }

    /// Takes the driver's report and moves on: see [`transition`].
    pub fn handle(self, event: FetchEvent) -> (r: Fetcher)
        ensures
            r@ == transition(self@, event@),
            r@.wf(),
    {
        proof {
            use_type_invariant(&self);
        }
        let r = match event {
            FetchEvent::Existing { present, digest } => {
                if self.phase == Phase::CheckExisting || self.phase == Phase::Recheck {
                    self.after_probe(present, digest)
                } else {
                    self
                }
            },
            FetchEvent::Lookup(result) => {
                if self.phase == Phase::Lookup {
                    self.after_lookup(result)
                } else {
                    self
                }
            },
            FetchEvent::Waited => {
                if self.phase == Phase::Waiting {
                    Fetcher { phase: Phase::Downloading, ..self }
                } else {
                    self
                }
            },
            FetchEvent::Transferred(t) => {
                if self.phase == Phase::Downloading {
                    self.after_transfer(t)
                } else {
                    self
                }
            },
            FetchEvent::TransferFailed(detail) => {
                if self.phase == Phase::Downloading {
                    self.fallback(MirrorError::Transport(detail))
                } else {
                    self
                }
            },
            FetchEvent::Finalized => {
                if self.phase == Phase::Finalizing {
                    self.after_finalize()
                } else {
                    self
                }
            },
            FetchEvent::FinalizeFailed(detail) => {
                if self.phase == Phase::Finalizing {
                    self.settle(TransferOutcome::Failed(FailureCause::Storage(detail)), true)
                } else {
                    self
                }
            },
            FetchEvent::Embedded(meta) => {
                if self.phase == Phase::ReadingMetadata {
                    self.after_metadata(meta)
                } else {
                    self
                }
            },
            FetchEvent::Renamed(ok) => {
                if self.phase == Phase::Renaming {
                    let filename = if ok {
                        self.descriptive.clone()
                    } else {
                        self.target.clone()
                    };
                    self.completed(filename)
                } else {
                    self
                }
            },
        };
        proof {
            use_type_invariant(&r);
        }
        r
    }
}

} // verus!
