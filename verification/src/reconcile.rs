//! The symlink reconciliation state machine.
//!
//! One reconciliation of an `(original, link)` pair is a sequence of
//! phases.  Each phase calls for one filesystem operation (its
//! [`Action`]); the caller performs it and reports the result back as an
//! [`Event`], and [`step`] decides the next phase.  All decisions — how an
//! observation of the link is classified, when a backup is taken, which
//! name it gets, and which error a failure surfaces — are made here, on
//! plain values.  Failure events carry the raw OS error code (`0` when
//! the OS supplied none), and every error surfaced holds the path(s)
//! involved and that code.
//!
//! The caller is trusted only to report events faithfully; every decision
//! taken on those events is verified against [`step_model`].

use vstd::prelude::*;

use crate::errors::ReconcileError;
use crate::errors::ReconcileErrorModel;
use crate::naming::backup_candidate;
use crate::naming::candidate_chars;
use crate::naming::has_valid_basename;
use crate::naming::strip_trailing;
use crate::naming::stripped_of;

verus! {

/// How the reconciliation ended successfully.
#[derive(Clone, Copy, Debug, PartialEq, Eq, Structural)]
pub enum Outcome {
    /// The link already pointed at the original; nothing was touched.
    AlreadyLinked,
    /// The link was created (after a backup, if an entry was displaced).
    CreatedLink,
    /// Creation raced with another actor, but the link now points at the
    /// original, which is all that was wanted.
    RacedButLinked,
}

/// What a metadata probe of the link path (without following a final
/// symlink) observed.
#[derive(Clone, Copy, Debug, PartialEq, Eq, Structural)]
pub enum LinkStat {
    /// An entry exists at the link path.
    Present { is_symlink: bool },
    /// Nothing exists at the link path.
    NotFound,
    /// The probe failed for some other reason (e.g. permission denied),
    /// with the raw OS error code.
    Failed { code: i32 },
}

/// The result of reading the link as a symlink and canonicalizing its
/// target.
#[derive(Clone, Debug)]
pub enum TargetProbe {
    /// The link's target, fully canonicalized.
    Resolved { target: String },
    /// The link could not be read as a symlink, or its target could not
    /// be canonicalized (e.g. the link is dangling, or not a symlink).
    Unresolved,
}

/// The result of the final symlink-creation call.
#[derive(Clone, Copy, Debug, PartialEq, Eq, Structural)]
pub enum CreateOutcome {
    /// The symlink was created.
    Created,
    /// Creation failed because an entry now exists at the link path.
    AlreadyExists,
    /// Creation failed for any other reason, with the raw OS error code.
    Failed { code: i32 },
}

/// The result of one filesystem operation, reported back to [`step`].
/// A `code` is the raw OS error code of a failure, `0` when the OS
/// supplied none or the operation succeeded.
#[derive(Clone, Debug)]
pub enum Event {
    /// Whether a metadata probe of the original found it.
    OriginalStat { found: bool, code: i32 },
    /// The original's canonical path, if it could be resolved.
    OriginalCanonical { canonical: Option<String>, code: i32 },
    /// The two-part observation of the link path.
    LinkObserved { stat: LinkStat, target: TargetProbe },
    /// The local timestamp to build backup names from.
    ClockRead { stamp: String },
    /// Whether an entry exists at the proposed backup candidate path.
    CandidateExists { exists: bool },
    /// Whether renaming the link to its backup path succeeded.
    RenameDone { ok: bool, code: i32 },
    /// How the symlink-creation call ended.
    CreateDone { outcome: CreateOutcome },
    /// The link's raw (uncanonicalized) target, if it could be read.
    LinkTargetRead { raw_target: Option<String>, code: i32 },
}

/// Where a reconciliation stands.  Every phase but `Done` calls for one
/// filesystem operation; see [`next_action`].
#[derive(Debug)]
pub enum Phase {
    /// Probe the original's metadata.
    StatOriginal,
    /// Resolve the original's canonical path.
    CanonicalizeOriginal,
    /// Observe the link path, to be classified against `canonical`.
    ProbeLink { canonical: String },
    /// An existing entry must be displaced; read the clock to name its
    /// backup.
    ReadClock,
    /// Check whether `candidate` is free to use as the backup name.
    ProbeCandidate { stamp: String, attempt: u64, candidate: String },
    /// Rename the link path to `backup`.
    RenameAway { backup: String },
    /// Create the symlink at the link path, pointing at the original.
    CreateLink,
    /// Creation hit an existing entry; read the link to tell a benign
    /// race from an inconsistency.
    CheckRace,
    /// The reconciliation is over.
    Done { result: Result<Outcome, ReconcileError> },
}

/// The one filesystem operation the current phase calls for.
#[derive(Debug)]
pub enum Action {
    /// Probe the original's metadata (without following a final symlink);
    /// report [`Event::OriginalStat`].
    StatOriginal,
    /// Canonicalize the original; report [`Event::OriginalCanonical`].
    CanonicalizeOriginal,
    /// Probe the link's metadata and read-and-canonicalize its target;
    /// report [`Event::LinkObserved`].
    ProbeLink,
    /// Format the current local time; report [`Event::ClockRead`].
    ReadClock,
    /// Check whether `candidate` exists; report [`Event::CandidateExists`].
    ProbeCandidate { candidate: String },
    /// Rename the link path to `backup`; report [`Event::RenameDone`].
    RenameLink { backup: String },
    /// Create the symlink; report [`Event::CreateDone`].
    CreateLink,
    /// Read the link's raw target; report [`Event::LinkTargetRead`].
    ReadLinkTarget,
    /// Nothing remains to be done; the result is in [`Phase::Done`].
    Finish,
}

/// Mathematical form of [`TargetProbe`].
pub enum TargetProbeModel {
    Resolved { target: Seq<char> },
    Unresolved,
}

/// Mathematical form of [`Event`].
pub enum EventModel {
    OriginalStat { found: bool, code: i32 },
    OriginalCanonical { canonical: Option<Seq<char>>, code: i32 },
    LinkObserved { stat: LinkStat, target: TargetProbeModel },
    ClockRead { stamp: Seq<char> },
    CandidateExists { exists: bool },
    RenameDone { ok: bool, code: i32 },
    CreateDone { outcome: CreateOutcome },
    LinkTargetRead { raw_target: Option<Seq<char>>, code: i32 },
}

/// Mathematical form of [`Phase`].
pub enum PhaseModel {
    StatOriginal,
    CanonicalizeOriginal,
    ProbeLink { canonical: Seq<char> },
    ReadClock,
    ProbeCandidate { stamp: Seq<char>, attempt: u64, candidate: Seq<char> },
    RenameAway { backup: Seq<char> },
    CreateLink,
    CheckRace,
    Done { result: Result<Outcome, ReconcileErrorModel> },
}

/// Mathematical form of [`Action`].
pub enum ActionModel {
    StatOriginal,
    CanonicalizeOriginal,
    ProbeLink,
    ReadClock,
    ProbeCandidate { candidate: Seq<char> },
    RenameLink { backup: Seq<char> },
    CreateLink,
    ReadLinkTarget,
    Finish,
}

/// Mathematical form of a reconciliation's result.
pub open spec fn result_view(r: Result<Outcome, ReconcileError>) -> Result<
    Outcome,
    ReconcileErrorModel,
> {
    match r {
        Ok(o) => Ok(o),
        Err(e) => Err(e@),
    }
}

impl View for TargetProbe {
    type V = TargetProbeModel;

    open spec fn view(&self) -> TargetProbeModel {
        match self {
            TargetProbe::Resolved { target } => TargetProbeModel::Resolved { target: target@ },
            TargetProbe::Unresolved => TargetProbeModel::Unresolved,
        }
    }
}

impl View for Event {
    type V = EventModel;

    open spec fn view(&self) -> EventModel {
        match self {
            Event::OriginalStat { found, code } => EventModel::OriginalStat {
                found: *found,
                code: *code,
            },
            Event::OriginalCanonical { canonical, code } => EventModel::OriginalCanonical {
                canonical: match canonical {
                    Some(c) => Some(c@),
                    None => None,
                },
                code: *code,
            },
            Event::LinkObserved { stat, target } => EventModel::LinkObserved {
                stat: *stat,
                target: target@,
            },
            Event::ClockRead { stamp } => EventModel::ClockRead { stamp: stamp@ },
            Event::CandidateExists { exists } => EventModel::CandidateExists { exists: *exists },
            Event::RenameDone { ok, code } => EventModel::RenameDone { ok: *ok, code: *code },
            Event::CreateDone { outcome } => EventModel::CreateDone { outcome: *outcome },
            Event::LinkTargetRead { raw_target, code } => EventModel::LinkTargetRead {
                raw_target: match raw_target {
                    Some(t) => Some(t@),
                    None => None,
                },
                code: *code,
            },
        }
    }
}

impl View for Phase {
    type V = PhaseModel;

    open spec fn view(&self) -> PhaseModel {
        match self {
            Phase::StatOriginal => PhaseModel::StatOriginal,
            Phase::CanonicalizeOriginal => PhaseModel::CanonicalizeOriginal,
            Phase::ProbeLink { canonical } => PhaseModel::ProbeLink { canonical: canonical@ },
            Phase::ReadClock => PhaseModel::ReadClock,
            Phase::ProbeCandidate { stamp, attempt, candidate } => PhaseModel::ProbeCandidate {
                stamp: stamp@,
                attempt: *attempt,
                candidate: candidate@,
            },
            Phase::RenameAway { backup } => PhaseModel::RenameAway { backup: backup@ },
            Phase::CreateLink => PhaseModel::CreateLink,
            Phase::CheckRace => PhaseModel::CheckRace,
            Phase::Done { result } => PhaseModel::Done { result: result_view(*result) },
        }
    }
}

impl View for Action {
    type V = ActionModel;

    open spec fn view(&self) -> ActionModel {
        match self {
            Action::StatOriginal => ActionModel::StatOriginal,
            Action::CanonicalizeOriginal => ActionModel::CanonicalizeOriginal,
            Action::ProbeLink => ActionModel::ProbeLink,
            Action::ReadClock => ActionModel::ReadClock,
            Action::ProbeCandidate { candidate } => ActionModel::ProbeCandidate {
                candidate: candidate@,
            },
            Action::RenameLink { backup } => ActionModel::RenameLink { backup: backup@ },
            Action::CreateLink => ActionModel::CreateLink,
            Action::ReadLinkTarget => ActionModel::ReadLinkTarget,
            Action::Finish => ActionModel::Finish,
        }
    }
}

/// Whether an observation of the link means the existing entry must be
/// displaced: something is there, and it is not a symlink that already
/// canonicalizes to the original's canonical path.
pub open spec fn needs_replacement(
    canonical: Seq<char>,
    stat: LinkStat,
    target: TargetProbeModel,
) -> bool {
    match (stat, target) {
        (LinkStat::Present { is_symlink }, TargetProbeModel::Resolved { target: t }) => !(
        is_symlink && t == canonical),
        (LinkStat::Present { is_symlink }, TargetProbeModel::Unresolved) => true,
        _ => false,
    }
}

/// The transition relation of the reconciler: from the current phase and
/// the reported event, the next phase.  An event that does not belong to
/// the current phase changes nothing.
pub open spec fn step_model(
    original: Seq<char>,
    link: Seq<char>,
    phase: PhaseModel,
    event: EventModel,
) -> PhaseModel {
    match (phase, event) {
        (PhaseModel::StatOriginal, EventModel::OriginalStat { found, code }) => if found {
            PhaseModel::CanonicalizeOriginal
        } else {
            PhaseModel::Done {
                result: Err(ReconcileErrorModel::OriginalNotFound { path: original, code }),
            }
        },
        (PhaseModel::CanonicalizeOriginal, EventModel::OriginalCanonical { canonical, code }) => match canonical {
            Some(c) => PhaseModel::ProbeLink { canonical: c },
            None => PhaseModel::Done {
                result: Err(ReconcileErrorModel::CanonicalizationFailed { path: original, code }),
            },
        },
        (PhaseModel::ProbeLink { canonical }, EventModel::LinkObserved { stat, target }) => match (
            stat,
            target,
        ) {
            (LinkStat::Present { is_symlink }, TargetProbeModel::Resolved { target: t }) => if is_symlink
                && t == canonical {
                PhaseModel::Done { result: Ok(Outcome::AlreadyLinked) }
            } else {
                PhaseModel::ReadClock
            },
            (LinkStat::Present { is_symlink }, TargetProbeModel::Unresolved) => PhaseModel::ReadClock,
            (LinkStat::NotFound, TargetProbeModel::Unresolved) => PhaseModel::CreateLink,
            (LinkStat::NotFound, TargetProbeModel::Resolved { .. }) => PhaseModel::Done {
                result: Err(ReconcileErrorModel::LinkProbeFailed { path: link, code: 0 }),
            },
            (LinkStat::Failed { code }, _) => PhaseModel::Done {
                result: Err(ReconcileErrorModel::LinkProbeFailed { path: link, code }),
            },
        },
        (PhaseModel::ReadClock, EventModel::ClockRead { stamp }) => if has_valid_basename(link) {
            PhaseModel::ProbeCandidate {
                stamp,
                attempt: 0,
                candidate: candidate_chars(link, stamp, 0),
            }
        } else {
            PhaseModel::Done {
                result: Err(ReconcileErrorModel::InvalidBackupTarget { path: link }),
            }
        },
        (
            PhaseModel::ProbeCandidate { stamp, attempt, candidate },
            EventModel::CandidateExists { exists },
        ) => if !exists {
            PhaseModel::RenameAway { backup: candidate }
        } else if attempt == u64::MAX {
            PhaseModel::Done {
                result: Err(ReconcileErrorModel::BackupFailed {
                    from: link,
                    to: candidate,
                    code: 0,
                }),
            }
        } else if has_valid_basename(link) {
            PhaseModel::ProbeCandidate {
                stamp,
                attempt: (attempt + 1) as u64,
                candidate: candidate_chars(link, stamp, attempt as nat + 1),
            }
        } else {
            PhaseModel::Done {
                result: Err(ReconcileErrorModel::InvalidBackupTarget { path: link }),
            }
        },
        (PhaseModel::RenameAway { backup }, EventModel::RenameDone { ok, code }) => if ok {
            PhaseModel::CreateLink
        } else {
            PhaseModel::Done {
                result: Err(ReconcileErrorModel::BackupFailed { from: link, to: backup, code }),
            }
        },
        (PhaseModel::CreateLink, EventModel::CreateDone { outcome }) => match outcome {
            CreateOutcome::Created => PhaseModel::Done { result: Ok(Outcome::CreatedLink) },
            CreateOutcome::AlreadyExists => PhaseModel::CheckRace,
            CreateOutcome::Failed { code } => PhaseModel::Done {
                result: Err(ReconcileErrorModel::LinkCreationFailed { path: link, code }),
            },
        },
        (PhaseModel::CheckRace, EventModel::LinkTargetRead { raw_target, code }) => match raw_target {
            Some(t) => if strip_trailing(t) == strip_trailing(original) {
                PhaseModel::Done { result: Ok(Outcome::RacedButLinked) }
            } else {
                PhaseModel::Done {
                    result: Err(ReconcileErrorModel::LinkInconsistent { path: link, observed: t }),
                }
            },
            None => PhaseModel::Done {
                result: Err(ReconcileErrorModel::LinkProbeFailed { path: link, code }),
            },
        },
        _ => phase,
    }
}

/// The action each phase calls for.
pub open spec fn action_model(phase: PhaseModel) -> ActionModel {
    match phase {
        PhaseModel::StatOriginal => ActionModel::StatOriginal,
        PhaseModel::CanonicalizeOriginal => ActionModel::CanonicalizeOriginal,
        PhaseModel::ProbeLink { .. } => ActionModel::ProbeLink,
        PhaseModel::ReadClock => ActionModel::ReadClock,
        PhaseModel::ProbeCandidate { candidate, .. } => ActionModel::ProbeCandidate { candidate },
        PhaseModel::RenameAway { backup } => ActionModel::RenameLink { backup },
        PhaseModel::CreateLink => ActionModel::CreateLink,
        PhaseModel::CheckRace => ActionModel::ReadLinkTarget,
        PhaseModel::Done { .. } => ActionModel::Finish,
    }
}

/// The phase every reconciliation starts in.
pub fn start_phase() -> (p: Phase)
    ensures
        p@ == PhaseModel::StatOriginal,
{
    Phase::StatOriginal
}

/// A copy of a result with the same mathematical value.
fn copy_of_result(r: &Result<Outcome, ReconcileError>) -> (out: Result<Outcome, ReconcileError>)
    ensures
        result_view(out) == result_view(*r),
{
    match r {
        Ok(o) => Ok(*o),
        Err(e) => Err(e.duplicate()),
    }
}

/// A copy of `phase` with the same mathematical value.
fn copy_of_phase(phase: &Phase) -> (r: Phase)
    ensures
        r@ == phase@,
{
    match phase {
        Phase::StatOriginal => Phase::StatOriginal,
        Phase::CanonicalizeOriginal => Phase::CanonicalizeOriginal,
        Phase::ProbeLink { canonical } => Phase::ProbeLink { canonical: canonical.clone() },
        Phase::ReadClock => Phase::ReadClock,
        Phase::ProbeCandidate { stamp, attempt, candidate } => Phase::ProbeCandidate {
            stamp: stamp.clone(),
            attempt: *attempt,
            candidate: candidate.clone(),
        },
        Phase::RenameAway { backup } => Phase::RenameAway { backup: backup.clone() },
        Phase::CreateLink => Phase::CreateLink,
        Phase::CheckRace => Phase::CheckRace,
        Phase::Done { result } => Phase::Done { result: copy_of_result(result) },
    }
}

/// Take one step: decide, from the current phase and the event the
/// caller reports, where the reconciliation stands next.
pub fn step(original: &String, link: &String, phase: &Phase, event: &Event) -> (next: Phase)
    ensures
        next@ == step_model(original@, link@, phase@, event@),
{
    match (phase, event) {
        (Phase::StatOriginal, Event::OriginalStat { found, code }) => {
            if *found {
                Phase::CanonicalizeOriginal
            } else {
                Phase::Done {
                    result: Err(ReconcileError::OriginalNotFound {
                        path: original.clone(),
                        code: *code,
                    }),
                }
            }
        },
        (Phase::CanonicalizeOriginal, Event::OriginalCanonical { canonical, code }) => {
            match canonical {
                Some(c) => Phase::ProbeLink { canonical: c.clone() },
                None => Phase::Done {
                    result: Err(ReconcileError::CanonicalizationFailed {
                        path: original.clone(),
                        code: *code,
                    }),
                },
            }
        },
        (Phase::ProbeLink { canonical }, Event::LinkObserved { stat, target }) => {
            match (stat, target) {
                (LinkStat::Present { is_symlink }, TargetProbe::Resolved { target: t }) => {
                    if *is_symlink && t.eq(canonical) {
                        Phase::Done { result: Ok(Outcome::AlreadyLinked) }
                    } else {
                        Phase::ReadClock
                    }
                },
                (LinkStat::Present { is_symlink: _ }, TargetProbe::Unresolved) => Phase::ReadClock,
                (LinkStat::NotFound, TargetProbe::Unresolved) => Phase::CreateLink,
                (LinkStat::NotFound, TargetProbe::Resolved { .. }) => Phase::Done {
                    result: Err(ReconcileError::LinkProbeFailed { path: link.clone(), code: 0 }),
                },
                (LinkStat::Failed { code }, _) => Phase::Done {
                    result: Err(ReconcileError::LinkProbeFailed {
                        path: link.clone(),
                        code: *code,
                    }),
                },
            }
        },
        (Phase::ReadClock, Event::ClockRead { stamp }) => {
            match backup_candidate(link, stamp, 0) {
                Ok(c) => Phase::ProbeCandidate { stamp: stamp.clone(), attempt: 0, candidate: c },
                Err(e) => Phase::Done { result: Err(e) },
            }
        },
        (Phase::ProbeCandidate { stamp, attempt, candidate }, Event::CandidateExists { exists }) => {
            if !*exists {
                Phase::RenameAway { backup: candidate.clone() }
            } else if *attempt == u64::MAX {
                Phase::Done {
                    result: Err(ReconcileError::BackupFailed {
                        from: link.clone(),
                        to: candidate.clone(),
                        code: 0,
                    }),
                }
            } else {
                match backup_candidate(link, stamp, *attempt + 1) {
                    Ok(c) => Phase::ProbeCandidate {
                        stamp: stamp.clone(),
                        attempt: *attempt + 1,
                        candidate: c,
                    },
                    Err(e) => Phase::Done { result: Err(e) },
                }
            }
        },
        (Phase::RenameAway { backup }, Event::RenameDone { ok, code }) => {
            if *ok {
                Phase::CreateLink
            } else {
                Phase::Done {
                    result: Err(ReconcileError::BackupFailed {
                        from: link.clone(),
                        to: backup.clone(),
                        code: *code,
                    }),
                }
            }
        },
        (Phase::CreateLink, Event::CreateDone { outcome }) => {
            match outcome {
                CreateOutcome::Created => Phase::Done { result: Ok(Outcome::CreatedLink) },
                CreateOutcome::AlreadyExists => Phase::CheckRace,
                CreateOutcome::Failed { code } => Phase::Done {
                    result: Err(ReconcileError::LinkCreationFailed {
                        path: link.clone(),
                        code: *code,
                    }),
                },
            }
        },
        (Phase::CheckRace, Event::LinkTargetRead { raw_target, code }) => {
            match raw_target {
                Some(t) => {
                    // the raced writer may have stored a trailing-slash
                    // variant of the same path; compare stripped forms
                    let ts = stripped_of(t);
                    let os = stripped_of(original);
                    if ts.eq(&os) {
                        Phase::Done { result: Ok(Outcome::RacedButLinked) }
                    } else {
                        Phase::Done {
                            result: Err(ReconcileError::LinkInconsistent {
                                path: link.clone(),
                                observed: t.clone(),
                            }),
                        }
                    }
                },
                None => Phase::Done {
                    result: Err(ReconcileError::LinkProbeFailed {
                        path: link.clone(),
                        code: *code,
                    }),
                },
            }
        },
        _ => copy_of_phase(phase),
    }
}

/// The filesystem operation the caller must perform next.
pub fn next_action(phase: &Phase) -> (a: Action)
    ensures
        a@ == action_model(phase@),
{
    match phase {
        Phase::StatOriginal => Action::StatOriginal,
        Phase::CanonicalizeOriginal => Action::CanonicalizeOriginal,
        Phase::ProbeLink { .. } => Action::ProbeLink,
        Phase::ReadClock => Action::ReadClock,
        Phase::ProbeCandidate { candidate, .. } => Action::ProbeCandidate {
            candidate: candidate.clone(),
        },
        Phase::RenameAway { backup } => Action::RenameLink { backup: backup.clone() },
        Phase::CreateLink => Action::CreateLink,
        Phase::CheckRace => Action::ReadLinkTarget,
        Phase::Done { .. } => Action::Finish,
    }
}

/// The reconciliation's result, once its phase is `Done`.
pub fn finished(phase: &Phase) -> (r: Option<Result<Outcome, ReconcileError>>)
    ensures
        match phase@ {
            PhaseModel::Done { result } => r matches Some(x) && result_view(x) == result,
            _ => r is None,
        },
{
    match phase {
        Phase::Done { result } => Some(copy_of_result(result)),
        _ => None,
    }
}

} // verus!
