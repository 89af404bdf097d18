//! Properties of the reconciler, proved over its transition relation.
//!
//! A *run* feeds a sequence of events through [`step_model`] from a
//! starting phase.  A phase *mutates* when the action it calls for
//! changes the filesystem: renaming the link away, or creating the
//! symlink.  Everything the reconciler promises about "no change" is
//! stated as: the run never enters a mutating phase.

use vstd::prelude::*;

use crate::errors::ReconcileErrorModel;
use crate::naming::candidate_chars;
use crate::naming::has_valid_basename;
use crate::reconcile::CreateOutcome;
use crate::reconcile::EventModel;
use crate::reconcile::LinkStat;
use crate::reconcile::Outcome;
use crate::reconcile::PhaseModel;
use crate::reconcile::TargetProbeModel;
use crate::reconcile::needs_replacement;
use crate::reconcile::step_model;

verus! {

/// Whether the action `phase` calls for changes the filesystem.
pub open spec fn mutating(phase: PhaseModel) -> bool {
    phase is RenameAway || phase is CreateLink
}

/// The phase a run of the machine ends in, after feeding `events` one by
/// one through [`step_model`] from `phase`.
pub open spec fn run_model(
    original: Seq<char>,
    link: Seq<char>,
    phase: PhaseModel,
    events: Seq<EventModel>,
) -> PhaseModel
    decreases events.len(),
{
    if events.len() == 0 {
        phase
    } else {
        run_model(original, link, step_model(original, link, phase, events[0]), events.drop_first())
    }
}

/// Whether a run passes through any phase whose action changes the
/// filesystem (the phases visited include `phase` itself and every
/// successor, the last one included).
pub open spec fn run_mutates(
    original: Seq<char>,
    link: Seq<char>,
    phase: PhaseModel,
    events: Seq<EventModel>,
) -> bool
    decreases events.len(),
{
    mutating(phase) || (events.len() > 0 && run_mutates(
        original,
        link,
        step_model(original, link, phase, events[0]),
        events.drop_first(),
    ))
}

/// The event sequence of a reconciliation that finds the link already
/// pointing (after canonicalization) at the original's canonical path.
pub open spec fn satisfied_events(canonical: Seq<char>) -> Seq<EventModel> {
    seq![
        EventModel::OriginalStat { found: true, code: 0 },
        EventModel::OriginalCanonical { canonical: Some(canonical), code: 0 },
        EventModel::LinkObserved {
            stat: LinkStat::Present { is_symlink: true },
            target: TargetProbeModel::Resolved { target: canonical },
        },
    ]
}

/// **Idempotence.**  A run that observes the link as a symlink whose
/// canonicalized target equals the original's canonical path succeeds as
/// `AlreadyLinked` and never enters a mutating phase: nothing on the
/// filesystem is touched.  A successful reconciliation leaves the link
/// in exactly that state, so running it again changes nothing and
/// succeeds again.
pub proof fn lemma_satisfied_run_is_noop(original: Seq<char>, link: Seq<char>, canonical: Seq<char>)
    ensures
        run_model(original, link, PhaseModel::StatOriginal, satisfied_events(canonical))
            == (PhaseModel::Done { result: Ok(Outcome::AlreadyLinked) }),
        !run_mutates(original, link, PhaseModel::StatOriginal, satisfied_events(canonical)),
{
    reveal_with_fuel(run_model, 5);
    reveal_with_fuel(run_mutates, 5);
    let events = satisfied_events(canonical);
    let p1 = step_model(original, link, PhaseModel::StatOriginal, events[0]);
    assert(p1 == PhaseModel::CanonicalizeOriginal);
    let p2 = step_model(original, link, p1, events[1]);
    assert(p2 == (PhaseModel::ProbeLink { canonical }));
    let p3 = step_model(original, link, p2, events[2]);
    assert(p3 == (PhaseModel::Done { result: Ok(Outcome::AlreadyLinked) }));
    assert(events.drop_first().drop_first().drop_first() =~= Seq::<EventModel>::empty());
    assert(run_model(original, link, PhaseModel::StatOriginal, events) == p3);
}

/// **Equality via canonicalization.**  The already-satisfied decision
/// goes by the canonicalized target alone: whatever literal target
/// string the link stores, if it resolves to the original's canonical
/// path, the reconciliation is a no-op success.
pub proof fn lemma_canonical_equality_decides(
    original: Seq<char>,
    link: Seq<char>,
    canonical: Seq<char>,
)
    ensures
        step_model(
            original,
            link,
            PhaseModel::ProbeLink { canonical },
            EventModel::LinkObserved {
                stat: LinkStat::Present { is_symlink: true },
                target: TargetProbeModel::Resolved { target: canonical },
            },
        ) == (PhaseModel::Done { result: Ok(Outcome::AlreadyLinked) }),
{
}

/// **Missing-original failure.**  When the probe of the original does
/// not find it, the run fails at once with `OriginalNotFound`, and no
/// mutating phase is ever entered: the link is left as it was.
pub proof fn lemma_missing_original_fails(original: Seq<char>, link: Seq<char>, code: i32)
    ensures
        run_model(
            original,
            link,
            PhaseModel::StatOriginal,
            seq![EventModel::OriginalStat { found: false, code }],
        ) == (PhaseModel::Done {
            result: Err(ReconcileErrorModel::OriginalNotFound { path: original, code }),
        }),
        !run_mutates(
            original,
            link,
            PhaseModel::StatOriginal,
            seq![EventModel::OriginalStat { found: false, code }],
        ),
{
    reveal_with_fuel(run_model, 3);
    reveal_with_fuel(run_mutates, 3);
    let events = seq![EventModel::OriginalStat { found: false, code }];
    let p1 = step_model(original, link, PhaseModel::StatOriginal, events[0]);
    assert(p1 == (PhaseModel::Done {
        result: Err(ReconcileErrorModel::OriginalNotFound { path: original, code }),
    }));
    assert(events.drop_first() =~= Seq::<EventModel>::empty());
}

/// **Dangling-target replacement.**  A symlink whose target cannot be
/// resolved is classified as needing replacement — not as an error, and
/// not as already satisfied: the machine proceeds to name a backup.
pub proof fn lemma_dangling_link_replaced(
    original: Seq<char>,
    link: Seq<char>,
    canonical: Seq<char>,
    is_symlink: bool,
)
    ensures
        step_model(
            original,
            link,
            PhaseModel::ProbeLink { canonical },
            EventModel::LinkObserved {
                stat: LinkStat::Present { is_symlink },
                target: TargetProbeModel::Unresolved,
            },
        ) == PhaseModel::ReadClock,
{
}

/// **Missing link needs no backup.**  When nothing exists at the link
/// path, the machine goes straight to creation: no clock is read, no
/// backup is named, nothing is renamed.
pub proof fn lemma_missing_link_skips_backup(
    original: Seq<char>,
    link: Seq<char>,
    canonical: Seq<char>,
)
    ensures
        step_model(
            original,
            link,
            PhaseModel::ProbeLink { canonical },
            EventModel::LinkObserved {
                stat: LinkStat::NotFound,
                target: TargetProbeModel::Unresolved,
            },
        ) == PhaseModel::CreateLink,
{
}

/// **Backup preservation / different-but-valid-target replacement.**
/// Any existing entry that does not already satisfy the link — a regular
/// file, a directory, a dangling symlink, or a symlink to a different
/// resolved path — is displaced the same way: the machine renames it to
/// the freshly computed backup name *before* any creation is attempted,
/// and only a successful rename leads to the creation phase.  The run
/// ends with the link created.
pub proof fn lemma_replacement_backs_up_first(
    original: Seq<char>,
    link: Seq<char>,
    canonical: Seq<char>,
    stat: LinkStat,
    target: TargetProbeModel,
    stamp: Seq<char>,
)
    requires
        needs_replacement(canonical, stat, target),
        has_valid_basename(link),
    ensures
        step_model(
            original,
            link,
            PhaseModel::ProbeLink { canonical },
            EventModel::LinkObserved { stat, target },
        ) == PhaseModel::ReadClock,
        step_model(original, link, PhaseModel::ReadClock, EventModel::ClockRead { stamp })
            == (PhaseModel::ProbeCandidate {
            stamp,
            attempt: 0,
            candidate: candidate_chars(link, stamp, 0),
        }),
        step_model(
            original,
            link,
            PhaseModel::ProbeCandidate {
                stamp,
                attempt: 0,
                candidate: candidate_chars(link, stamp, 0),
            },
            EventModel::CandidateExists { exists: false },
        ) == (PhaseModel::RenameAway { backup: candidate_chars(link, stamp, 0) }),
        step_model(
            original,
            link,
            PhaseModel::RenameAway { backup: candidate_chars(link, stamp, 0) },
            EventModel::RenameDone { ok: true, code: 0 },
        ) == PhaseModel::CreateLink,
        step_model(
            original,
            link,
            PhaseModel::CreateLink,
            EventModel::CreateDone { outcome: CreateOutcome::Created },
        ) == (PhaseModel::Done { result: Ok(Outcome::CreatedLink) }),
{
}

/// The events of a full replacement run: the original exists and
/// canonicalizes, the link's observation calls for replacement, the
/// first candidate name is free, and the rename and the creation
/// succeed.
pub open spec fn replacement_events(
    canonical: Seq<char>,
    stat: LinkStat,
    target: TargetProbeModel,
    stamp: Seq<char>,
) -> Seq<EventModel> {
    seq![
        EventModel::OriginalStat { found: true, code: 0 },
        EventModel::OriginalCanonical { canonical: Some(canonical), code: 0 },
        EventModel::LinkObserved { stat, target },
        EventModel::ClockRead { stamp },
        EventModel::CandidateExists { exists: false },
        EventModel::RenameDone { ok: true, code: 0 },
        EventModel::CreateDone { outcome: CreateOutcome::Created },
    ]
}

/// **Replacement ends with the link in place.**  A full replacement run
/// — whatever non-satisfying entry was observed at the link — ends with
/// the reconciliation reporting the link created.
pub proof fn lemma_replacement_run_creates(
    original: Seq<char>,
    link: Seq<char>,
    canonical: Seq<char>,
    stat: LinkStat,
    target: TargetProbeModel,
    stamp: Seq<char>,
)
    requires
        needs_replacement(canonical, stat, target),
        has_valid_basename(link),
    ensures
        run_model(
            original,
            link,
            PhaseModel::StatOriginal,
            replacement_events(canonical, stat, target, stamp),
        ) == (PhaseModel::Done { result: Ok(Outcome::CreatedLink) }),
{
    reveal_with_fuel(run_model, 9);
    let events = replacement_events(canonical, stat, target, stamp);
    let p1 = step_model(original, link, PhaseModel::StatOriginal, events[0]);
    assert(p1 == PhaseModel::CanonicalizeOriginal);
    let p2 = step_model(original, link, p1, events[1]);
    assert(p2 == (PhaseModel::ProbeLink { canonical }));
    let p3 = step_model(original, link, p2, events[2]);
    assert(p3 == PhaseModel::ReadClock);
    let p4 = step_model(original, link, p3, events[3]);
    assert(p4 == (PhaseModel::ProbeCandidate {
        stamp,
        attempt: 0,
        candidate: candidate_chars(link, stamp, 0),
    }));
    let p5 = step_model(original, link, p4, events[4]);
    assert(p5 == (PhaseModel::RenameAway { backup: candidate_chars(link, stamp, 0) }));
    let p6 = step_model(original, link, p5, events[5]);
    assert(p6 == PhaseModel::CreateLink);
    let p7 = step_model(original, link, p6, events[6]);
    assert(p7 == (PhaseModel::Done { result: Ok(Outcome::CreatedLink) }));
    assert(events.drop_first().drop_first().drop_first().drop_first().drop_first().drop_first().drop_first()
        =~= Seq::<EventModel>::empty());
}

/// **A failed backup aborts.**  When the rename to the backup name
/// fails, the reconciliation stops with `BackupFailed`: creation is
/// never attempted over an entry that could not be safely displaced.
pub proof fn lemma_backup_failure_aborts(
    original: Seq<char>,
    link: Seq<char>,
    backup: Seq<char>,
    code: i32,
)
    ensures
        step_model(
            original,
            link,
            PhaseModel::RenameAway { backup },
            EventModel::RenameDone { ok: false, code },
        ) == (PhaseModel::Done {
            result: Err(ReconcileErrorModel::BackupFailed { from: link, to: backup, code }),
        }),
        !mutating(PhaseModel::Done {
            result: Err(ReconcileErrorModel::BackupFailed { from: link, to: backup, code }),
        }),
{
}

/// **Collision-safe naming.**  While the probed candidate name is taken,
/// the machine moves to the next numbered candidate and never renames
/// onto the occupied name; it renames only onto a name just observed
/// free.
pub proof fn lemma_collision_probes_next(
    original: Seq<char>,
    link: Seq<char>,
    stamp: Seq<char>,
    attempt: u64,
    candidate: Seq<char>,
)
    requires
        attempt < u64::MAX,
        has_valid_basename(link),
    ensures
        step_model(
            original,
            link,
            PhaseModel::ProbeCandidate { stamp, attempt, candidate },
            EventModel::CandidateExists { exists: true },
        ) == (PhaseModel::ProbeCandidate {
            stamp,
            attempt: (attempt + 1) as u64,
            candidate: candidate_chars(link, stamp, attempt as nat + 1),
        }),
        step_model(
            original,
            link,
            PhaseModel::ProbeCandidate { stamp, attempt, candidate },
            EventModel::CandidateExists { exists: false },
        ) == (PhaseModel::RenameAway { backup: candidate }),
{
}

} // verus!
