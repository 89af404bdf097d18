use dotlinks::errors::ReconcileError;
use dotlinks::reconcile::Action;
use dotlinks::reconcile::CreateOutcome;
use dotlinks::reconcile::Event;
use dotlinks::reconcile::LinkStat;
use dotlinks::reconcile::Outcome;
use dotlinks::reconcile::TargetProbe;
use dotlinks::reconcile::finished;
use dotlinks::reconcile::next_action;
use dotlinks::reconcile::start_phase;
use dotlinks::reconcile::step;

/// Feed `events` through the machine and collect the action each visited
/// phase called for (the starting phase's action first), together with
/// the final result if the machine finished.
fn drive(
    original: &str,
    link: &str,
    events: Vec<Event>,
) -> (Vec<Action>, Option<Result<Outcome, ReconcileError>>) {
    let original = String::from(original);
    let link = String::from(link);
    let mut phase = start_phase();
    let mut actions = vec![next_action(&phase)];
    for event in events {
        phase = step(&original, &link, &phase, &event);
        actions.push(next_action(&phase));
    }
    let result = finished(&phase);
    (actions, result)
}

fn is_mutating(action: &Action) -> bool {
    matches!(action, Action::RenameLink { .. } | Action::CreateLink)
}

#[test]
fn satisfied_link_is_untouched() {
    // The link is a symlink whose canonicalized target equals the
    // original's canonical path: success, and no mutating action is ever
    // requested.  Running the same reconciliation again sees the same
    // filesystem state, so it takes the same no-op path: idempotence.
    for _ in 0..2 {
        let (actions, result) = drive(
            "/repo/zsh",
            "/home/user/.config/zsh",
            vec![
                Event::OriginalStat { found: true, code: 0 },
                Event::OriginalCanonical { canonical: Some(String::from("/repo/zsh")), code: 0 },
                Event::LinkObserved {
                    stat: LinkStat::Present { is_symlink: true },
                    target: TargetProbe::Resolved { target: String::from("/repo/zsh") },
                },
            ],
        );
        assert_eq!(result, Some(Ok(Outcome::AlreadyLinked)));
        assert!(actions.iter().all(|a| !is_mutating(a)));
    }
}

#[test]
fn canonical_equality_beats_literal_difference() {
    // The stored target differs literally from the original, but it
    // canonicalizes to the same path: still a no-op success.
    let (actions, result) = drive(
        "/repo/zsh",
        "/home/user/.config/zsh",
        vec![
            Event::OriginalStat { found: true, code: 0 },
            Event::OriginalCanonical { canonical: Some(String::from("/real/zsh")), code: 0 },
            Event::LinkObserved {
                stat: LinkStat::Present { is_symlink: true },
                // read as e.g. "/repo/../repo/zsh", canonicalized here
                target: TargetProbe::Resolved { target: String::from("/real/zsh") },
            },
        ],
    );
    assert_eq!(result, Some(Ok(Outcome::AlreadyLinked)));
    assert!(actions.iter().all(|a| !is_mutating(a)));
}

#[test]
fn missing_original_fails_without_change() {
    let (actions, result) = drive(
        "/repo/zsh",
        "/home/user/.config/zsh",
        vec![Event::OriginalStat { found: false, code: 2 }],
    );
    assert_eq!(
        result,
        Some(Err(ReconcileError::OriginalNotFound {
            path: String::from("/repo/zsh"),
            code: 2,
        }))
    );
    assert!(actions.iter().all(|a| !is_mutating(a)));
}

#[test]
fn canonicalization_failure_is_fatal() {
    let (actions, result) = drive(
        "/repo/zsh",
        "/home/user/.config/zsh",
        vec![
            Event::OriginalStat { found: true, code: 0 },
            Event::OriginalCanonical { canonical: None, code: 40 },
        ],
    );
    assert_eq!(
        result,
        Some(Err(ReconcileError::CanonicalizationFailed {
            path: String::from("/repo/zsh"),
            code: 40,
        }))
    );
    assert!(actions.iter().all(|a| !is_mutating(a)));
}

#[test]
fn dangling_symlink_is_replaced() {
    // A symlink to a nonexistent path: its target cannot be resolved, so
    // it is backed up and replaced — neither an error nor a no-op.
    let (actions, result) = drive(
        "/repo/zsh",
        "/home/user/.config/zsh",
        vec![
            Event::OriginalStat { found: true, code: 0 },
            Event::OriginalCanonical { canonical: Some(String::from("/repo/zsh")), code: 0 },
            Event::LinkObserved {
                stat: LinkStat::Present { is_symlink: true },
                target: TargetProbe::Unresolved,
            },
            Event::ClockRead { stamp: String::from("2024-01-01T00_00_00") },
            Event::CandidateExists { exists: false },
            Event::RenameDone { ok: true, code: 0 },
            Event::CreateDone { outcome: CreateOutcome::Created },
        ],
    );
    assert_eq!(result, Some(Ok(Outcome::CreatedLink)));
    assert!(actions.iter().any(|a| matches!(a, Action::RenameLink { .. })));
}

#[test]
fn different_target_is_backed_up_and_replaced() {
    // The link is a symlink to a real but different directory: the
    // existing entry is displaced by rename to the computed backup name,
    // and only then is the new link created.
    let (actions, result) = drive(
        "/repo/zsh",
        "/home/user/.config/zsh",
        vec![
            Event::OriginalStat { found: true, code: 0 },
            Event::OriginalCanonical { canonical: Some(String::from("/repo/zsh")), code: 0 },
            Event::LinkObserved {
                stat: LinkStat::Present { is_symlink: true },
                target: TargetProbe::Resolved { target: String::from("/somewhere/else") },
            },
            Event::ClockRead { stamp: String::from("2024-01-01T00_00_00") },
            Event::CandidateExists { exists: false },
            Event::RenameDone { ok: true, code: 0 },
            Event::CreateDone { outcome: CreateOutcome::Created },
        ],
    );
    assert_eq!(result, Some(Ok(Outcome::CreatedLink)));
    let rename_at = actions
        .iter()
        .position(|a| matches!(a, Action::RenameLink { .. }))
        .expect("a backup rename must be requested");
    let create_at = actions
        .iter()
        .position(|a| matches!(a, Action::CreateLink))
        .expect("a creation must be requested");
    assert!(rename_at < create_at, "backup must precede creation");
    match &actions[rename_at] {
        Action::RenameLink { backup } => {
            assert_eq!(backup, "/home/user/.config/zsh-2024-01-01T00_00_00");
        }
        _ => unreachable!(),
    }
}

#[test]
fn regular_file_is_backed_up_before_creation() {
    // An entry that is not a symlink at all is displaced the same way.
    let (actions, result) = drive(
        "/repo/home/.zshenv",
        "/home/user/.zshenv",
        vec![
            Event::OriginalStat { found: true, code: 0 },
            Event::OriginalCanonical {
                canonical: Some(String::from("/repo/home/.zshenv")),
                code: 0,
            },
            Event::LinkObserved {
                stat: LinkStat::Present { is_symlink: false },
                target: TargetProbe::Unresolved,
            },
            Event::ClockRead { stamp: String::from("2024-06-30T12_00_00") },
            Event::CandidateExists { exists: false },
            Event::RenameDone { ok: true, code: 0 },
            Event::CreateDone { outcome: CreateOutcome::Created },
        ],
    );
    assert_eq!(result, Some(Ok(Outcome::CreatedLink)));
    let rename_at = actions
        .iter()
        .position(|a| matches!(a, Action::RenameLink { .. }))
        .unwrap();
    let create_at = actions.iter().position(|a| matches!(a, Action::CreateLink)).unwrap();
    assert!(rename_at < create_at);
    match &actions[rename_at] {
        Action::RenameLink { backup } => {
            assert_eq!(backup, "/home/user/.zshenv-2024-06-30T12_00_00");
        }
        _ => unreachable!(),
    }
}

#[test]
fn trailing_slash_link_is_backed_up_like_the_original_tool() {
    // A link path written with a trailing slash still has a basename;
    // the backup name is built on the stripped path.
    let (actions, result) = drive(
        "/repo/zsh",
        "/home/user/.config/zsh/",
        vec![
            Event::OriginalStat { found: true, code: 0 },
            Event::OriginalCanonical { canonical: Some(String::from("/repo/zsh")), code: 0 },
            Event::LinkObserved {
                stat: LinkStat::Present { is_symlink: false },
                target: TargetProbe::Unresolved,
            },
            Event::ClockRead { stamp: String::from("2024-01-01T00_00_00") },
            Event::CandidateExists { exists: false },
            Event::RenameDone { ok: true, code: 0 },
            Event::CreateDone { outcome: CreateOutcome::Created },
        ],
    );
    assert_eq!(result, Some(Ok(Outcome::CreatedLink)));
    match actions.iter().find(|a| matches!(a, Action::RenameLink { .. })).unwrap() {
        Action::RenameLink { backup } => {
            assert_eq!(backup, "/home/user/.config/zsh-2024-01-01T00_00_00");
        }
        _ => unreachable!(),
    }
}

#[test]
fn missing_link_is_created_without_backup() {
    let (actions, result) = drive(
        "/repo/zsh",
        "/home/user/.config/zsh",
        vec![
            Event::OriginalStat { found: true, code: 0 },
            Event::OriginalCanonical { canonical: Some(String::from("/repo/zsh")), code: 0 },
            Event::LinkObserved { stat: LinkStat::NotFound, target: TargetProbe::Unresolved },
            Event::CreateDone { outcome: CreateOutcome::Created },
        ],
    );
    assert_eq!(result, Some(Ok(Outcome::CreatedLink)));
    assert!(actions.iter().all(|a| !matches!(a, Action::RenameLink { .. })));
    assert!(actions.iter().any(|a| matches!(a, Action::CreateLink)));
}

#[test]
fn probe_failure_is_fatal_and_distinct_from_not_found() {
    let (actions, result) = drive(
        "/repo/zsh",
        "/home/user/.config/zsh",
        vec![
            Event::OriginalStat { found: true, code: 0 },
            Event::OriginalCanonical { canonical: Some(String::from("/repo/zsh")), code: 0 },
            Event::LinkObserved {
                stat: LinkStat::Failed { code: 13 },
                target: TargetProbe::Unresolved,
            },
        ],
    );
    assert_eq!(
        result,
        Some(Err(ReconcileError::LinkProbeFailed {
            path: String::from("/home/user/.config/zsh"),
            code: 13,
        }))
    );
    assert!(actions.iter().all(|a| !is_mutating(a)));
}

#[test]
fn collision_probes_successive_names() {
    // The first two candidate names are taken; the rename must go to the
    // third, "-2"-suffixed name, which was observed free.
    let (actions, result) = drive(
        "/repo/zsh",
        "/d/foo",
        vec![
            Event::OriginalStat { found: true, code: 0 },
            Event::OriginalCanonical { canonical: Some(String::from("/repo/zsh")), code: 0 },
            Event::LinkObserved {
                stat: LinkStat::Present { is_symlink: false },
                target: TargetProbe::Unresolved,
            },
            Event::ClockRead { stamp: String::from("2024-01-01T00_00_00") },
            Event::CandidateExists { exists: true },
            Event::CandidateExists { exists: true },
            Event::CandidateExists { exists: false },
            Event::RenameDone { ok: true, code: 0 },
            Event::CreateDone { outcome: CreateOutcome::Created },
        ],
    );
    assert_eq!(result, Some(Ok(Outcome::CreatedLink)));
    let probed: Vec<&str> = actions
        .iter()
        .filter_map(|a| match a {
            Action::ProbeCandidate { candidate } => Some(candidate.as_str()),
            _ => None,
        })
        .collect();
    assert_eq!(
        probed,
        vec![
            "/d/foo-2024-01-01T00_00_00",
            "/d/foo-2024-01-01T00_00_00-1",
            "/d/foo-2024-01-01T00_00_00-2",
        ]
    );
    match actions.iter().find(|a| matches!(a, Action::RenameLink { .. })).unwrap() {
        Action::RenameLink { backup } => assert_eq!(backup, "/d/foo-2024-01-01T00_00_00-2"),
        _ => unreachable!(),
    }
}

#[test]
fn failed_rename_aborts_before_creation() {
    let (actions, result) = drive(
        "/repo/zsh",
        "/d/foo",
        vec![
            Event::OriginalStat { found: true, code: 0 },
            Event::OriginalCanonical { canonical: Some(String::from("/repo/zsh")), code: 0 },
            Event::LinkObserved {
                stat: LinkStat::Present { is_symlink: false },
                target: TargetProbe::Unresolved,
            },
            Event::ClockRead { stamp: String::from("2024-01-01T00_00_00") },
            Event::CandidateExists { exists: false },
            Event::RenameDone { ok: false, code: 13 },
        ],
    );
    assert_eq!(
        result,
        Some(Err(ReconcileError::BackupFailed {
            from: String::from("/d/foo"),
            to: String::from("/d/foo-2024-01-01T00_00_00"),
            code: 13,
        }))
    );
    assert!(actions.iter().all(|a| !matches!(a, Action::CreateLink)));
}

#[test]
fn root_like_link_cannot_be_backed_up() {
    let (_, result) = drive(
        "/repo/zsh",
        "/",
        vec![
            Event::OriginalStat { found: true, code: 0 },
            Event::OriginalCanonical { canonical: Some(String::from("/repo/zsh")), code: 0 },
            Event::LinkObserved {
                stat: LinkStat::Present { is_symlink: false },
                target: TargetProbe::Unresolved,
            },
            Event::ClockRead { stamp: String::from("2024-01-01T00_00_00") },
        ],
    );
    assert_eq!(
        result,
        Some(Err(ReconcileError::InvalidBackupTarget { path: String::from("/") }))
    );
}

#[test]
fn failed_creation_is_fatal() {
    let (_, result) = drive(
        "/repo/zsh",
        "/home/user/.config/zsh",
        vec![
            Event::OriginalStat { found: true, code: 0 },
            Event::OriginalCanonical { canonical: Some(String::from("/repo/zsh")), code: 0 },
            Event::LinkObserved { stat: LinkStat::NotFound, target: TargetProbe::Unresolved },
            Event::CreateDone { outcome: CreateOutcome::Failed { code: 30 } },
        ],
    );
    assert_eq!(
        result,
        Some(Err(ReconcileError::LinkCreationFailed {
            path: String::from("/home/user/.config/zsh"),
            code: 30,
        }))
    );
}

#[test]
fn benign_creation_race_is_success() {
    // Another actor created the very same link between probe and
    // creation: the raw target equals the original, so all is well.
    let (_, result) = drive(
        "/repo/zsh",
        "/home/user/.config/zsh",
        vec![
            Event::OriginalStat { found: true, code: 0 },
            Event::OriginalCanonical { canonical: Some(String::from("/repo/zsh")), code: 0 },
            Event::LinkObserved { stat: LinkStat::NotFound, target: TargetProbe::Unresolved },
            Event::CreateDone { outcome: CreateOutcome::AlreadyExists },
            Event::LinkTargetRead { raw_target: Some(String::from("/repo/zsh")), code: 0 },
        ],
    );
    assert_eq!(result, Some(Ok(Outcome::RacedButLinked)));
}

#[test]
fn race_target_with_trailing_slash_is_the_same_path() {
    // The raced writer stored a trailing-slash spelling of the same
    // path; the comparison goes by the stripped forms.
    let (_, result) = drive(
        "/repo/zsh",
        "/home/user/.config/zsh",
        vec![
            Event::OriginalStat { found: true, code: 0 },
            Event::OriginalCanonical { canonical: Some(String::from("/repo/zsh")), code: 0 },
            Event::LinkObserved { stat: LinkStat::NotFound, target: TargetProbe::Unresolved },
            Event::CreateDone { outcome: CreateOutcome::AlreadyExists },
            Event::LinkTargetRead { raw_target: Some(String::from("/repo/zsh/")), code: 0 },
        ],
    );
    assert_eq!(result, Some(Ok(Outcome::RacedButLinked)));
}

#[test]
fn inconsistent_race_is_reported_with_observed_target() {
    let (_, result) = drive(
        "/repo/zsh",
        "/home/user/.config/zsh",
        vec![
            Event::OriginalStat { found: true, code: 0 },
            Event::OriginalCanonical { canonical: Some(String::from("/repo/zsh")), code: 0 },
            Event::LinkObserved { stat: LinkStat::NotFound, target: TargetProbe::Unresolved },
            Event::CreateDone { outcome: CreateOutcome::AlreadyExists },
            Event::LinkTargetRead { raw_target: Some(String::from("/somewhere/else")), code: 0 },
        ],
    );
    assert_eq!(
        result,
        Some(Err(ReconcileError::LinkInconsistent {
            path: String::from("/home/user/.config/zsh"),
            observed: String::from("/somewhere/else"),
        }))
    );
}

#[test]
fn unreadable_race_target_is_a_probe_failure() {
    let (_, result) = drive(
        "/repo/zsh",
        "/home/user/.config/zsh",
        vec![
            Event::OriginalStat { found: true, code: 0 },
            Event::OriginalCanonical { canonical: Some(String::from("/repo/zsh")), code: 0 },
            Event::LinkObserved { stat: LinkStat::NotFound, target: TargetProbe::Unresolved },
            Event::CreateDone { outcome: CreateOutcome::AlreadyExists },
            Event::LinkTargetRead { raw_target: None, code: 5 },
        ],
    );
    assert_eq!(
        result,
        Some(Err(ReconcileError::LinkProbeFailed {
            path: String::from("/home/user/.config/zsh"),
            code: 5,
        }))
    );
}

#[test]
fn resolved_target_without_entry_is_a_probe_failure() {
    // lstat says nothing is there, yet the link read resolved: an
    // inconsistent observation, fatal rather than guessed at.
    let (_, result) = drive(
        "/repo/zsh",
        "/home/user/.config/zsh",
        vec![
            Event::OriginalStat { found: true, code: 0 },
            Event::OriginalCanonical { canonical: Some(String::from("/repo/zsh")), code: 0 },
            Event::LinkObserved {
                stat: LinkStat::NotFound,
                target: TargetProbe::Resolved { target: String::from("/repo/zsh") },
            },
        ],
    );
    assert_eq!(
        result,
        Some(Err(ReconcileError::LinkProbeFailed {
            path: String::from("/home/user/.config/zsh"),
            code: 0,
        }))
    );
}

#[test]
fn pathbuf_round_trip() {
    let p = std::path::PathBuf::from("/home/user/.zshenv");
    assert_eq!(
        dotlinks::pathtext::pathbuf_to_string(&p),
        Some(String::from("/home/user/.zshenv"))
    );
}

#[test]
fn unexpected_event_changes_nothing() {
    let original = String::from("/repo/zsh");
    let link = String::from("/home/user/.config/zsh");
    let phase = start_phase();
    let next = step(&original, &link, &phase, &Event::RenameDone { ok: true, code: 0 });
    assert!(matches!(next_action(&next), Action::StatOriginal));
    assert!(finished(&next).is_none());
}
