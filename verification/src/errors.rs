//! The closed set of error kinds a reconciliation can surface.

use vstd::prelude::*;

verus! {

/// Why a reconciliation (or backup-name computation) failed.
///
/// *Not found* and *probe failure* are deliberately distinct kinds: a
/// missing link is the benign "create it fresh" case, while any other
/// probe failure is fatal for that pair.
///
/// Each variant carries the path(s) involved and, where the operating
/// system reported one, the raw OS error code (`0` when none was
/// supplied), so a failure can be diagnosed without re-running.
#[derive(Clone, Debug, PartialEq, Eq)]
pub enum ReconcileError {
    /// The original path does not exist or is unreachable.
    OriginalNotFound { path: String, code: i32 },
    /// Resolving the original's canonical path failed.
    CanonicalizationFailed { path: String, code: i32 },
    /// Stat-ing or reading the link failed for a reason other than "not found".
    LinkProbeFailed { path: String, code: i32 },
    /// Renaming the link path to its backup name failed, or no free
    /// backup name could be computed.
    BackupFailed { from: String, to: String, code: i32 },
    /// The final symlink creation failed for a reason other than a benign
    /// concurrent-creation race.
    LinkCreationFailed { path: String, code: i32 },
    /// After a creation race, the link exists but points somewhere
    /// unexpected: `observed` is the target actually read back.
    LinkInconsistent { path: String, observed: String },
    /// The path to back up has no extractable basename (a root-like path).
    InvalidBackupTarget { path: String },
}

/// Mathematical form of [`ReconcileError`].
pub enum ReconcileErrorModel {
    OriginalNotFound { path: Seq<char>, code: i32 },
    CanonicalizationFailed { path: Seq<char>, code: i32 },
    LinkProbeFailed { path: Seq<char>, code: i32 },
    BackupFailed { from: Seq<char>, to: Seq<char>, code: i32 },
    LinkCreationFailed { path: Seq<char>, code: i32 },
    LinkInconsistent { path: Seq<char>, observed: Seq<char> },
    InvalidBackupTarget { path: Seq<char> },
}

impl View for ReconcileError {
    type V = ReconcileErrorModel;

    open spec fn view(&self) -> ReconcileErrorModel {
        match self {
            ReconcileError::OriginalNotFound { path, code } => ReconcileErrorModel::OriginalNotFound {
                path: path@,
                code: *code,
            },
            ReconcileError::CanonicalizationFailed { path, code } => ReconcileErrorModel::CanonicalizationFailed {
                path: path@,
                code: *code,
            },
            ReconcileError::LinkProbeFailed { path, code } => ReconcileErrorModel::LinkProbeFailed {
                path: path@,
                code: *code,
            },
            ReconcileError::BackupFailed { from, to, code } => ReconcileErrorModel::BackupFailed {
                from: from@,
                to: to@,
                code: *code,
            },
            ReconcileError::LinkCreationFailed { path, code } => ReconcileErrorModel::LinkCreationFailed {
                path: path@,
                code: *code,
            },
            ReconcileError::LinkInconsistent { path, observed } => ReconcileErrorModel::LinkInconsistent {
                path: path@,
                observed: observed@,
            },
            ReconcileError::InvalidBackupTarget { path } => ReconcileErrorModel::InvalidBackupTarget {
                path: path@,
            },
        }
    }
}

impl ReconcileError {
    /// A short human-readable description of the error kind.
    pub fn describe(&self) -> (r: &'static str)
        ensures
            r@.len() > 0,
    {
        match self {
            ReconcileError::OriginalNotFound { .. } => {
                proof {
                    reveal_strlit("original path does not exist");
                }
                "original path does not exist"
            },
            ReconcileError::CanonicalizationFailed { .. } => {
                proof {
                    reveal_strlit("failed to canonicalize the original path");
                }
                "failed to canonicalize the original path"
            },
            ReconcileError::LinkProbeFailed { .. } => {
                proof {
                    reveal_strlit("could not stat or read the link path");
                }
                "could not stat or read the link path"
            },
            ReconcileError::BackupFailed { .. } => {
                proof {
                    reveal_strlit("could not back up the existing entry");
                }
                "could not back up the existing entry"
            },
            ReconcileError::LinkCreationFailed { .. } => {
                proof {
                    reveal_strlit("could not create the symlink");
                }
                "could not create the symlink"
            },
            ReconcileError::LinkInconsistent { .. } => {
                proof {
                    reveal_strlit("link exists but points somewhere unexpected");
                }
                "link exists but points somewhere unexpected"
            },
            ReconcileError::InvalidBackupTarget { .. } => {
                proof {
                    reveal_strlit("path has no basename to build a backup name from");
                }
                "path has no basename to build a backup name from"
            },
        }
    }

    /// A copy of the error with the same mathematical value.
    pub fn duplicate(&self) -> (r: ReconcileError)
        ensures
            r@ == self@,
    {
        match self {
            ReconcileError::OriginalNotFound { path, code } => ReconcileError::OriginalNotFound {
                path: path.clone(),
                code: *code,
            },
            ReconcileError::CanonicalizationFailed { path, code } => ReconcileError::CanonicalizationFailed {
                path: path.clone(),
                code: *code,
            },
            ReconcileError::LinkProbeFailed { path, code } => ReconcileError::LinkProbeFailed {
                path: path.clone(),
                code: *code,
            },
            ReconcileError::BackupFailed { from, to, code } => ReconcileError::BackupFailed {
                from: from.clone(),
                to: to.clone(),
                code: *code,
            },
            ReconcileError::LinkCreationFailed { path, code } => ReconcileError::LinkCreationFailed {
                path: path.clone(),
                code: *code,
            },
            ReconcileError::LinkInconsistent { path, observed } => ReconcileError::LinkInconsistent {
                path: path.clone(),
                observed: observed.clone(),
            },
            ReconcileError::InvalidBackupTarget { path } => ReconcileError::InvalidBackupTarget {
                path: path.clone(),
            },
        }
    }
}

} // verus!
