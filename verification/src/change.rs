//! The changes that a commit makes to the tree, and the records that the
//! rules leave on them.

use crate::content::{ContentError, ContentFault};
use vstd::prelude::*;

verus! {

/// How a path differs between a commit's parent tree and its own.
#[derive(Debug, Clone, Copy, PartialEq, Eq)]
pub enum ChangeKind {
    Addition,
    Modification,
    Deletion,
    /// A rename or a rewrite. Recognised, and left alone by every rule.
    Rewrite,
}

/// One changed path of a commit.
#[derive(Debug, PartialEq, Eq)]
pub struct NormalizedChange {
    /// The path from the repository root, its segments separated by `/`.
    pub path: String,
    pub kind: ChangeKind,
    /// Whether the entry added or modified is a file, not a tree, a symlink
    /// or a submodule. Without meaning for a deletion or a rewrite.
    pub entry_is_blob: bool,
    /// What the content of an added or modified entry can be fetched by.
    /// Carried along, never read here.
    pub blob_ref: String,
}

/// Ghost model of a `NormalizedChange`.
pub struct Change {
    pub path: Seq<char>,
    pub kind: ChangeKind,
    pub entry_is_blob: bool,
    pub blob_ref: Seq<char>,
}

impl View for NormalizedChange {
    type V = Change;

    open spec fn view(&self) -> Change {
        Change {
            path: self.path@,
            kind: self.kind,
            entry_is_blob: self.entry_is_blob,
            blob_ref: self.blob_ref@,
        }
    }
}

impl DeepView for NormalizedChange {
    type V = Change;

    open spec fn deep_view(&self) -> Change {
        self@
    }
}

impl Change {
    /// The change adds or modifies an entry: the two are treated alike.
    pub open spec fn writes_entry(self) -> bool {
        self.kind is Addition || self.kind is Modification
    }
}

impl NormalizedChange {
    /// An entry that the commit adds.
    pub fn addition(path: String, entry_is_blob: bool, blob_ref: String) -> (change: Self)
        ensures
            change@ == (Change {
                path: path@,
                kind: ChangeKind::Addition,
                entry_is_blob,
                blob_ref: blob_ref@,
            }),
    {
        NormalizedChange { path, kind: ChangeKind::Addition, entry_is_blob, blob_ref }
    }

    /// An entry that the commit modifies.
    pub fn modification(path: String, entry_is_blob: bool, blob_ref: String) -> (change: Self)
        ensures
            change@ == (Change {
                path: path@,
                kind: ChangeKind::Modification,
                entry_is_blob,
                blob_ref: blob_ref@,
            }),
    {
        NormalizedChange { path, kind: ChangeKind::Modification, entry_is_blob, blob_ref }
    }

    /// An entry that the commit deletes.
    pub fn deletion(path: String) -> (change: Self)
        ensures
            change@ == (Change {
                path: path@,
                kind: ChangeKind::Deletion,
                entry_is_blob: false,
                blob_ref: Seq::empty(),
            }),
    {
        NormalizedChange {
            path,
            kind: ChangeKind::Deletion,
            entry_is_blob: false,
            blob_ref: String::new(),
        }
    }

    /// An entry that the commit renames or rewrites.
    pub fn rewrite(path: String) -> (change: Self)
        ensures
            change@ == (Change {
                path: path@,
                kind: ChangeKind::Rewrite,
                entry_is_blob: false,
                blob_ref: Seq::empty(),
            }),
    {
        NormalizedChange {
            path,
            kind: ChangeKind::Rewrite,
            entry_is_blob: false,
            blob_ref: String::new(),
        }
    }
}

/// What a record says of the policy.
#[derive(Debug, Clone, Copy, PartialEq, Eq)]
pub enum Outcome {
    /// The change breaks a rule. One violation fails the commit.
    Violation,
    /// The change is one that a rule asks for. For information only.
    Confirmation,
}

/// What a rule found on a changed path.
#[derive(Debug, PartialEq, Eq)]
pub enum Detail {
    /// The path was deleted while deletions are forbidden.
    DeletionForbidden,
    /// The path matches a pattern of a forbidding rule.
    ForbiddenPattern,
    /// The path matches a pattern of a requiring rule.
    RequiredPattern,
    /// The guarded name `segment` is the path's segment number `depth`,
    /// counted from one, and that is too deep.
    TooDeep { segment: String, depth: usize },
    /// The content is not a well-formed instance of its format.
    InvalidContent { error: ContentError },
}

/// The result of evaluating one rule on one change.
#[derive(Debug, PartialEq, Eq)]
pub struct ValidationRecord {
    /// The name of the rule.
    pub rule: String,
    pub outcome: Outcome,
    /// The path of the change.
    pub path: String,
    pub detail: Detail,
}

/// Ghost model of a `Detail`.
pub enum Finding {
    DeletionForbidden,
    ForbiddenPattern,
    RequiredPattern,
    TooDeep { segment: Seq<char>, depth: nat },
    InvalidContent { fault: ContentFault },
}

/// Ghost model of a `ValidationRecord`.
pub struct Record {
    pub rule: Seq<char>,
    pub outcome: Outcome,
    pub path: Seq<char>,
    pub finding: Finding,
}

impl View for Detail {
    type V = Finding;

    open spec fn view(&self) -> Finding {
        match *self {
            Detail::DeletionForbidden => Finding::DeletionForbidden,
            Detail::ForbiddenPattern => Finding::ForbiddenPattern,
            Detail::RequiredPattern => Finding::RequiredPattern,
            Detail::TooDeep { segment, depth } => Finding::TooDeep {
                segment: segment@,
                depth: depth as nat,
            },
            Detail::InvalidContent { error } => Finding::InvalidContent { fault: error@ },
        }
    }
}

impl View for ValidationRecord {
    type V = Record;

    open spec fn view(&self) -> Record {
        Record {
            rule: self.rule@,
            outcome: self.outcome,
            path: self.path@,
            finding: self.detail@,
        }
    }
}

impl DeepView for ValidationRecord {
    type V = Record;

    open spec fn deep_view(&self) -> Record {
        self@
    }
}

impl ValidationRecord {
    /// Whether the record fails the commit it was found in.
    pub fn is_violation(&self) -> (violation: bool)
        ensures
            violation == (self@.outcome is Violation),
    {
        match self.outcome {
            Outcome::Violation => true,
            Outcome::Confirmation => false,
        }
    }
}

/// No record of `records` is a violation.
pub open spec fn all_clear(records: Seq<Record>) -> bool {
    forall|i: int| 0 <= i < records.len() ==> !((#[trigger] records[i]).outcome is Violation)
}

} // verus!
