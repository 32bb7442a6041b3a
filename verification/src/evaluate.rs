//! The rule evaluator: the records that a rule set leaves on one change.
//!
//! A deletion is answered by the deletion rule alone. An addition and a
//! modification are treated alike: first every filename rule in turn, then
//! every segment of the path against every depth rule, then, for a file,
//! every content rule. A rewrite is left alone.
//!
//! The content of a file is fetched by the caller, and only where a content
//! rule accepts the path: `needs_content` says so. A change that needs its
//! content and comes without it is not evaluated at all.

use crate::change::{
    Change, ChangeKind, Detail, Finding, NormalizedChange, Outcome, Record, ValidationRecord,
};
use crate::config::{
    Action, CompiledContentMatchRule, CompiledDepthRule, CompiledFilenameRule, CompiledRules,
    ContentRule, DepthRule, FilenameRule, RuleSet,
};
use crate::content::{content_fault, validate_blob_content, ContentError, ContentFault};
use crate::glob::matches_path;
use crate::path::{chars_of, path_segments, same_text, split_segments};
use vstd::prelude::*;

verus! {

/// The record of a deleted path under the deletion rule named `rule`.
pub open spec fn deletion_record(rule: Seq<char>, path: Seq<char>) -> Record {
    Record { rule, outcome: Outcome::Violation, path, finding: Finding::DeletionForbidden }
}

/// The records of a deleted path: one violation if a deletion rule is in
/// force, and nothing else.
pub open spec fn deletion_records(rule: Option<Seq<char>>, path: Seq<char>) -> Seq<Record> {
    match rule {
        Some(name) => seq![deletion_record(name, path)],
        None => Seq::empty(),
    }
}

/// The record that a filename rule leaves on a path it matches: a violation
/// if it forbids, a confirmation if it requires.
pub open spec fn filename_record(rule: FilenameRule, path: Seq<char>) -> Record {
    match rule.action {
        Action::Forbid => Record {
            rule: rule.name,
            outcome: Outcome::Violation,
            path,
            finding: Finding::ForbiddenPattern,
        },
        Action::Require => Record {
            rule: rule.name,
            outcome: Outcome::Confirmation,
            path,
            finding: Finding::RequiredPattern,
        },
    }
}

/// What one filename rule contributes on a path: its record if it accepts
/// the path, else nothing.
pub open spec fn filename_finding(rule: FilenameRule, path: Seq<char>) -> Seq<Record> {
    if rule.accepts.contains(path) {
        seq![filename_record(rule, path)]
    } else {
        Seq::empty()
    }
}

/// The contributions of the filename rules, in the order of the rules.
pub open spec fn filename_records(rules: Seq<FilenameRule>, path: Seq<char>) -> Seq<Record>
    decreases rules.len(),
{
    if rules.len() == 0 {
        Seq::empty()
    } else {
        filename_records(rules.drop_last(), path) + filename_finding(rules.last(), path)
    }
}

/// A depth rule is broken by `segment` at the zero-based `index` when it
/// guards that very name and the index is not below its limit.
pub open spec fn depth_hit(rule: DepthRule, segment: Seq<char>, index: int) -> bool {
    rule.patterns.contains(segment) && index >= rule.max_depth
}

/// The record of a guarded name found too deep. The depth shown counts from
/// one.
pub open spec fn depth_record(
    rule: DepthRule,
    segment: Seq<char>,
    index: int,
    path: Seq<char>,
) -> Record {
    Record {
        rule: rule.name,
        outcome: Outcome::Violation,
        path,
        finding: Finding::TooDeep { segment, depth: (index + 1) as nat },
    }
}

/// What one depth rule contributes on one segment of a path.
pub open spec fn depth_finding(
    rule: DepthRule,
    segment: Seq<char>,
    index: int,
    path: Seq<char>,
) -> Seq<Record> {
    if depth_hit(rule, segment, index) {
        seq![depth_record(rule, segment, index, path)]
    } else {
        Seq::empty()
    }
}

/// The contributions of the depth rules on one segment, in the order of the
/// rules.
pub open spec fn segment_records(
    rules: Seq<DepthRule>,
    segment: Seq<char>,
    index: int,
    path: Seq<char>,
) -> Seq<Record>
    decreases rules.len(),
{
    if rules.len() == 0 {
        Seq::empty()
    } else {
        segment_records(rules.drop_last(), segment, index, path) + depth_finding(
            rules.last(),
            segment,
            index,
            path,
        )
    }
}

/// The contributions of the depth rules on the segments numbered from
/// `from` up to, not including, `to`, in the order of the segments.
pub open spec fn depth_records_between(
    rules: Seq<DepthRule>,
    segments: Seq<Seq<char>>,
    from: int,
    to: int,
    path: Seq<char>,
) -> Seq<Record>
    decreases to - from,
{
    if to <= from {
        Seq::empty()
    } else {
        depth_records_between(rules, segments, from, to - 1, path) + segment_records(
            rules,
            segments[to - 1],
            to - 1,
            path,
        )
    }
}

/// The contributions of the depth rules on a path: segment by segment, and
/// for each segment rule by rule.
pub open spec fn depth_records(rules: Seq<DepthRule>, path: Seq<char>) -> Seq<Record> {
    let segments = split_segments(path);
    depth_records_between(rules, segments, 0, segments.len() as int, path)
}

/// The record that a content rule leaves on a file whose content is at
/// fault.
pub open spec fn content_record(rule: ContentRule, path: Seq<char>, fault: ContentFault) -> Record {
    Record {
        rule: rule.name,
        outcome: Outcome::Violation,
        path,
        finding: Finding::InvalidContent { fault },
    }
}

/// What one content rule contributes on a file: a violation if it accepts
/// the path and the content is at fault, else nothing.
pub open spec fn content_finding(
    rule: ContentRule,
    path: Seq<char>,
    fault: Option<ContentFault>,
) -> Seq<Record> {
    if rule.accepts.contains(path) && fault is Some {
        seq![content_record(rule, path, fault->0)]
    } else {
        Seq::empty()
    }
}

/// The contributions of the content rules, in the order of the rules.
pub open spec fn content_records(
    rules: Seq<ContentRule>,
    path: Seq<char>,
    fault: Option<ContentFault>,
) -> Seq<Record>
    decreases rules.len(),
{
    if rules.len() == 0 {
        Seq::empty()
    } else {
        content_records(rules.drop_last(), path, fault) + content_finding(rules.last(), path, fault)
    }
}

/// Some content rule accepts the path.
pub open spec fn content_rule_applies(rules: Seq<ContentRule>, path: Seq<char>) -> bool {
    exists|i: int| 0 <= i < rules.len() && (#[trigger] rules[i]).accepts.contains(path)
}

/// The content of the changed entry has to be fetched: the change adds or
/// modifies a file, and a content rule matches its path.
pub open spec fn needs_content(rules: RuleSet, change: Change) -> bool {
    change.writes_entry() && change.entry_is_blob && content_rule_applies(
        rules.content_match,
        change.path,
    )
}

/// The records that a rule set leaves on a change, in the order in which
/// the rules are evaluated. `content` is the content of the changed entry
/// where it was fetched.
pub open spec fn change_records(rules: RuleSet, change: Change, content: Option<Seq<u8>>) -> Seq<
    Record,
> {
    match change.kind {
        ChangeKind::Deletion => deletion_records(rules.content_deletion, change.path),
        ChangeKind::Rewrite => Seq::empty(),
        ChangeKind::Addition | ChangeKind::Modification => {
            filename_records(rules.filename_match, change.path) + depth_records(
                rules.depth_limit,
                change.path,
            ) + (if change.entry_is_blob && content is Some {
                content_records(
                    rules.content_match,
                    change.path,
                    content_fault(change.path, content->0),
                )
            } else {
                Seq::empty()
            })
        },
    }
}

/// Content that a change needs was not handed in.
#[derive(Debug, PartialEq, Eq)]
pub struct MissingContent {
    /// The path of the change.
    pub path: String,
}

impl View for MissingContent {
    type V = Seq<char>;

    open spec fn view(&self) -> Seq<char> {
        self.path@
    }
}

/// The change needs its content, and there is none.
pub open spec fn lacks_content(rules: RuleSet, change: Change, content: Option<Seq<u8>>) -> bool {
    needs_content(rules, change) && content is None
}

/// What evaluating a change gives: its records, or, where it lacks the
/// content it needs, its path and no record at all.
pub open spec fn evaluation(rules: RuleSet, change: Change, content: Option<Seq<u8>>) -> Result<
    Seq<Record>,
    Seq<char>,
> {
    if lacks_content(rules, change, content) {
        Err(change.path)
    } else {
        Ok(change_records(rules, change, content))
    }
}

/// The bytes behind an optional slice.
pub open spec fn bytes_of(content: Option<&[u8]>) -> Option<Seq<u8>> {
    match content {
        Some(data) => Some(data@),
        None => None,
    }
}

impl CompiledFilenameRule {
    /// The record that the rule leaves on a path it matches.
    pub fn record(&self, path: &str) -> (record: ValidationRecord)
        ensures
            record@ == filename_record(self@, path@),
    {
        match self.action {
            Action::Forbid => ValidationRecord {
                rule: self.name.clone(),
                outcome: Outcome::Violation,
                path: path.to_owned(),
                detail: Detail::ForbiddenPattern,
            },
            Action::Require => ValidationRecord {
                rule: self.name.clone(),
                outcome: Outcome::Confirmation,
                path: path.to_owned(),
                detail: Detail::RequiredPattern,
            },
        }
    }
}

impl CompiledContentMatchRule {
    /// The record that the rule leaves on a file whose content is at fault.
    pub fn record(&self, path: &str, error: &ContentError) -> (record: ValidationRecord)
        ensures
            record@ == content_record(self@, path@, error@),
    {
        ValidationRecord {
            rule: self.name.clone(),
            outcome: Outcome::Violation,
            path: path.to_owned(),
            detail: Detail::InvalidContent { error: error.clone() },
        }
    }
}

impl CompiledDepthRule {
    /// Looks for `segment` among the names that the rule guards, and gives
    /// the position of the first that is equal to it.
    pub fn guard_of(&self, segment: &Vec<char>) -> (found: Option<usize>)
        ensures
            match found {
                Some(k) => k < self.patterns.len() && self.patterns[k as int]@ == segment@
                    && forall|j: int| 0 <= j < k ==> (#[trigger] self.patterns[j])@ != segment@,
                None => !self@.patterns.contains(segment@),
            },
    {
        let mut k: usize = 0;
        while k < self.patterns.len()
            invariant
                k <= self.patterns.len(),
                forall|j: int| 0 <= j < k ==> (#[trigger] self.patterns[j])@ != segment@,
            decreases self.patterns.len() - k,
        {
            let name = chars_of(self.patterns[k].as_str());
            if same_text(&name, segment) {
                return Some(k);
            }
            k = k + 1;
        }
        None
    }

    /// What the rule contributes on the segment at `index` of a path.
    pub fn check_segment(&self, segments: &Vec<Vec<char>>, index: usize, path: &str) -> (found:
        Option<ValidationRecord>)
        requires
            index < segments.len(),
        ensures
            match found {
                Some(record) => depth_finding(self@, segments[index as int]@, index as int, path@)
                    == seq![record@],
                None => depth_finding(self@, segments[index as int]@, index as int, path@)
                    == Seq::<Record>::empty(),
            },
    {
        if index < self.max_depth {
            return None;
        }
        match self.guard_of(&segments[index]) {
            Some(k) => {
                assert(self@.patterns[k as int] == segments[index as int]@);
                Some(
                    ValidationRecord {
                        rule: self.name.clone(),
                        outcome: Outcome::Violation,
                        path: path.to_owned(),
                        detail: Detail::TooDeep {
                            segment: self.patterns[k].clone(),
                            depth: index + 1,
                        },
                    },
                )
            },
            None => None,
        }
    }
}

/// Appends to `records` what the filename rules contribute on `path`.
pub fn filename_findings(
    rules: &Vec<CompiledFilenameRule>,
    path: &str,
    records: &mut Vec<ValidationRecord>,
)
    ensures
        final(records).deep_view() == old(records).deep_view() + filename_records(
            rules.deep_view(),
            path@,
        ),
{
    let ghost before = records.deep_view();
    let ghost all = rules.deep_view();
    let mut j: usize = 0;
    while j < rules.len()
        invariant
            j <= rules.len(),
            all == rules.deep_view(),
            records.deep_view() == before + filename_records(all.take(j as int), path@),
        decreases rules.len() - j,
    {
        let ghost so_far = records.deep_view();
        assert(all.take(j + 1).drop_last() == all.take(j as int));
        if matches_path(&rules[j].globset, path) {
            let record = rules[j].record(path);
            records.push(record);
            assert(records.deep_view() =~= so_far.push(record@));
        }
        j = j + 1;
    }
    assert(all.take(j as int) == all);
}

/// Appends to `records` what the depth rules contribute on the segment at
/// `index` of a path.
pub fn segment_findings(
    rules: &Vec<CompiledDepthRule>,
    segments: &Vec<Vec<char>>,
    index: usize,
    path: &str,
    records: &mut Vec<ValidationRecord>,
)
    requires
        index < segments.len(),
    ensures
        final(records).deep_view() == old(records).deep_view() + segment_records(
            rules.deep_view(),
            segments[index as int]@,
            index as int,
            path@,
        ),
{
    let ghost before = records.deep_view();
    let ghost all = rules.deep_view();
    let ghost segment = segments[index as int]@;
    let mut j: usize = 0;
    while j < rules.len()
        invariant
            j <= rules.len(),
            index < segments.len(),
            all == rules.deep_view(),
            segment == segments[index as int]@,
            records.deep_view() == before + segment_records(
                all.take(j as int),
                segment,
                index as int,
                path@,
            ),
        decreases rules.len() - j,
    {
        let ghost so_far = records.deep_view();
        assert(all.take(j + 1).drop_last() == all.take(j as int));
        match rules[j].check_segment(segments, index, path) {
            Some(record) => {
                records.push(record);
                assert(records.deep_view() =~= so_far.push(record@));
            },
            None => {},
        }
        j = j + 1;
    }
    assert(all.take(j as int) == all);
}

/// Appends to `records` what the depth rules contribute on `path`.
pub fn depth_findings(
    rules: &Vec<CompiledDepthRule>,
    path: &str,
    records: &mut Vec<ValidationRecord>,
)
    ensures
        final(records).deep_view() == old(records).deep_view() + depth_records(
            rules.deep_view(),
            path@,
        ),
{
    let ghost before = records.deep_view();
    let text = chars_of(path);
    let segments = path_segments(&text);
    let ghost names = split_segments(path@);
    let mut i: usize = 0;
    while i < segments.len()
        invariant
            i <= segments.len(),
            names == segments.deep_view(),
            records.deep_view() == before + depth_records_between(
                rules.deep_view(),
                names,
                0,
                i as int,
                path@,
            ),
        decreases segments.len() - i,
    {
        assert(names[i as int] =~= segments[i as int]@);
        segment_findings(rules, &segments, i, path, records);
        i = i + 1;
    }
}

/// Appends to `records` what the content rules contribute on the file at
/// `path` with the content `data`. The content is checked once, and only if
/// a rule matches the path.
pub fn content_findings(
    rules: &Vec<CompiledContentMatchRule>,
    path: &str,
    data: &[u8],
    records: &mut Vec<ValidationRecord>,
)
    ensures
        final(records).deep_view() == old(records).deep_view() + content_records(
            rules.deep_view(),
            path@,
            content_fault(path@, data@),
        ),
{
    let ghost before = records.deep_view();
    let ghost all = rules.deep_view();
    let ghost fault = content_fault(path@, data@);
    let mut checked: Option<Result<(), ContentError>> = None;
    let mut j: usize = 0;
    while j < rules.len()
        invariant
            j <= rules.len(),
            all == rules.deep_view(),
            fault == content_fault(path@, data@),
            match checked {
                Some(Ok(())) => fault is None,
                Some(Err(e)) => fault == Some(e@),
                None => true,
            },
            records.deep_view() == before + content_records(all.take(j as int), path@, fault),
        decreases rules.len() - j,
    {
        let ghost so_far = records.deep_view();
        assert(all.take(j + 1).drop_last() == all.take(j as int));
        if matches_path(&rules[j].globset, path) {
            if checked.is_none() {
                checked = Some(validate_blob_content(path, data));
            }
            match &checked {
                Some(Err(error)) => {
                    let record = rules[j].record(path, error);
                    records.push(record);
                    assert(records.deep_view() =~= so_far.push(record@));
                },
                _ => {},
            }
        }
        j = j + 1;
    }
    assert(all.take(j as int) == all);
}

impl CompiledRules {
    /// Whether the content of the changed entry has to be fetched before
    /// the change is evaluated.
    pub fn needs_content(&self, change: &NormalizedChange) -> (needed: bool)
        ensures
            needed == needs_content(self@, change@),
    {
        let writes = match change.kind {
            ChangeKind::Addition | ChangeKind::Modification => true,
            ChangeKind::Deletion | ChangeKind::Rewrite => false,
        };
        if !writes || !change.entry_is_blob {
            return false;
        }
        let ghost all = self.content_match.deep_view();
        let mut j: usize = 0;
        while j < self.content_match.len()
            invariant
                j <= self.content_match.len(),
                change@.writes_entry(),
                change@.entry_is_blob,
                all == self.content_match.deep_view(),
                forall|k: int| 0 <= k < j ==> !all[k].accepts.contains(change.path@),
            decreases self.content_match.len() - j,
        {
            if matches_path(&self.content_match[j].globset, change.path.as_str()) {
                assert(all[j as int].accepts.contains(change.path@));
                return true;
            }
            j = j + 1;
        }
        false
    }

    /// Evaluates the rule set on one change. `content` is the content of the
    /// changed entry, which the caller fetches where `needs_content` says
    /// so. Where it is needed and missing, nothing is evaluated: a change
    /// is not passed on the strength of content that nobody looked at.
    pub fn evaluate(&self, change: &NormalizedChange, content: Option<&[u8]>) -> (r: Result<
        Vec<ValidationRecord>,
        MissingContent,
    >)
        ensures
            match r {
                Ok(records) => evaluation(self@, change@, bytes_of(content)) == Ok::<
                    Seq<Record>,
                    Seq<char>,
                >(records.deep_view()),
                Err(e) => evaluation(self@, change@, bytes_of(content)) == Err::<
                    Seq<Record>,
                    Seq<char>,
                >(e@),
            },
            change@.kind is Rewrite ==> r is Ok && r->Ok_0@.len() == 0,
    {
        let path = change.path.as_str();
        if content.is_none() && self.needs_content(change) {
            return Err(MissingContent { path: path.to_owned() });
        }
        let mut records: Vec<ValidationRecord> = Vec::new();
        match change.kind {
            ChangeKind::Deletion => {
                match &self.content_deletion {
                    Some(name) => {
                        let record = ValidationRecord {
                            rule: name.clone(),
                            outcome: Outcome::Violation,
                            path: path.to_owned(),
                            detail: Detail::DeletionForbidden,
                        };
                        records.push(record);
                    },
                    None => {},
                }
            },
            ChangeKind::Rewrite => {},
            ChangeKind::Addition | ChangeKind::Modification => {
                filename_findings(&self.filename_match, path, &mut records);
                depth_findings(&self.depth_limit, path, &mut records);
                if change.entry_is_blob {
                    match content {
                        Some(data) => {
                            content_findings(&self.content_match, path, data, &mut records);
                        },
                        None => {},
                    }
                }
            },
        }
        assert(records.deep_view() =~= change_records(self@, change@, bytes_of(content)));
        Ok(records)
    }
}

} // verus!
