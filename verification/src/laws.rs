//! What holds of rule sets and their evaluation on every input.

use crate::change::{all_clear, Change, ChangeKind, Finding, Record};
use crate::config::{
    add_rules, compile_rules, CompileFault, CompiledRules, ContentRule, DepthRule, FilenameRule,
    RuleDecl, RuleSet,
};
use crate::content::{content_fault, ContentFault};
use crate::evaluate::{
    change_records, content_records, content_rule_applies, deletion_record, depth_finding,
    depth_record, depth_records, depth_records_between, evaluation, filename_finding,
    filename_record, filename_records, lacks_content, needs_content, segment_records,
};
use crate::path::split_segments;
use crate::walk::{commit_records, range_before, run_passed, step_on, Fetched, Verdict, Walk};
use vstd::prelude::*;

verus! {

/// The records of the filename rules `a` followed by `b` are those of `a`
/// followed by those of `b`.
pub proof fn lemma_filename_records_concat(
    a: Seq<FilenameRule>,
    b: Seq<FilenameRule>,
    path: Seq<char>,
)
    ensures
        filename_records(a + b, path) == filename_records(a, path) + filename_records(b, path),
    decreases b.len(),
{
    if b.len() > 0 {
        assert((a + b).drop_last() == a + b.drop_last());
        lemma_filename_records_concat(a, b.drop_last(), path);
    }
}

/// On one segment, the records of the depth rules `a` followed by `b` are
/// those of `a` followed by those of `b`.
pub proof fn lemma_segment_records_concat(
    a: Seq<DepthRule>,
    b: Seq<DepthRule>,
    segment: Seq<char>,
    index: int,
    path: Seq<char>,
)
    ensures
        segment_records(a + b, segment, index, path) == segment_records(a, segment, index, path)
            + segment_records(b, segment, index, path),
    decreases b.len(),
{
    if b.len() > 0 {
        assert((a + b).drop_last() == a + b.drop_last());
        lemma_segment_records_concat(a, b.drop_last(), segment, index, path);
    }
}

/// The depth records of a stretch of segments are those of its first part
/// followed by those of its second part, wherever it is cut.
pub proof fn lemma_depth_records_cut(
    rules: Seq<DepthRule>,
    segments: Seq<Seq<char>>,
    from: int,
    mid: int,
    to: int,
    path: Seq<char>,
)
    requires
        from <= mid <= to,
    ensures
        depth_records_between(rules, segments, from, to, path) == depth_records_between(
            rules,
            segments,
            from,
            mid,
            path,
        ) + depth_records_between(rules, segments, mid, to, path),
    decreases to - mid,
{
    if mid < to {
        lemma_depth_records_cut(rules, segments, from, mid, to - 1, path);
    }
}

/// Without rules there are no records, and no content is needed.
pub proof fn lemma_no_rules_no_records(change: Change, content: Option<Seq<u8>>)
    ensures
        change_records(RuleSet::empty(), change, content) == Seq::<Record>::empty(),
        evaluation(RuleSet::empty(), change, content) == Ok::<Seq<Record>, Seq<char>>(Seq::empty()),
{
    let segments = split_segments(change.path);
    lemma_no_depth_rules(segments, segments.len() as int, change.path);
}

proof fn lemma_no_depth_rules(segments: Seq<Seq<char>>, to: int, path: Seq<char>)
    ensures
        depth_records_between(Seq::empty(), segments, 0, to, path) == Seq::<Record>::empty(),
    decreases to,
{
    if to > 0 {
        lemma_no_depth_rules(segments, to - 1, path);
    }
}

/// A declaration that is not enabled is without effect: the declarations
/// compile to the same as they do without it, whatever its fields hold.
pub proof fn lemma_disabled_rule_is_ignored(decls: Seq<RuleDecl>, i: int)
    requires
        0 <= i < decls.len(),
        !decls[i].enabled(),
    ensures
        compile_rules(decls.remove(i)) == compile_rules(decls),
{
    lemma_disabled_rule_is_skipped(RuleSet::empty(), decls, i);
}

proof fn lemma_disabled_rule_is_skipped(set: RuleSet, decls: Seq<RuleDecl>, i: int)
    requires
        0 <= i < decls.len(),
        !decls[i].enabled(),
    ensures
        add_rules(set, decls.remove(i)) == add_rules(set, decls),
    decreases decls.len(),
{
    if i < decls.len() - 1 {
        assert(decls.remove(i).drop_last() == decls.drop_last().remove(i));
        lemma_disabled_rule_is_skipped(set, decls.drop_last(), i);
    }
}

/// Declarations of which none is enabled compile, whatever their patterns,
/// to a rule set that leaves no record on any change.
pub proof fn lemma_disabled_rules_are_silent(
    decls: Seq<RuleDecl>,
    change: Change,
    content: Option<Seq<u8>>,
)
    requires
        forall|i: int| 0 <= i < decls.len() ==> !(#[trigger] decls[i]).enabled(),
    ensures
        compile_rules(decls) == Ok::<RuleSet, CompileFault>(RuleSet::empty()),
        evaluation(RuleSet::empty(), change, content) == Ok::<Seq<Record>, Seq<char>>(Seq::empty()),
    decreases decls.len(),
{
    lemma_no_rules_no_records(change, content);
    if decls.len() > 0 {
        lemma_disabled_rules_are_silent(decls.drop_last(), change, content);
    }
}

/// What a change that adds or modifies an entry gets from the rules that
/// are evaluated after the filename rules.
pub open spec fn records_after_filenames(
    rules: RuleSet,
    change: Change,
    content: Option<Seq<u8>>,
) -> Seq<Record> {
    depth_records(rules.depth_limit, change.path) + (if change.entry_is_blob && content is Some {
        content_records(rules.content_match, change.path, content_fault(change.path, content->0))
    } else {
        Seq::empty()
    })
}

/// A filename rule that matches the path of an added or modified entry
/// leaves exactly one record on it, at its place among the records of the
/// other rules: a violation if the rule forbids, a confirmation if it
/// requires. This holds wherever the change is evaluated at all, that is,
/// unless it lacks the content it needs.
pub proof fn lemma_matching_filename_rule_fires_once(
    rules: RuleSet,
    j: int,
    change: Change,
    content: Option<Seq<u8>>,
)
    requires
        0 <= j < rules.filename_match.len(),
        change.writes_entry(),
        rules.filename_match[j].accepts.contains(change.path),
        !lacks_content(rules, change, content),
    ensures
        ({
            let rule = rules.filename_match[j];
            let fired = filename_record(rule, change.path);
            let before = filename_records(rules.filename_match.take(j), change.path);
            let after = filename_records(rules.filename_match.skip(j + 1), change.path)
                + records_after_filenames(rules, change, content);
            &&& evaluation(rules, change, content) == Ok::<Seq<Record>, Seq<char>>(
                before + seq![fired] + after,
            )
            &&& fired.rule == rule.name
            &&& fired.path == change.path
            &&& rule.action is Forbid ==> fired.outcome is Violation
            &&& rule.action is Require ==> fired.outcome is Confirmation
        }),
{
    let all = rules.filename_match;
    let path = change.path;
    let one = seq![all[j]];
    assert(all == all.take(j) + one + all.skip(j + 1));
    lemma_filename_records_concat(all.take(j) + one, all.skip(j + 1), path);
    lemma_filename_records_concat(all.take(j), one, path);
    assert(filename_records(one, path) == filename_finding(all[j], path)) by {
        assert(filename_records(one.drop_last(), path) == Seq::<Record>::empty());
    }
    assert(change_records(rules, change, content) =~= filename_records(all.take(j), path)
        + seq![filename_record(all[j], path)] + (filename_records(all.skip(j + 1), path)
        + records_after_filenames(rules, change, content)));
}

/// Where a name that a depth rule guards is a segment of a path, the rule
/// leaves on that occurrence exactly one violation if the segment's index is
/// at or beyond the rule's limit, and nothing if it is below; either way at
/// its place among the records of the other segments and rules.
pub proof fn lemma_depth_rule_fires_per_occurrence(
    rules: Seq<DepthRule>,
    j: int,
    path: Seq<char>,
    i: int,
)
    requires
        0 <= j < rules.len(),
        0 <= i < split_segments(path).len(),
        rules[j].patterns.contains(split_segments(path)[i]),
    ensures
        ({
            let segments = split_segments(path);
            let rule = rules[j];
            let name = segments[i];
            let fired = depth_record(rule, name, i, path);
            let before = depth_records_between(rules, segments, 0, i, path) + segment_records(
                rules.take(j),
                name,
                i,
                path,
            );
            let after = segment_records(rules.skip(j + 1), name, i, path) + depth_records_between(
                rules,
                segments,
                i + 1,
                segments.len() as int,
                path,
            );
            &&& i < rule.max_depth ==> depth_records(rules, path) == before + after
            &&& i >= rule.max_depth ==> depth_records(rules, path) == before + seq![fired] + after
            &&& fired.outcome is Violation
            &&& fired.rule == rule.name
            &&& fired.finding == (Finding::TooDeep { segment: name, depth: (i + 1) as nat })
        }),
{
    let segments = split_segments(path);
    let n = segments.len() as int;
    let name = segments[i];
    let one = seq![rules[j]];
    lemma_depth_records_cut(rules, segments, 0, i + 1, n, path);
    assert(rules == rules.take(j) + one + rules.skip(j + 1));
    lemma_segment_records_concat(rules.take(j) + one, rules.skip(j + 1), name, i, path);
    lemma_segment_records_concat(rules.take(j), one, name, i, path);
    assert(segment_records(one, name, i, path) == depth_finding(rules[j], name, i, path)) by {
        assert(segment_records(one.drop_last(), name, i, path) == Seq::<Record>::empty());
    }
}

/// The name of the deletion rule that a list of declarations puts in force:
/// that of the last enabled one, if there is one.
pub open spec fn deletion_rule_of(decls: Seq<RuleDecl>) -> Option<Seq<char>>
    decreases decls.len(),
{
    if decls.len() == 0 {
        None
    } else {
        match decls.last() {
            RuleDecl::ContentDeletion { name, enabled } if enabled => Some(name),
            _ => deletion_rule_of(decls.drop_last()),
        }
    }
}

/// `decls` holds an enabled deletion rule.
pub open spec fn forbids_deletion(decls: Seq<RuleDecl>) -> bool {
    exists|i: int|
        0 <= i < decls.len() && (#[trigger] decls[i]) is ContentDeletion && decls[i].enabled()
}

proof fn lemma_deletion_slot(set: RuleSet, decls: Seq<RuleDecl>)
    ensures
        deletion_rule_of(decls) is Some <==> forbids_deletion(decls),
        add_rules(set, decls) matches Ok(rules) ==> rules.content_deletion == (
        match deletion_rule_of(decls) {
            Some(name) => Some(name),
            None => set.content_deletion,
        }),
    decreases decls.len(),
{
    if decls.len() > 0 {
        let shorter = decls.drop_last();
        lemma_deletion_slot(set, shorter);
        let last = decls.last();
        if !(last is ContentDeletion && last.enabled()) && forbids_deletion(decls) {
            let i = choose|i: int|
                0 <= i < decls.len() && (#[trigger] decls[i]) is ContentDeletion
                    && decls[i].enabled();
            assert(shorter[i] == decls[i]);
        }
    }
}

/// A deletion gets exactly one record, a violation under the last enabled
/// deletion rule, where the declarations hold an enabled deletion rule, and
/// none where they do not; whatever the path, and whatever the other rules.
pub proof fn lemma_deletion_is_judged_by_the_deletion_rule(
    decls: Seq<RuleDecl>,
    rules: RuleSet,
    change: Change,
    content: Option<Seq<u8>>,
)
    requires
        compile_rules(decls) == Ok::<RuleSet, CompileFault>(rules),
        change.kind is Deletion,
    ensures
        evaluation(rules, change, content) == Ok::<Seq<Record>, Seq<char>>(
            change_records(rules, change, content),
        ),
        forbids_deletion(decls) ==> deletion_rule_of(decls) is Some && change_records(
            rules,
            change,
            content,
        ) == seq![deletion_record(deletion_rule_of(decls)->0, change.path)],
        !forbids_deletion(decls) ==> change_records(rules, change, content) == Seq::<
            Record,
        >::empty(),
        deletion_record(deletion_rule_of(decls)->0, change.path).outcome is Violation,
{
    lemma_deletion_slot(RuleSet::empty(), decls);
}

/// Compilation is a function of the declarations: two rule sets compiled
/// from the same declarations, each with matchers of its own, have the same
/// model and leave the same records on every change.
pub proof fn lemma_compilation_is_deterministic(
    decls: Seq<RuleDecl>,
    first: CompiledRules,
    second: CompiledRules,
    change: Change,
    content: Option<Seq<u8>>,
)
    requires
        compile_rules(decls) == Ok::<RuleSet, CompileFault>(first@),
        compile_rules(decls) == Ok::<RuleSet, CompileFault>(second@),
    ensures
        first@ == second@,
        evaluation(first@, change, content) == evaluation(second@, change, content),
        needs_content(first@, change) == needs_content(second@, change),
{
}

/// A rewrite gets no record, whatever the rules and with or without
/// content.
pub proof fn lemma_rewrite_is_left_alone(rules: RuleSet, change: Change, content: Option<Seq<u8>>)
    requires
        change.kind is Rewrite,
    ensures
        evaluation(rules, change, content) == Ok::<Seq<Record>, Seq<char>>(Seq::empty()),
{
}

/// Evaluation fails for want of content only: a change that has its
/// content, or that is no addition or modification of a file, is
/// evaluated.
pub proof fn lemma_evaluation_fails_for_want_of_content_only(
    rules: RuleSet,
    change: Change,
    content: Option<Seq<u8>>,
)
    requires
        content is Some || !change.writes_entry() || !change.entry_is_blob,
    ensures
        !lacks_content(rules, change, content),
        evaluation(rules, change, content) == Ok::<Seq<Record>, Seq<char>>(
            change_records(rules, change, content),
        ),
{
}

proof fn lemma_unmatched_content_rules(
    rules: Seq<ContentRule>,
    path: Seq<char>,
    fault: Option<ContentFault>,
)
    requires
        !content_rule_applies(rules, path),
    ensures
        content_records(rules, path, fault) == Seq::<Record>::empty(),
    decreases rules.len(),
{
    if rules.len() > 0 {
        lemma_unmatched_content_rules(rules.drop_last(), path, fault);
    }
}

/// The content of an entry matters only where `needs_content` says so:
/// elsewhere a change gets the same records with it as without it.
pub proof fn lemma_content_matters_only_where_needed(
    rules: RuleSet,
    change: Change,
    content: Option<Seq<u8>>,
)
    requires
        !needs_content(rules, change),
    ensures
        change_records(rules, change, content) == change_records(rules, change, None),
{
    if change.writes_entry() && change.entry_is_blob && content is Some {
        lemma_unmatched_content_rules(
            rules.content_match,
            change.path,
            content_fault(change.path, content->0),
        );
    }
}

/// A modification is treated as an addition of the same entry.
pub proof fn lemma_modification_is_treated_as_addition(
    rules: RuleSet,
    change: Change,
    content: Option<Seq<u8>>,
)
    requires
        change.kind is Modification,
    ensures
        change_records(rules, change, content) == change_records(
            rules,
            Change { kind: ChangeKind::Addition, ..change },
            content,
        ),
{
}

/// A confirmation never fails a commit: with one more of them the records
/// are as clear of violations as they were.
pub proof fn lemma_confirmation_does_not_fail(records: Seq<Record>, record: Record)
    requires
        record.outcome is Confirmation,
    ensures
        all_clear(records.push(record)) == all_clear(records),
{
    let longer = records.push(record);
    if !all_clear(records) {
        let i = choose|i: int| 0 <= i < records.len() && (#[trigger] records[i]).outcome
            is Violation;
        assert(longer[i] == records[i]);
    }
}

/// Every change of a commit is evaluated, whatever the changes before it
/// gave: the records of a list of changes are those of its first part
/// followed by those of its second part, wherever it is cut.
pub proof fn lemma_commit_records_concat(rules: RuleSet, a: Seq<Fetched>, b: Seq<Fetched>)
    ensures
        commit_records(rules, a + b) == commit_records(rules, a) + commit_records(rules, b),
    decreases b.len(),
{
    if b.len() > 0 {
        assert((a + b).drop_last() == a + b.drop_last());
        lemma_commit_records_concat(rules, a, b.drop_last());
    }
}

/// The verdict on a range is the conjunction of the verdicts on its
/// commits: with one more commit the range passes when it passed before and
/// the commit passes.
pub proof fn lemma_run_verdict_is_conjunction(verdicts: Seq<Verdict>, verdict: Verdict)
    ensures
        run_passed(Seq::<Verdict>::empty()),
        run_passed(verdicts.push(verdict)) == (run_passed(verdicts) && verdict.passed()),
{
    let longer = verdicts.push(verdict);
    assert(longer[verdicts.len() as int] == verdict);
    if !run_passed(verdicts) {
        let i = choose|i: int| 0 <= i < verdicts.len() && !(#[trigger] verdicts[i]).passed();
        assert(longer[i] == verdicts[i]);
    }
}

/// A failed commit does not end the walk: the step on the next commit is
/// the same whatever verdicts were recorded.
pub proof fn lemma_walk_goes_on_after_failure(walk: Walk, verdict: Verdict, commit: Seq<char>)
    ensures
        step_on(Walk { verdicts: walk.verdicts.push(verdict), ..walk }, commit) == step_on(
            walk,
            commit,
        ),
{
}

/// The commits of `lineage` that a walk validates when it comes to them one
/// after the other.
pub open spec fn validated_by(walk: Walk, lineage: Seq<Seq<char>>) -> Seq<Seq<char>>
    decreases lineage.len(),
{
    if lineage.len() == 0 {
        Seq::empty()
    } else {
        let step = step_on(walk, lineage[0]);
        let next = Walk { stopped: step is Stop, ..walk };
        (if step is Validate {
            seq![lineage[0]]
        } else {
            Seq::empty()
        }) + validated_by(next, lineage.drop_first())
    }
}

/// A walk validates the commits that come before its head in the lineage,
/// in order, and none from the head on; a walk that has stopped validates
/// nothing more.
pub proof fn lemma_walk_validates_range(walk: Walk, lineage: Seq<Seq<char>>)
    ensures
        !walk.stopped ==> validated_by(walk, lineage) == range_before(lineage, walk.head),
        walk.stopped ==> validated_by(walk, lineage) == Seq::<Seq<char>>::empty(),
    decreases lineage.len(),
{
    if lineage.len() > 0 {
        let step = step_on(walk, lineage[0]);
        let next = Walk { stopped: step is Stop, ..walk };
        lemma_walk_validates_range(next, lineage.drop_first());
    }
}

} // verus!
