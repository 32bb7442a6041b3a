//! The walk over a range of commits: which commits are in the range, the
//! verdict on each, and the verdict on the whole.
//!
//! The commits come from the tip of the upstream branch, each followed by
//! its first parent, and the walk ends where it meets the local head, which
//! is not itself validated. Every commit before that is validated, whether
//! or not an earlier one failed.

use crate::change::{all_clear, Change, NormalizedChange, Record, ValidationRecord};
use crate::config::{CompiledRules, RuleSet};
use crate::evaluate::{bytes_of, change_records, lacks_content, MissingContent};
use vstd::prelude::*;
use vstd::string::StringExecFns;

verus! {

/// Why no range of commits could be settled on.
#[derive(Debug, PartialEq, Eq)]
pub enum WalkError {
    /// The head points at no commit.
    HeadUnresolved,
    /// The head is not on a named branch.
    HeadDetached,
    /// The upstream reference of the branch does not exist.
    UpstreamMissing { reference: String },
}

/// Ghost model of a `WalkError`.
pub enum WalkFault {
    HeadUnresolved,
    HeadDetached,
    UpstreamMissing { reference: Seq<char> },
}

impl View for WalkError {
    type V = WalkFault;

    open spec fn view(&self) -> WalkFault {
        match *self {
            WalkError::HeadUnresolved => WalkFault::HeadUnresolved,
            WalkError::HeadDetached => WalkFault::HeadDetached,
            WalkError::UpstreamMissing { reference } => WalkFault::UpstreamMissing {
                reference: reference@,
            },
        }
    }
}

/// The name of the reference that tracks `branch` upstream.
pub open spec fn upstream_name(branch: Seq<char>) -> Seq<char> {
    "refs/remotes/origin/"@ + branch
}

/// The name of the reference that tracks `branch` upstream.
pub fn upstream_reference(branch: &str) -> (reference: String)
    ensures
        reference@ == upstream_name(branch@),
{
    let mut reference = String::from_str("refs/remotes/origin/");
    reference.append(branch);
    reference
}

/// Where a walk is to end, and the reference it is to start from.
#[derive(Debug, PartialEq, Eq)]
pub struct WalkPlan {
    /// The commit that the head points at.
    pub head: String,
    /// The name of the upstream reference, yet to be looked up.
    pub upstream: String,
}

/// Ghost model of a `WalkPlan`.
pub struct Plan {
    pub head: Seq<char>,
    pub upstream: Seq<char>,
}

impl View for WalkPlan {
    type V = Plan;

    open spec fn view(&self) -> Plan {
        Plan { head: self.head@, upstream: self.upstream@ }
    }
}

/// The text behind an optional string slice.
pub open spec fn text_of(text: Option<&str>) -> Option<Seq<char>> {
    match text {
        Some(s) => Some(s@),
        None => None,
    }
}

/// The plan for a head on `branch` that points at the commit `head`, each
/// as far as it could be resolved. A head without a branch is reported
/// before one without a commit.
pub open spec fn plan_of(branch: Option<Seq<char>>, head: Option<Seq<char>>) -> Result<
    Plan,
    WalkFault,
> {
    match branch {
        None => Err(WalkFault::HeadDetached),
        Some(name) => match head {
            None => Err(WalkFault::HeadUnresolved),
            Some(id) => Ok(Plan { head: id, upstream: upstream_name(name) }),
        },
    }
}

/// Settles where a walk ends and which reference it starts from, given the
/// short name of the branch that the head is on and the commit that it
/// points at.
pub fn plan_walk(branch: Option<&str>, head: Option<&str>) -> (r: Result<WalkPlan, WalkError>)
    ensures
        match r {
            Ok(plan) => plan_of(text_of(branch), text_of(head)) == Ok::<Plan, WalkFault>(plan@),
            Err(e) => plan_of(text_of(branch), text_of(head)) == Err::<Plan, WalkFault>(e@),
        },
{
    match branch {
        None => Err(WalkError::HeadDetached),
        Some(name) => match head {
            None => Err(WalkError::HeadUnresolved),
            Some(id) => Ok(WalkPlan { head: id.to_owned(), upstream: upstream_reference(name) }),
        },
    }
}

/// The verdict on one commit: the records that its changes left, in the
/// order in which they were evaluated.
#[derive(Debug, PartialEq, Eq)]
pub struct CommitVerdict {
    /// The commit's identifier.
    pub id: String,
    pub records: Vec<ValidationRecord>,
}

/// Ghost model of a `CommitVerdict`.
pub struct Verdict {
    pub id: Seq<char>,
    pub records: Seq<Record>,
}

impl Verdict {
    /// A commit passes when none of its records is a violation.
    pub open spec fn passed(self) -> bool {
        all_clear(self.records)
    }
}

impl View for CommitVerdict {
    type V = Verdict;

    open spec fn view(&self) -> Verdict {
        Verdict { id: self.id@, records: self.records.deep_view() }
    }
}

impl DeepView for CommitVerdict {
    type V = Verdict;

    open spec fn deep_view(&self) -> Verdict {
        self@
    }
}

/// A changed path together with the content of its entry, where that was
/// fetched.
#[derive(Debug, PartialEq, Eq)]
pub struct FetchedChange {
    pub change: NormalizedChange,
    pub content: Option<Vec<u8>>,
}

/// Ghost model of a `FetchedChange`.
pub struct Fetched {
    pub change: Change,
    pub content: Option<Seq<u8>>,
}

impl View for FetchedChange {
    type V = Fetched;

    open spec fn view(&self) -> Fetched {
        Fetched {
            change: self.change@,
            content: match self.content {
                Some(data) => Some(data@),
                None => None,
            },
        }
    }
}

impl DeepView for FetchedChange {
    type V = Fetched;

    open spec fn deep_view(&self) -> Fetched {
        self@
    }
}

/// The records that a rule set leaves on the changes of a commit: those of
/// each change, in the order of the changes.
pub open spec fn commit_records(rules: RuleSet, changes: Seq<Fetched>) -> Seq<Record>
    decreases changes.len(),
{
    if changes.len() == 0 {
        Seq::empty()
    } else {
        commit_records(rules, changes.drop_last()) + change_records(
            rules,
            changes.last().change,
            changes.last().content,
        )
    }
}

/// A whole range passes when each of its commits does. An empty range
/// passes.
pub open spec fn run_passed(verdicts: Seq<Verdict>) -> bool {
    forall|i: int| 0 <= i < verdicts.len() ==> (#[trigger] verdicts[i]).passed()
}

impl CommitVerdict {
    /// The verdict on a commit of which no change has been seen yet.
    pub fn start(id: String) -> (verdict: CommitVerdict)
        ensures
            verdict@ == (Verdict { id: id@, records: Seq::empty() }),
    {
        let verdict = CommitVerdict { id, records: Vec::new() };
        assert(verdict@.records =~= Seq::empty());
        verdict
    }

    /// Evaluates one more change of the commit and keeps its records.
    /// Evaluation goes on after a violation: every change is looked at. A
    /// change that lacks the content it needs leaves the verdict as it was.
    pub fn observe(
        &mut self,
        rules: &CompiledRules,
        change: &NormalizedChange,
        content: Option<&[u8]>,
    ) -> (r: Result<(), MissingContent>)
        ensures
            match r {
                Ok(()) => !lacks_content(rules@, change@, bytes_of(content)) && final(self)@ == (
                Verdict {
                    records: old(self)@.records + change_records(
                        rules@,
                        change@,
                        bytes_of(content),
                    ),
                    ..old(self)@
                }),
                Err(e) => lacks_content(rules@, change@, bytes_of(content)) && e@ == change@.path
                    && final(self)@ == old(self)@,
            },
    {
        match rules.evaluate(change, content) {
            Ok(mut found) => {
                let ghost added = found.deep_view();
                self.records.append(&mut found);
                assert(self.records.deep_view() =~= old(self)@.records + added);
                Ok(())
            },
            Err(e) => Err(e),
        }
    }

    /// Whether the commit passed: none of its records is a violation.
    pub fn passed(&self) -> (passed: bool)
        ensures
            passed == self@.passed(),
    {
        let mut i: usize = 0;
        while i < self.records.len()
            invariant
                i <= self.records.len(),
                forall|k: int|
                    0 <= k < i ==> !((#[trigger] self.records.deep_view()[k]).outcome is Violation),
            decreases self.records.len() - i,
        {
            if self.records[i].is_violation() {
                assert(self.records.deep_view()[i as int].outcome is Violation);
                return false;
            }
            i = i + 1;
        }
        true
    }
}

/// `i` is the position of the first change that lacks the content it needs.
pub open spec fn first_lacking(rules: RuleSet, changes: Seq<Fetched>, i: int) -> bool {
    &&& 0 <= i < changes.len()
    &&& lacks_content(rules, changes[i].change, changes[i].content)
    &&& forall|j: int|
        0 <= j < i ==> !lacks_content(rules, (#[trigger] changes[j]).change, changes[j].content)
}

/// Validates one commit: evaluates the rule set on each of its changes, in
/// order and to the last. Fails, with no verdict, on the first change that
/// lacks the content it needs.
pub fn validate_commit(rules: &CompiledRules, id: &str, changes: &Vec<FetchedChange>) -> (r: Result<
    CommitVerdict,
    MissingContent,
>)
    ensures
        match r {
            Ok(verdict) => verdict@ == (Verdict {
                id: id@,
                records: commit_records(rules@, changes.deep_view()),
            }) && forall|i: int| !first_lacking(rules@, changes.deep_view(), i),
            Err(e) => exists|i: int|
                first_lacking(rules@, changes.deep_view(), i) && e@
                    == changes.deep_view()[i].change.path,
        },
{
    let mut verdict = CommitVerdict::start(id.to_owned());
    let ghost all = changes.deep_view();
    let mut i: usize = 0;
    while i < changes.len()
        invariant
            i <= changes.len(),
            all == changes.deep_view(),
            verdict@.id == id@,
            verdict@.records == commit_records(rules@, all.take(i as int)),
            forall|j: int|
                0 <= j < i ==> !lacks_content(rules@, (#[trigger] all[j]).change, all[j].content),
        decreases changes.len() - i,
    {
        assert(all.take(i + 1).drop_last() == all.take(i as int));
        let observed = match &changes[i].content {
            Some(data) => verdict.observe(rules, &changes[i].change, Some(data.as_slice())),
            None => verdict.observe(rules, &changes[i].change, None),
        };
        match observed {
            Ok(()) => {},
            Err(e) => {
                assert(first_lacking(rules@, all, i as int));
                return Err(e);
            },
        }
        i = i + 1;
    }
    assert(all.take(i as int) == all);
    Ok(verdict)
}

/// What to do with a commit that the walk comes to.
#[derive(Debug, Clone, Copy, PartialEq, Eq)]
pub enum WalkStep {
    /// The commit is in the range: validate it and go on to its parent.
    Validate,
    /// The walk has reached the head: the commit is not validated, and
    /// none after it.
    Stop,
}

/// A walk from the upstream tip towards the head, with the verdicts on the
/// commits validated so far.
#[derive(Debug)]
pub struct RangeWalk {
    tip: String,
    head: String,
    stopped: bool,
    verdicts: Vec<CommitVerdict>,
}

/// Ghost model of a `RangeWalk`.
pub struct Walk {
    /// The commit from which the walk starts.
    pub tip: Seq<char>,
    /// The commit at which the walk ends.
    pub head: Seq<char>,
    /// The walk has met its head.
    pub stopped: bool,
    /// The verdicts recorded, oldest last.
    pub verdicts: Seq<Verdict>,
}

/// The step that a walk takes on coming to `commit`.
pub open spec fn step_on(walk: Walk, commit: Seq<char>) -> WalkStep {
    if walk.stopped || commit == walk.head {
        WalkStep::Stop
    } else {
        WalkStep::Validate
    }
}

/// The commits of `lineage` that a walk ending at `head` validates: those
/// before the first occurrence of `head`, or all of them if there is none.
pub open spec fn range_before(lineage: Seq<Seq<char>>, head: Seq<char>) -> Seq<Seq<char>>
    decreases lineage.len(),
{
    if lineage.len() == 0 || lineage[0] == head {
        Seq::empty()
    } else {
        seq![lineage[0]] + range_before(lineage.drop_first(), head)
    }
}

impl View for RangeWalk {
    type V = Walk;

    closed spec fn view(&self) -> Walk {
        Walk {
            tip: self.tip@,
            head: self.head@,
            stopped: self.stopped,
            verdicts: self.verdicts.deep_view(),
        }
    }
}

impl WalkPlan {
    /// Begins the walk, given the commit that the upstream reference was
    /// found to point at, if it was found at all.
    pub fn begin(self, upstream_tip: Option<&str>) -> (r: Result<RangeWalk, WalkError>)
        ensures
            match r {
                Ok(walk) => upstream_tip is Some && walk@ == (Walk {
                    tip: upstream_tip->0@,
                    head: self@.head,
                    stopped: false,
                    verdicts: Seq::empty(),
                }),
                Err(e) => upstream_tip is None && e@ == (WalkFault::UpstreamMissing {
                    reference: self@.upstream,
                }),
            },
    {
        match upstream_tip {
            Some(tip) => Ok(RangeWalk::new(tip.to_owned(), self.head)),
            None => Err(WalkError::UpstreamMissing { reference: self.upstream }),
        }
    }
}

impl RangeWalk {
    /// A walk that starts from `tip`, ends at `head` and has seen no commit
    /// yet.
    pub fn new(tip: String, head: String) -> (walk: RangeWalk)
        ensures
            walk@ == (Walk { tip: tip@, head: head@, stopped: false, verdicts: Seq::empty() }),
    {
        let walk = RangeWalk { tip, head, stopped: false, verdicts: Vec::new() };
        assert(walk@.verdicts =~= Seq::empty());
        walk
    }

    /// The commit from which the walk starts.
    pub fn tip(&self) -> (tip: &str)
        ensures
            tip@ == self@.tip,
    {
        self.tip.as_str()
    }

    /// The commit at which the walk ends.
    pub fn head(&self) -> (head: &str)
        ensures
            head@ == self@.head,
    {
        self.head.as_str()
    }

    /// Comes to the next commit of the lineage and says what to do with it.
    /// Once the walk has stopped it stays stopped.
    pub fn visit(&mut self, commit: &str) -> (step: WalkStep)
        ensures
            step == step_on(old(self)@, commit@),
            final(self)@ == (Walk { stopped: step is Stop, ..old(self)@ }),
    {
        if self.stopped {
            return WalkStep::Stop;
        }
        if self.head == commit.to_owned() {
            self.stopped = true;
            return WalkStep::Stop;
        }
        WalkStep::Validate
    }

    /// Keeps the verdict on a commit that was validated.
    pub fn record(&mut self, verdict: CommitVerdict)
        ensures
            final(self)@ == (Walk {
                verdicts: old(self)@.verdicts.push(verdict@),
                ..old(self)@
            }),
    {
        let ghost before = self.verdicts.deep_view();
        self.verdicts.push(verdict);
        assert(self.verdicts.deep_view() =~= before.push(verdict@));
    }

    /// The verdicts on the commits validated so far, in the order of the
    /// walk.
    pub fn verdicts(&self) -> (verdicts: &Vec<CommitVerdict>)
        ensures
            verdicts.deep_view() == self@.verdicts,
    {
        &self.verdicts
    }

    /// The verdict on the range walked so far: whether every commit passed.
    pub fn passed(&self) -> (passed: bool)
        ensures
            passed == run_passed(self@.verdicts),
    {
        let mut i: usize = 0;
        while i < self.verdicts.len()
            invariant
                i <= self.verdicts.len(),
                forall|k: int| 0 <= k < i ==> (#[trigger] self.verdicts.deep_view()[k]).passed(),
            decreases self.verdicts.len() - i,
        {
            if !self.verdicts[i].passed() {
                assert(!self.verdicts.deep_view()[i as int].passed());
                return false;
            }
            i = i + 1;
        }
        true
    }
}

} // verus!
