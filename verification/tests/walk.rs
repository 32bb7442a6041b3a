use commit_policy::change::{Detail, NormalizedChange, Outcome, ValidationRecord};
use commit_policy::evaluate::MissingContent;
use commit_policy::config::{Action, CompiledRules, Config, RuleConfig};
use commit_policy::walk::{
    plan_walk, upstream_reference, validate_commit, CommitVerdict, FetchedChange, RangeWalk,
    WalkError, WalkPlan, WalkStep,
};

fn no_secrets() -> CompiledRules {
    Config {
        rules: vec![
            RuleConfig::FilenameMatch {
                name: "no-secrets".to_string(),
                enabled: true,
                patterns: vec!["*.pem".to_string()],
                action: Action::Forbid,
            },
            RuleConfig::FilenameMatch {
                name: "docs".to_string(),
                enabled: true,
                patterns: vec!["*.md".to_string()],
                action: Action::Require,
            },
            RuleConfig::ContentMatch {
                name: "valid-json".to_string(),
                enabled: true,
                patterns: vec!["*.json".to_string()],
            },
        ],
    }
    .compile()
    .unwrap()
}

fn added(path: &str, content: Option<&[u8]>) -> FetchedChange {
    FetchedChange {
        change: NormalizedChange::addition(path.to_string(), true, "blob".to_string()),
        content: content.map(|data| data.to_vec()),
    }
}

#[test]
fn upstream_reference_is_under_origin() {
    assert_eq!(upstream_reference("main"), "refs/remotes/origin/main");
    assert_eq!(upstream_reference("feature/x"), "refs/remotes/origin/feature/x");
    assert_eq!(upstream_reference(""), "refs/remotes/origin/");
}

#[test]
fn plan_names_head_and_upstream() {
    assert_eq!(
        plan_walk(Some("main"), Some("abc123")),
        Ok(WalkPlan {
            head: "abc123".to_string(),
            upstream: "refs/remotes/origin/main".to_string(),
        })
    );
}

#[test]
fn plan_fails_on_detached_head() {
    assert_eq!(plan_walk(None, Some("abc123")), Err(WalkError::HeadDetached));
    assert_eq!(plan_walk(None, None), Err(WalkError::HeadDetached));
}

#[test]
fn plan_fails_on_unresolved_head() {
    assert_eq!(plan_walk(Some("main"), None), Err(WalkError::HeadUnresolved));
}

#[test]
fn walk_does_not_begin_without_upstream() {
    let plan = plan_walk(Some("main"), Some("abc123")).unwrap();
    match plan.begin(None) {
        Err(e) => assert_eq!(
            e,
            WalkError::UpstreamMissing { reference: "refs/remotes/origin/main".to_string() }
        ),
        Ok(_) => panic!("a walk began without an upstream"),
    }
}

#[test]
fn walk_begins_with_nothing_validated() {
    let plan = plan_walk(Some("main"), Some("abc123")).unwrap();
    let walk = plan.begin(Some("def456")).unwrap();
    assert_eq!(walk.tip(), "def456");
    assert_eq!(walk.head(), "abc123");
    assert!(walk.verdicts().is_empty());
    assert!(walk.passed());
}

#[test]
fn walk_stops_at_head_and_excludes_it() {
    let mut walk = RangeWalk::new("tip".to_string(), "h".to_string());
    assert_eq!(walk.visit("c3"), WalkStep::Validate);
    assert_eq!(walk.visit("c2"), WalkStep::Validate);
    assert_eq!(walk.visit("h"), WalkStep::Stop);
    assert_eq!(walk.visit("c1"), WalkStep::Stop);
    assert_eq!(walk.visit("h"), WalkStep::Stop);
}

#[test]
fn walk_from_head_itself_validates_nothing() {
    let mut walk = RangeWalk::new("tip".to_string(), "h".to_string());
    assert_eq!(walk.visit("h"), WalkStep::Stop);
    assert!(walk.verdicts().is_empty());
    assert!(walk.passed());
}

#[test]
fn walk_that_never_meets_head_validates_everything() {
    let mut walk = RangeWalk::new("tip".to_string(), "h".to_string());
    for id in ["a", "b", "c", "hh", ""] {
        assert_eq!(walk.visit(id), WalkStep::Validate);
    }
}

#[test]
fn commit_without_changes_passes() {
    let verdict = validate_commit(&no_secrets(), "c1", &vec![]).unwrap();
    assert_eq!(verdict, CommitVerdict { id: "c1".to_string(), records: vec![] });
    assert!(verdict.passed());
}

#[test]
fn commit_with_confirmations_only_passes() {
    let verdict = validate_commit(&no_secrets(), "c1", &vec![added("README.md", None)]).unwrap();
    assert_eq!(
        verdict.records,
        vec![ValidationRecord {
            rule: "docs".to_string(),
            outcome: Outcome::Confirmation,
            path: "README.md".to_string(),
            detail: Detail::RequiredPattern,
        }]
    );
    assert!(verdict.passed());
}

#[test]
fn commit_is_evaluated_to_its_last_change() {
    let changes = vec![
        added("a.pem", None),
        added("ok.txt", None),
        FetchedChange { change: NormalizedChange::rewrite("moved".to_string()), content: None },
        added("b.json", Some(b"{")),
        added("c.pem", None),
        added("NOTES.md", None),
    ];
    let verdict = validate_commit(&no_secrets(), "c9", &changes).unwrap();
    assert_eq!(verdict.id, "c9");
    let seen: Vec<(&str, &str, Outcome)> =
        verdict.records.iter().map(|r| (r.rule.as_str(), r.path.as_str(), r.outcome)).collect();
    assert_eq!(
        seen,
        vec![
            ("no-secrets", "a.pem", Outcome::Violation),
            ("valid-json", "b.json", Outcome::Violation),
            ("no-secrets", "c.pem", Outcome::Violation),
            ("docs", "NOTES.md", Outcome::Confirmation),
        ]
    );
    assert!(!verdict.passed());
}

#[test]
fn observing_changes_one_by_one_gives_the_same_verdict() {
    let rules = no_secrets();
    let changes = vec![added("a.pem", None), added("b.json", Some(b"[")), added("c.md", None)];
    let whole = validate_commit(&rules, "c1", &changes).unwrap();
    let mut verdict = CommitVerdict::start("c1".to_string());
    assert!(verdict.passed());
    for fetched in &changes {
        verdict.observe(&rules, &fetched.change, fetched.content.as_deref()).unwrap();
    }
    assert_eq!(verdict, whole);
}

#[test]
fn scenario_failing_commit_in_the_middle_fails_the_run_and_all_are_reported() {
    let rules = no_secrets();
    let mut walk = RangeWalk::new("tip".to_string(), "head".to_string());
    let commits: Vec<(&str, Vec<FetchedChange>)> = vec![
        ("c1", vec![added("src/main.rs", None)]),
        ("c2", vec![added("certs/key.pem", None)]),
        ("c3", vec![added("docs/guide.md", None)]),
    ];
    for (id, changes) in &commits {
        assert_eq!(walk.visit(id), WalkStep::Validate);
        walk.record(validate_commit(&rules, id, changes).unwrap());
    }
    assert_eq!(walk.visit("head"), WalkStep::Stop);
    assert!(!walk.passed());
    let verdicts = walk.verdicts();
    assert_eq!(verdicts.len(), 3);
    assert_eq!(verdicts[0].id, "c1");
    assert!(verdicts[0].passed());
    assert_eq!(verdicts[1].id, "c2");
    assert!(!verdicts[1].passed());
    assert_eq!(verdicts[1].records.len(), 1);
    assert_eq!(verdicts[2].id, "c3");
    assert!(verdicts[2].passed());
}

#[test]
fn run_of_passing_commits_passes() {
    let rules = no_secrets();
    let mut walk = RangeWalk::new("tip".to_string(), "head".to_string());
    walk.record(validate_commit(&rules, "c1", &vec![added("a.md", None)]).unwrap());
    walk.record(validate_commit(&rules, "c2", &vec![]).unwrap());
    assert!(walk.passed());
    assert_eq!(walk.verdicts().len(), 2);
}

#[test]
fn empty_run_passes() {
    assert!(RangeWalk::new("tip".to_string(), "head".to_string()).passed());
}

#[test]
fn commit_with_a_change_that_lacks_content_gets_no_verdict() {
    let rules = no_secrets();
    let changes = vec![
        added("a.pem", None),
        added("first.json", None),
        added("second.json", None),
    ];
    assert_eq!(
        validate_commit(&rules, "c1", &changes),
        Err(MissingContent { path: "first.json".to_string() })
    );
}

#[test]
fn observing_a_change_that_lacks_content_leaves_the_verdict() {
    let rules = no_secrets();
    let mut verdict = CommitVerdict::start("c1".to_string());
    verdict.observe(&rules, &added("a.pem", None).change, None).unwrap();
    let lacking = added("x.json", None);
    assert_eq!(
        verdict.observe(&rules, &lacking.change, None),
        Err(MissingContent { path: "x.json".to_string() })
    );
    assert_eq!(verdict.records.len(), 1);
    assert_eq!(verdict.records[0].path, "a.pem");
}
