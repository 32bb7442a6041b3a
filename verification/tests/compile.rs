use commit_policy::change::NormalizedChange;
use commit_policy::config::{
    Action, CompileError, CompiledContentMatchRule, CompiledRules, Config, RuleConfig,
};
use commit_policy::glob::{build_matcher, nesting_depth, PatternError, MAX_NESTING};
use globset::GlobSet;

fn strings(items: &[&str]) -> Vec<String> {
    items.iter().map(|s| s.to_string()).collect()
}

fn filename(name: &str, enabled: bool, patterns: &[&str], action: Action) -> RuleConfig {
    RuleConfig::FilenameMatch {
        name: name.to_string(),
        enabled,
        patterns: strings(patterns),
        action,
    }
}

fn depth(name: &str, enabled: bool, patterns: &[&str], max_depth: usize) -> RuleConfig {
    RuleConfig::DepthLimit {
        name: name.to_string(),
        enabled,
        patterns: strings(patterns),
        max_depth,
    }
}

fn content(name: &str, enabled: bool, patterns: &[&str]) -> RuleConfig {
    RuleConfig::ContentMatch { name: name.to_string(), enabled, patterns: strings(patterns) }
}

fn matches(globset: GlobSet, path: &str) -> bool {
    let mut rules = CompiledRules::new();
    rules.content_match.push(CompiledContentMatchRule { name: "probe".to_string(), globset });
    rules.needs_content(&NormalizedChange::addition(path.to_string(), true, String::new()))
}

fn deletion(name: &str, enabled: bool) -> RuleConfig {
    RuleConfig::ContentDeletion { name: name.to_string(), enabled }
}

#[test]
fn empty_config_compiles_to_empty_rules() {
    let rules = Config { rules: vec![] }.compile().unwrap();
    assert!(rules.filename_match.is_empty());
    assert!(rules.depth_limit.is_empty());
    assert!(rules.content_match.is_empty());
    assert_eq!(rules.content_deletion, None);
}

#[test]
fn enabled_rules_are_kept_in_declaration_order_by_kind() {
    let config = Config {
        rules: vec![
            filename("f1", true, &["*.pem"], Action::Forbid),
            depth("d1", true, &["vendor", "node_modules"], 3),
            content("c1", true, &["*.json"]),
            filename("f2", true, &["README*"], Action::Require),
            deletion("keep", true),
            depth("d2", true, &["target"], 0),
        ],
    };
    let rules = config.compile().unwrap();
    assert_eq!(rules.filename_match.len(), 2);
    assert_eq!(rules.filename_match[0].name, "f1");
    assert_eq!(rules.filename_match[0].action, Action::Forbid);
    assert_eq!(rules.filename_match[1].name, "f2");
    assert_eq!(rules.filename_match[1].action, Action::Require);
    assert_eq!(rules.depth_limit.len(), 2);
    assert_eq!(rules.depth_limit[0].name, "d1");
    assert_eq!(rules.depth_limit[0].patterns, strings(&["vendor", "node_modules"]));
    assert_eq!(rules.depth_limit[0].max_depth, 3);
    assert_eq!(rules.depth_limit[1].name, "d2");
    assert_eq!(rules.depth_limit[1].max_depth, 0);
    assert_eq!(rules.content_match.len(), 1);
    assert_eq!(rules.content_match[0].name, "c1");
    assert_eq!(rules.content_deletion, Some("keep".to_string()));
}

#[test]
fn disabled_rules_are_dropped() {
    let config = Config {
        rules: vec![
            filename("f", false, &["*.pem"], Action::Forbid),
            depth("d", false, &["vendor"], 1),
            content("c", false, &["*.json"]),
            deletion("x", false),
        ],
    };
    let rules = config.compile().unwrap();
    assert!(rules.filename_match.is_empty());
    assert!(rules.depth_limit.is_empty());
    assert!(rules.content_match.is_empty());
    assert_eq!(rules.content_deletion, None);
}

#[test]
fn malformed_pattern_in_disabled_rule_does_not_fail() {
    let config = Config {
        rules: vec![
            filename("broken", false, &["[", "{a,b"], Action::Forbid),
            content("broken-too", false, &["a\\"]),
            filename("fine", true, &["*.rs"], Action::Require),
        ],
    };
    let rules = config.compile().unwrap();
    assert_eq!(rules.filename_match.len(), 1);
    assert_eq!(rules.filename_match[0].name, "fine");
    assert!(rules.content_match.is_empty());
}

#[test]
fn malformed_pattern_in_enabled_filename_rule_fails_with_rule_and_pattern() {
    let config = Config {
        rules: vec![
            filename("ok", true, &["*.rs"], Action::Forbid),
            filename("bad", true, &["*.txt", "[", "{x"], Action::Forbid),
            filename("worse", true, &["{y"], Action::Forbid),
        ],
    };
    let err = config.compile().unwrap_err();
    assert_eq!(
        err,
        CompileError {
            rule: "bad".to_string(),
            error: PatternError::Syntax {
                pattern: "[".to_string(),
                message: "error parsing glob '[': unclosed character class; missing ']'"
                    .to_string(),
            },
        }
    );
}

#[test]
fn malformed_pattern_in_enabled_content_rule_fails_with_rule_and_pattern() {
    let config = Config { rules: vec![content("json", true, &["*.json", "{a,b"])] };
    let err = config.compile().unwrap_err();
    assert_eq!(err.rule, "json");
    match err.error {
        PatternError::Syntax { pattern, message } => {
            assert_eq!(pattern, "{a,b");
            assert_eq!(
                message,
                "error parsing glob '{a,b': unclosed alternate group; missing '}' \
                 (maybe escape '{' with '[{]'?)"
            );
        }
        other => panic!("unexpected error: {:?}", other),
    }
}

#[test]
fn depth_patterns_are_literal_names_not_globs() {
    let config = Config { rules: vec![depth("d", true, &["[", "*"], 7)] };
    let rules = config.compile().unwrap();
    assert_eq!(rules.depth_limit[0].patterns, strings(&["[", "*"]));
    assert_eq!(rules.depth_limit[0].max_depth, 7);
}

#[test]
fn last_enabled_deletion_rule_wins() {
    let config = Config {
        rules: vec![deletion("first", true), deletion("second", true), deletion("third", false)],
    };
    let rules = config.compile().unwrap();
    assert_eq!(rules.content_deletion, Some("second".to_string()));
}

#[test]
fn add_takes_one_declaration_at_a_time() {
    let mut rules = CompiledRules::new();
    assert_eq!(rules.add(&deletion("no-delete", true)), Ok(()));
    assert_eq!(rules.add(&depth("d", true, &["vendor"], 2)), Ok(()));
    assert_eq!(rules.add(&depth("off", false, &["vendor"], 2)), Ok(()));
    let err = rules.add(&filename("bad", true, &["[z-a]"], Action::Forbid)).unwrap_err();
    assert_eq!(err.rule, "bad");
    assert_eq!(
        err.error,
        PatternError::Syntax {
            pattern: "[z-a]".to_string(),
            message: "error parsing glob '[z-a]': invalid range; 'z' > 'a'".to_string(),
        }
    );
    assert_eq!(rules.depth_limit.len(), 1);
    assert!(rules.filename_match.is_empty());
    assert_eq!(rules.content_deletion, Some("no-delete".to_string()));
}

#[test]
fn compiled_matcher_matches_any_of_its_patterns() {
    let config =
        Config { rules: vec![filename("f", true, &["*.pem", "secrets/**"], Action::Forbid)] };
    let mut rules = config.compile().unwrap();
    let rule = rules.filename_match.remove(0);
    assert!(matches(rule.globset.clone(), "certs/key.pem"));
    assert!(matches(rule.globset.clone(), "secrets/a/b"));
    assert!(!matches(rule.globset, "src/main.rs"));
}

#[test]
fn matcher_of_no_patterns_matches_nothing() {
    let globset = build_matcher(&vec![]).unwrap();
    assert!(globset.is_empty());
    assert!(!matches(globset.clone(), ""));
    assert!(!matches(globset, "anything"));
}

#[test]
fn build_matcher_fails_on_first_malformed_pattern() {
    let err = build_matcher(&strings(&["ok", "a[", "b{"])).unwrap_err();
    match err {
        PatternError::Syntax { pattern, .. } => assert_eq!(pattern, "a["),
        other => panic!("unexpected error: {:?}", other),
    }
}

#[test]
fn compiling_twice_gives_rules_that_behave_alike() {
    let config = Config {
        rules: vec![
            filename("f", true, &["*.pem", "docs/**/*.md"], Action::Forbid),
            depth("d", true, &["vendor"], 1),
            deletion("x", true),
        ],
    };
    let first = config.compile().unwrap();
    let second = config.compile().unwrap();
    assert_eq!(first.depth_limit, second.depth_limit);
    assert_eq!(first.content_deletion, second.content_deletion);
    for path in ["a.pem", "docs/x/y.md", "docs/y.txt", "", "vendor/a.pem"] {
        assert_eq!(
            matches(first.filename_match[0].globset.clone(), path),
            matches(second.filename_match[0].globset.clone(), path)
        );
    }
}

#[test]
fn build_matcher_keeps_every_pattern() {
    let globset = build_matcher(&strings(&["*.json", "data/*.csv", "Makefile"])).unwrap();
    assert_eq!(globset.len(), 3);
    assert!(matches(globset.clone(), "a/b.json"));
    assert!(matches(globset.clone(), "data/t.csv"));
    assert!(matches(globset.clone(), "Makefile"));
    assert!(!matches(globset, "t.csv"));
}

#[test]
fn patterns_too_large_to_match_together_are_rejected() {
    let huge = format!("{}x", "[α-ω]".repeat(200_000));
    let err = build_matcher(&vec![huge]).unwrap_err();
    match err {
        PatternError::Rejected { message } => assert_eq!(message, "error building NFA"),
        other => panic!("unexpected error: {:?}", other),
    }
}

fn nested(levels: usize) -> String {
    format!("{}a{}", "{".repeat(levels), "}".repeat(levels))
}

fn nesting_of(pattern: &str, escapes: bool) -> usize {
    nesting_depth(&pattern.chars().collect(), escapes)
}

#[test]
fn nesting_is_the_most_groups_open_at_once() {
    assert_eq!(nesting_of("", true), 0);
    assert_eq!(nesting_of("*.rs", true), 0);
    assert_eq!(nesting_of("{a,b}", true), 1);
    assert_eq!(nesting_of("{a,b}{c,d}{e,f}", true), 1);
    assert_eq!(nesting_of("{a,{b,{c,d}}}", true), 3);
    assert_eq!(nesting_of("{a,{b,c}}{d,{e,{f,g}}}x{h}", true), 3);
    assert_eq!(nesting_of("{{{", true), 3);
    assert_eq!(nesting_of("}}{", true), 1);
    assert_eq!(nesting_of(&"{a,b}".repeat(1000), true), 1);
    assert_eq!(nesting_of(&nested(300), true), 300);
}

#[test]
fn braces_in_classes_and_behind_escapes_do_not_nest() {
    assert_eq!(nesting_of("[{]{a}", true), 1);
    assert_eq!(nesting_of("{[}]{[}]}}", true), 2);
    assert_eq!(nesting_of("[!{]{", true), 1);
    assert_eq!(nesting_of("[^]{]{", true), 1);
    assert_eq!(nesting_of("[]{]{", true), 1);
    assert_eq!(nesting_of("[]]{", true), 1);
    assert_eq!(nesting_of("[a]]{", true), 1);
    assert_eq!(nesting_of("[\\]{]", true), 1);
    assert_eq!(nesting_of("\\{\\{{", true), 1);
    assert_eq!(nesting_of("\\[{", true), 1);
    assert_eq!(nesting_of("{\\}{", true), 2);
    assert_eq!(nesting_of("\\\\{", true), 1);
    assert_eq!(nesting_of("\\{", true), 0);
}

#[test]
fn backslash_that_does_not_escape_hides_no_brace() {
    assert_eq!(nesting_of("\\{\\{{", false), 3);
    assert_eq!(nesting_of("{\\}{", false), 1);
    assert_eq!(nesting_of("\\[{]{", false), 1);
}

#[test]
fn many_groups_in_a_row_are_accepted() {
    let flat = "{a,b}".repeat(256);
    let globset = build_matcher(&vec![flat]).unwrap();
    assert!(matches(globset.clone(), &"a".repeat(256)));
    assert!(matches(globset.clone(), &"ab".repeat(128)));
    assert!(!matches(globset.clone(), &"a".repeat(255)));
    assert!(!matches(globset, &"c".repeat(256)));
    let config = Config {
        rules: vec![filename("flat", true, &["{a,b}".repeat(300).as_str()], Action::Forbid)],
    };
    assert!(config.compile().is_ok());
}

#[test]
fn pattern_nested_too_deep_is_refused_before_it_is_parsed() {
    let deep = nested(MAX_NESTING + 1);
    let err = build_matcher(&vec!["*.rs".to_string(), deep.clone(), "[".to_string()])
        .unwrap_err();
    assert_eq!(err, PatternError::Nesting { pattern: deep.clone() });
    let config = Config { rules: vec![filename("deep", true, &[deep.as_str()], Action::Forbid)] };
    assert_eq!(
        config.compile().unwrap_err(),
        CompileError { rule: "deep".to_string(), error: PatternError::Nesting { pattern: deep } }
    );
}

#[test]
fn pattern_nested_as_deep_as_allowed_is_handed_on() {
    match build_matcher(&vec![nested(MAX_NESTING)]).unwrap_err() {
        PatternError::Rejected { message } => assert_eq!(message, "error parsing pattern 0"),
        other => panic!("unexpected error: {:?}", other),
    }
    let globset = build_matcher(&vec![nested(20)]).unwrap();
    assert!(matches(globset.clone(), "a"));
    assert!(!matches(globset, "b"));
}

#[test]
fn nested_groups_that_hold_nothing_build() {
    let hollow = format!("x{}{}", "{".repeat(200), "}".repeat(200));
    let globset = build_matcher(&vec![hollow]).unwrap();
    assert!(matches(globset.clone(), "x"));
    assert!(!matches(globset, "y"));
}

#[test]
fn nested_pattern_in_a_disabled_rule_is_not_looked_at() {
    let deep = nested(100_000);
    let config = Config { rules: vec![filename("off", false, &[deep.as_str()], Action::Forbid)] };
    assert!(config.compile().unwrap().filename_match.is_empty());
}
