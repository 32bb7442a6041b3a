use commit_policy::change::{Detail, Outcome, ValidationRecord};
use commit_policy::config::CompileError;
use commit_policy::content::{ContentError, ContentFormat};
use commit_policy::evaluate::MissingContent;
use commit_policy::glob::PatternError;
use commit_policy::report::decimal;
use commit_policy::walk::WalkError;

fn record(rule: &str, outcome: Outcome, path: &str, detail: Detail) -> ValidationRecord {
    ValidationRecord { rule: rule.to_string(), outcome, path: path.to_string(), detail }
}

#[test]
fn decimal_writes_numbers_without_leading_zeros() {
    assert_eq!(decimal(0), "0");
    assert_eq!(decimal(7), "7");
    assert_eq!(decimal(9), "9");
    assert_eq!(decimal(10), "10");
    assert_eq!(decimal(42), "42");
    assert_eq!(decimal(100), "100");
    assert_eq!(decimal(9876543210), "9876543210");
    assert_eq!(decimal(usize::MAX), usize::MAX.to_string());
}

#[test]
fn deletion_record_in_words() {
    let r = record("no-delete", Outcome::Violation, "a/b.txt", Detail::DeletionForbidden);
    assert_eq!(r.describe(), "no-delete - Deletion forbidden: a/b.txt");
}

#[test]
fn filename_records_in_words() {
    let r = record("no-secrets", Outcome::Violation, "certs/key.pem", Detail::ForbiddenPattern);
    assert_eq!(r.describe(), "no-secrets - Path matches forbidden pattern: certs/key.pem");
    let r = record("docs", Outcome::Confirmation, "README.md", Detail::RequiredPattern);
    assert_eq!(r.describe(), "docs - Path matches required pattern: README.md");
}

#[test]
fn depth_record_in_words() {
    let r = record(
        "shallow-only",
        Outcome::Violation,
        "a/b/vendor/x.go",
        Detail::TooDeep { segment: "vendor".to_string(), depth: 3 },
    );
    assert_eq!(r.describe(), "shallow-only - Folder 'vendor' too deep (depth 3): a/b/vendor/x.go");
    let r = record(
        "d",
        Outcome::Violation,
        "p",
        Detail::TooDeep { segment: "".to_string(), depth: 120 },
    );
    assert_eq!(r.describe(), "d - Folder '' too deep (depth 120): p");
}

#[test]
fn content_record_in_words() {
    let error = ContentError {
        format: ContentFormat::Json,
        message: "EOF while parsing an object at line 1 column 6".to_string(),
    };
    assert_eq!(
        error.describe("config.json"),
        "Invalid JSON in config.json: EOF while parsing an object at line 1 column 6"
    );
    let detail = Detail::InvalidContent { error };
    let r = record("valid-json", Outcome::Violation, "config.json", detail);
    assert_eq!(
        r.describe(),
        "valid-json - Content validation failed in config.json: Invalid JSON in config.json: \
         EOF while parsing an object at line 1 column 6"
    );
    let error = ContentError { format: ContentFormat::Csv, message: "bad row".to_string() };
    assert_eq!(error.describe("t.csv"), "Invalid CSV in t.csv: bad row");
}

#[test]
fn compile_errors_in_words() {
    let error = CompileError {
        rule: "no-secrets".to_string(),
        error: PatternError::Syntax { pattern: "[".to_string(), message: "unclosed".to_string() },
    };
    assert_eq!(error.describe(), "Rule 'no-secrets': Invalid glob pattern '[': unclosed");
    let error = CompileError {
        rule: "big".to_string(),
        error: PatternError::Rejected { message: "too large".to_string() },
    };
    assert_eq!(error.describe(), "Rule 'big': Patterns cannot be matched together: too large");
    assert_eq!(
        PatternError::Rejected { message: "m".to_string() }.describe(),
        "Patterns cannot be matched together: m"
    );
    let error = CompileError {
        rule: "deep".to_string(),
        error: PatternError::Nesting { pattern: "{{}}".to_string() },
    };
    assert_eq!(
        error.describe(),
        "Rule 'deep': Alternates nested too deep in glob pattern '{{}}'"
    );
}

#[test]
fn walk_errors_in_words() {
    assert_eq!(WalkError::HeadUnresolved.describe(), "HEAD not found");
    assert_eq!(WalkError::HeadDetached.describe(), "HEAD is detached or not on a branch");
    assert_eq!(
        WalkError::UpstreamMissing { reference: "refs/remotes/origin/main".to_string() }.describe(),
        "Could not find refs/remotes/origin/main. Did you run 'git fetch'?"
    );
}

#[test]
fn missing_content_in_words() {
    assert_eq!(
        MissingContent { path: "a/b.json".to_string() }.describe(),
        "Content of a/b.json is needed and was not fetched"
    );
}
