//! Glob pattern sets: parsed once, then matched against many paths.
//!
//! Parsing and matching are done by the `globset` crate. What the crate
//! computes is named here by uninterpreted functions, and the few calls into
//! it state their results over those names; none of that is proved.
//! `build_matcher`, the loop that feeds a list of patterns to the crate, is
//! verified against them. A matcher, once built, is known by the paths it
//! accepts and by nothing else.
//!
//! The crate works through nested alternates by recursion, as deep as the
//! braces of a pattern nest. So that no input can exhaust the stack, a
//! pattern whose braces nest deeper than `MAX_NESTING` is refused here before
//! the crate sees it. Groups in a row do not nest, however many they are. A
//! pattern nested that deep is of little use to the crate either: unless its
//! groups hold nothing, the expression made of it nests deeper than the regex
//! engine takes, and the set is refused.
//!
//! Every glob is parsed with the crate's default options. The names stand
//! for what the crate computes on the platform that the library is built
//! for: where `\` separates the segments of a path, the crate reads it so in
//! patterns and paths alike, and does not take it for an escape.

use crate::path::chars_of;
use globset::{Glob, GlobSet, GlobSetBuilder};
use vstd::prelude::*;

verus! {

#[verifier::external_type_specification]
#[verifier::external_body]
pub struct ExGlob(globset::Glob);

#[verifier::external_type_specification]
#[verifier::external_body]
pub struct ExGlobSetBuilder(globset::GlobSetBuilder);

#[verifier::external_type_specification]
#[verifier::external_body]
pub struct ExGlobSet(globset::GlobSet);

#[verifier::external_type_specification]
#[verifier::external_body]
pub struct ExGlobError(globset::Error);

/// What `globset::Glob::new` finds wrong with `pattern`: `None` where the
/// pattern parses, else the text of the error it returns.
pub uninterp spec fn glob_diagnostic(pattern: Seq<char>) -> Option<Seq<char>>;

/// The pattern text that a parsed glob was made from (`Glob::glob`).
pub uninterp spec fn glob_text(glob: Glob) -> Seq<char>;

/// The text that a `globset::Error` displays.
pub uninterp spec fn glob_error_text(err: globset::Error) -> Seq<char>;

/// The pattern texts of the globs added to a builder so far, in order.
pub uninterp spec fn builder_patterns(builder: GlobSetBuilder) -> Seq<Seq<char>>;

/// The paths that a set accepts: those on which `GlobSet::is_match` is true.
pub uninterp spec fn accepted_by(set: GlobSet) -> Set<Seq<char>>;

/// What `globset::GlobSetBuilder::build` finds wrong with a list of parsed
/// patterns taken together: `None` where it builds a set, else the text of
/// the error it returns.
pub uninterp spec fn glob_set_diagnostic(patterns: Seq<Seq<char>>) -> Option<Seq<char>>;

/// Whether the glob that `Glob::new` parses from `pattern` matches `path`.
pub uninterp spec fn glob_matches(pattern: Seq<char>, path: Seq<char>) -> bool;

/// Whether `std::path::is_separator` takes `c` for a separator of path
/// segments, on the platform that the library is built for.
pub uninterp spec fn path_separator(c: char) -> bool;

/// A list of patterns accepts a path when one of them matches it.
pub open spec fn glob_set_accepts(patterns: Seq<Seq<char>>, path: Seq<char>) -> bool {
    exists|i: int| 0 <= i < patterns.len() && glob_matches(#[trigger] patterns[i], path)
}

/// The paths that a list of patterns accepts.
pub open spec fn accepted_paths(patterns: Seq<Seq<char>>) -> Set<Seq<char>> {
    Set::new(|path: Seq<char>| glob_set_accepts(patterns, path))
}

/// Where the reading of a pattern stands with respect to braces.
#[derive(Debug, Clone, Copy, PartialEq, Eq)]
pub enum ScanMode {
    /// Outside a character class: a brace opens or closes a group.
    Plain,
    /// Behind an escaping backslash: the next character stands for itself.
    Escaped,
    /// Behind the `[` of a class: a `!` or `^` negates it, and any other
    /// character is its first.
    ClassOpen,
    /// Behind the negation of a class: the next character is its first.
    ClassFirst,
    /// Inside a class, behind its first character: `]` closes it.
    Class,
}

/// The reading of a pattern up to some point.
pub struct BraceScan {
    pub mode: ScanMode,
    /// The groups of alternates that are open.
    pub level: nat,
    /// The most groups that were open at once.
    pub deepest: nat,
}

/// The reading of a pattern after one more character. Inside a class and
/// behind an escape a brace is a character like any other. `escapes` says
/// whether a backslash escapes.
pub open spec fn scan_step(scan: BraceScan, c: char, escapes: bool) -> BraceScan {
    match scan.mode {
        ScanMode::Plain => {
            if c == '{' {
                BraceScan {
                    level: scan.level + 1,
                    deepest: if scan.level + 1 > scan.deepest {
                        scan.level + 1
                    } else {
                        scan.deepest
                    },
                    ..scan
                }
            } else if c == '}' {
                BraceScan {
                    level: if scan.level > 0 {
                        (scan.level - 1) as nat
                    } else {
                        0
                    },
                    ..scan
                }
            } else if c == '[' {
                BraceScan { mode: ScanMode::ClassOpen, ..scan }
            } else if c == '\\' && escapes {
                BraceScan { mode: ScanMode::Escaped, ..scan }
            } else {
                scan
            }
        },
        ScanMode::Escaped => BraceScan { mode: ScanMode::Plain, ..scan },
        ScanMode::ClassOpen => {
            if c == '!' || c == '^' {
                BraceScan { mode: ScanMode::ClassFirst, ..scan }
            } else {
                BraceScan { mode: ScanMode::Class, ..scan }
            }
        },
        ScanMode::ClassFirst => BraceScan { mode: ScanMode::Class, ..scan },
        ScanMode::Class => {
            if c == ']' {
                BraceScan { mode: ScanMode::Plain, ..scan }
            } else {
                scan
            }
        },
    }
}

/// The reading of a whole pattern, from its first character on.
pub open spec fn brace_scan(pattern: Seq<char>, escapes: bool) -> BraceScan
    decreases pattern.len(),
{
    if pattern.len() == 0 {
        BraceScan { mode: ScanMode::Plain, level: 0, deepest: 0 }
    } else {
        scan_step(brace_scan(pattern.drop_last(), escapes), pattern.last(), escapes)
    }
}

/// How deep the groups of alternates of a pattern nest.
pub open spec fn nesting(pattern: Seq<char>, escapes: bool) -> nat {
    brace_scan(pattern, escapes).deepest
}

/// The deepest nesting of alternates that is handed to the crate.
pub const MAX_NESTING: usize = 255;

/// A backslash escapes in a pattern unless it separates path segments.
pub open spec fn backslash_escapes() -> bool {
    !path_separator('\\')
}

/// The alternates of the pattern nest deeper than is worked through.
pub open spec fn nested_too_deep(pattern: Seq<char>) -> bool {
    nesting(pattern, backslash_escapes()) > MAX_NESTING
}

/// `std::path::is_separator`. Trusted: the answer depends on the character
/// alone.
#[verifier::external_body]
fn is_separator(c: char) -> (separates: bool)
    ensures
        separates == path_separator(c),
{
    std::path::is_separator(c)
}

/// `globset::Glob::new`. Trusted: whether a pattern parses, and with what
/// error, depends on its text alone; the glob returned remembers that text.
/// The crate recurses once for each level of nested alternates, which the
/// precondition bounds: it opens a group at each `{` and closes one at each
/// `}` that stands neither in a character class nor behind an escaping
/// backslash, as `brace_scan` reads them.
#[verifier::external_body]
fn parse_glob(pattern: &str) -> (r: Result<Glob, globset::Error>)
    requires
        !nested_too_deep(pattern@),
    ensures
        match r {
            Ok(glob) => glob_diagnostic(pattern@) is None && glob_text(glob) == pattern@,
            Err(err) => glob_diagnostic(pattern@) == Some(glob_error_text(err)),
        },
{
    Glob::new(pattern)
}

/// `globset::GlobSetBuilder::new`. Trusted: a new builder holds no glob.
#[verifier::external_body]
fn new_builder() -> (builder: GlobSetBuilder)
    ensures
        builder_patterns(builder) == Seq::<Seq<char>>::empty(),
{
    GlobSetBuilder::new()
}

/// `globset::GlobSetBuilder::add`. Trusted: the glob is appended to those
/// the builder holds.
#[verifier::external_body]
fn add_glob(builder: &mut GlobSetBuilder, glob: Glob)
    ensures
        builder_patterns(*final(builder)) == builder_patterns(*old(builder)).push(glob_text(glob)),
{
    builder.add(glob);
}

/// `globset::GlobSetBuilder::build`, on a builder whose globs all came from
/// `parse_glob`. Trusted: whether the set builds, and with what error,
/// depends on the patterns alone; the set returned accepts a path exactly
/// when one of the builder's globs matches it, as the crate documents.
#[verifier::external_body]
fn build_set(builder: &GlobSetBuilder) -> (r: Result<GlobSet, globset::Error>)
    ensures
        match r {
            Ok(set) => glob_set_diagnostic(builder_patterns(*builder)) is None && forall|
                path: Seq<char>,
            |
                #[trigger] accepted_by(set).contains(path) == (exists|i: int|
                    0 <= i < builder_patterns(*builder).len() && glob_matches(
                        #[trigger] builder_patterns(*builder)[i],
                        path,
                    )),
            Err(err) => glob_set_diagnostic(builder_patterns(*builder)) == Some(
                glob_error_text(err),
            ),
        },
{
    builder.build()
}

/// `globset::Error`'s `Display`, through `to_string`. Trusted: the text is
/// the one that `glob_error_text` names.
#[verifier::external_body]
fn error_message(err: &globset::Error) -> (text: String)
    ensures
        text@ == glob_error_text(*err),
{
    err.to_string()
}

/// `globset::GlobSet::is_match`, on a path given as text. Trusted: the
/// answer depends on the set and the path alone.
#[verifier::external_body]
pub(crate) fn matches_path(set: &GlobSet, path: &str) -> (hit: bool)
    ensures
        hit == accepted_by(*set).contains(path@),
{
    set.is_match(path)
}

/// Why a list of patterns could not be made into a matcher.
#[derive(Debug, PartialEq, Eq)]
pub enum PatternError {
    /// The alternates of `pattern` nest deeper than `MAX_NESTING`.
    Nesting { pattern: String },
    /// `pattern` is not a well-formed glob.
    Syntax { pattern: String, message: String },
    /// Every pattern is well formed, but the set of them was refused.
    Rejected { message: String },
}

/// Ghost model of a `PatternError`.
pub enum PatternFault {
    Nesting { pattern: Seq<char> },
    Syntax { pattern: Seq<char>, message: Seq<char> },
    Rejected { message: Seq<char> },
}

impl View for PatternError {
    type V = PatternFault;

    open spec fn view(&self) -> PatternFault {
        match *self {
            PatternError::Nesting { pattern } => PatternFault::Nesting { pattern: pattern@ },
            PatternError::Syntax { pattern, message } => PatternFault::Syntax {
                pattern: pattern@,
                message: message@,
            },
            PatternError::Rejected { message } => PatternFault::Rejected { message: message@ },
        }
    }
}

/// What is wrong with one pattern, if anything: alternates nested too deep,
/// or else what the parser finds.
pub open spec fn glob_fault(pattern: Seq<char>) -> Option<PatternFault> {
    if nested_too_deep(pattern) {
        Some(PatternFault::Nesting { pattern })
    } else {
        match glob_diagnostic(pattern) {
            Some(message) => Some(PatternFault::Syntax { pattern, message }),
            None => None,
        }
    }
}

/// `i` is the position of the first pattern that has a fault.
pub open spec fn first_faulty(patterns: Seq<Seq<char>>, i: int) -> bool {
    &&& 0 <= i < patterns.len()
    &&& glob_fault(patterns[i]) is Some
    &&& forall|j: int| 0 <= j < i ==> glob_fault(#[trigger] patterns[j]) is None
}

/// The fault of a pattern list, if it has one: that of its first faulty
/// pattern, or else the refusal of the set as a whole.
pub open spec fn pattern_fault(patterns: Seq<Seq<char>>) -> Option<PatternFault> {
    if exists|i: int| first_faulty(patterns, i) {
        glob_fault(patterns[choose|i: int| first_faulty(patterns, i)])
    } else {
        match glob_set_diagnostic(patterns) {
            Some(message) => Some(PatternFault::Rejected { message }),
            None => None,
        }
    }
}

/// Measures how deep the groups of alternates of a pattern nest, where
/// `escapes` says whether a backslash escapes.
pub fn nesting_depth(pattern: &Vec<char>, escapes: bool) -> (depth: usize)
    ensures
        depth == nesting(pattern@, escapes),
{
    let mut mode = ScanMode::Plain;
    let mut level: usize = 0;
    let mut deepest: usize = 0;
    let mut i: usize = 0;
    while i < pattern.len()
        invariant
            i <= pattern.len(),
            level <= i,
            deepest <= i,
            brace_scan(pattern@.take(i as int), escapes) == (BraceScan {
                mode,
                level: level as nat,
                deepest: deepest as nat,
            }),
        decreases pattern.len() - i,
    {
        let c = pattern[i];
        assert(pattern@.take(i + 1).drop_last() == pattern@.take(i as int));
        match mode {
            ScanMode::Plain => {
                if c == '{' {
                    level = level + 1;
                    if level > deepest {
                        deepest = level;
                    }
                } else if c == '}' {
                    if level > 0 {
                        level = level - 1;
                    }
                } else if c == '[' {
                    mode = ScanMode::ClassOpen;
                } else if c == '\\' && escapes {
                    mode = ScanMode::Escaped;
                }
            },
            ScanMode::Escaped => {
                mode = ScanMode::Plain;
            },
            ScanMode::ClassOpen => {
                if c == '!' || c == '^' {
                    mode = ScanMode::ClassFirst;
                } else {
                    mode = ScanMode::Class;
                }
            },
            ScanMode::ClassFirst => {
                mode = ScanMode::Class;
            },
            ScanMode::Class => {
                if c == ']' {
                    mode = ScanMode::Plain;
                }
            },
        }
        i = i + 1;
    }
    assert(pattern@.take(i as int) == pattern@);
    deepest
}

/// Compiles `patterns` into one matcher, which accepts the paths that one
/// of the patterns matches. Fails on the first pattern that has a fault,
/// without looking at the ones after it.
pub fn build_matcher(patterns: &Vec<String>) -> (r: Result<GlobSet, PatternError>)
    ensures
        match r {
            Ok(set) => pattern_fault(patterns.deep_view()) is None && accepted_by(set)
                == accepted_paths(patterns.deep_view()),
            Err(e) => pattern_fault(patterns.deep_view()) == Some(e@),
        },
{
    let ghost texts = patterns.deep_view();
    let escapes = !is_separator('\\');
    let mut builder = new_builder();
    let mut i: usize = 0;
    while i < patterns.len()
        invariant
            i <= patterns.len(),
            escapes == backslash_escapes(),
            texts == patterns.deep_view(),
            builder_patterns(builder) == texts.take(i as int),
            forall|j: int| 0 <= j < i ==> glob_fault(#[trigger] texts[j]) is None,
        decreases patterns.len() - i,
    {
        let pattern = &patterns[i];
        if nesting_depth(&chars_of(pattern.as_str()), escapes) > MAX_NESTING {
            assert(first_faulty(texts, i as int));
            return Err(PatternError::Nesting { pattern: pattern.clone() });
        }
        match parse_glob(pattern.as_str()) {
            Ok(glob) => {
                add_glob(&mut builder, glob);
            },
            Err(err) => {
                assert(first_faulty(texts, i as int));
                return Err(
                    PatternError::Syntax { pattern: pattern.clone(), message: error_message(&err) },
                );
            },
        }
        i = i + 1;
    }
    assert(texts.take(i as int) == texts);
    match build_set(&builder) {
        Ok(set) => {
            assert(accepted_by(set) =~= accepted_paths(texts));
            Ok(set)
        },
        Err(err) => Err(PatternError::Rejected { message: error_message(&err) }),
    }
}

} // verus!
