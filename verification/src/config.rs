//! Rule declarations and their compilation into the rule set that commits
//! are checked against.

use crate::glob::{
    accepted_by, accepted_paths, build_matcher, pattern_fault, PatternError, PatternFault,
};
use globset::GlobSet;
use vstd::prelude::*;

verus! {

/// What a filename rule says of the paths it matches.
#[derive(Debug, Clone, Copy, PartialEq, Eq)]
pub enum Action {
    /// A matching path may not be added or modified.
    Forbid,
    /// A matching path is noted as one that the policy asks for.
    Require,
}

/// One rule as it is declared. A rule that is not enabled has no effect,
/// whatever its other fields hold.
#[derive(Debug, PartialEq, Eq)]
pub enum RuleConfig {
    /// Paths matching one of the glob `patterns` are forbidden or required.
    FilenameMatch { name: String, enabled: bool, patterns: Vec<String>, action: Action },
    /// The directory names in `patterns` may not occur at index `max_depth`
    /// of a path's segments, or deeper.
    DepthLimit { name: String, enabled: bool, patterns: Vec<String>, max_depth: usize },
    /// Files matching one of the glob `patterns` must be well formed.
    ContentMatch { name: String, enabled: bool, patterns: Vec<String> },
    /// No file may be deleted.
    ContentDeletion { name: String, enabled: bool },
}

/// The declared rules, in order.
#[derive(Debug, PartialEq, Eq)]
pub struct Config {
    pub rules: Vec<RuleConfig>,
}

/// Ghost model of a `RuleConfig`.
pub enum RuleDecl {
    FilenameMatch { name: Seq<char>, enabled: bool, patterns: Seq<Seq<char>>, action: Action },
    DepthLimit { name: Seq<char>, enabled: bool, patterns: Seq<Seq<char>>, max_depth: nat },
    ContentMatch { name: Seq<char>, enabled: bool, patterns: Seq<Seq<char>> },
    ContentDeletion { name: Seq<char>, enabled: bool },
}

impl RuleDecl {
    pub open spec fn enabled(self) -> bool {
        match self {
            RuleDecl::FilenameMatch { enabled, .. } => enabled,
            RuleDecl::DepthLimit { enabled, .. } => enabled,
            RuleDecl::ContentMatch { enabled, .. } => enabled,
            RuleDecl::ContentDeletion { enabled, .. } => enabled,
        }
    }
}

impl View for RuleConfig {
    type V = RuleDecl;

    open spec fn view(&self) -> RuleDecl {
        match *self {
            RuleConfig::FilenameMatch { name, enabled, patterns, action } => {
                RuleDecl::FilenameMatch {
                    name: name@,
                    enabled,
                    patterns: patterns.deep_view(),
                    action,
                }
            },
            RuleConfig::DepthLimit { name, enabled, patterns, max_depth } => RuleDecl::DepthLimit {
                name: name@,
                enabled,
                patterns: patterns.deep_view(),
                max_depth: max_depth as nat,
            },
            RuleConfig::ContentMatch { name, enabled, patterns } => RuleDecl::ContentMatch {
                name: name@,
                enabled,
                patterns: patterns.deep_view(),
            },
            RuleConfig::ContentDeletion { name, enabled } => RuleDecl::ContentDeletion {
                name: name@,
                enabled,
            },
        }
    }
}

impl DeepView for RuleConfig {
    type V = RuleDecl;

    open spec fn deep_view(&self) -> RuleDecl {
        self@
    }
}

impl View for Config {
    type V = Seq<RuleDecl>;

    open spec fn view(&self) -> Seq<RuleDecl> {
        self.rules.deep_view()
    }
}

/// An enabled filename rule, its patterns compiled into one matcher.
#[derive(Debug)]
pub struct CompiledFilenameRule {
    pub name: String,
    pub globset: GlobSet,
    pub action: Action,
}

/// An enabled depth rule. Its patterns are directory names, taken literally.
#[derive(Debug, PartialEq, Eq)]
pub struct CompiledDepthRule {
    pub name: String,
    pub patterns: Vec<String>,
    pub max_depth: usize,
}

/// An enabled content rule, its patterns compiled into one matcher.
#[derive(Debug)]
pub struct CompiledContentMatchRule {
    pub name: String,
    pub globset: GlobSet,
}

/// The rules in force: the enabled declarations of each kind, in the order
/// they were declared, and the name of the deletion rule if one is enabled.
#[derive(Debug)]
pub struct CompiledRules {
    pub filename_match: Vec<CompiledFilenameRule>,
    pub depth_limit: Vec<CompiledDepthRule>,
    pub content_match: Vec<CompiledContentMatchRule>,
    pub content_deletion: Option<String>,
}

/// Ghost model of a `CompiledFilenameRule`: a matcher is the paths it
/// accepts.
pub struct FilenameRule {
    pub name: Seq<char>,
    pub accepts: Set<Seq<char>>,
    pub action: Action,
}

/// Ghost model of a `CompiledDepthRule`.
pub struct DepthRule {
    pub name: Seq<char>,
    pub patterns: Seq<Seq<char>>,
    pub max_depth: nat,
}

/// Ghost model of a `CompiledContentMatchRule`: a matcher is the paths it
/// accepts.
pub struct ContentRule {
    pub name: Seq<char>,
    pub accepts: Set<Seq<char>>,
}

/// Ghost model of a `CompiledRules`.
pub struct RuleSet {
    pub filename_match: Seq<FilenameRule>,
    pub depth_limit: Seq<DepthRule>,
    pub content_match: Seq<ContentRule>,
    pub content_deletion: Option<Seq<char>>,
}

impl RuleSet {
    /// The rule set with no rule in it.
    pub open spec fn empty() -> RuleSet {
        RuleSet {
            filename_match: Seq::empty(),
            depth_limit: Seq::empty(),
            content_match: Seq::empty(),
            content_deletion: None,
        }
    }
}

impl View for CompiledFilenameRule {
    type V = FilenameRule;

    open spec fn view(&self) -> FilenameRule {
        FilenameRule { name: self.name@, accepts: accepted_by(self.globset), action: self.action }
    }
}

impl DeepView for CompiledFilenameRule {
    type V = FilenameRule;

    open spec fn deep_view(&self) -> FilenameRule {
        self@
    }
}

impl View for CompiledDepthRule {
    type V = DepthRule;

    open spec fn view(&self) -> DepthRule {
        DepthRule {
            name: self.name@,
            patterns: self.patterns.deep_view(),
            max_depth: self.max_depth as nat,
        }
    }
}

impl DeepView for CompiledDepthRule {
    type V = DepthRule;

    open spec fn deep_view(&self) -> DepthRule {
        self@
    }
}

impl View for CompiledContentMatchRule {
    type V = ContentRule;

    open spec fn view(&self) -> ContentRule {
        ContentRule { name: self.name@, accepts: accepted_by(self.globset) }
    }
}

impl DeepView for CompiledContentMatchRule {
    type V = ContentRule;

    open spec fn deep_view(&self) -> ContentRule {
        self@
    }
}

impl View for CompiledRules {
    type V = RuleSet;

    open spec fn view(&self) -> RuleSet {
        RuleSet {
            filename_match: self.filename_match.deep_view(),
            depth_limit: self.depth_limit.deep_view(),
            content_match: self.content_match.deep_view(),
            content_deletion: match self.content_deletion {
                Some(name) => Some(name@),
                None => None,
            },
        }
    }
}

/// A rule that could not be compiled, and what was wrong with its patterns.
#[derive(Debug, PartialEq, Eq)]
pub struct CompileError {
    pub rule: String,
    pub error: PatternError,
}

/// Ghost model of a `CompileError`.
pub struct CompileFault {
    pub rule: Seq<char>,
    pub fault: PatternFault,
}

impl View for CompileError {
    type V = CompileFault;

    open spec fn view(&self) -> CompileFault {
        CompileFault { rule: self.rule@, fault: self.error@ }
    }
}

/// The rule set `set` with the declaration `decl` taken in.
///
/// A declaration that is not enabled leaves the set as it is, before any of
/// its patterns is looked at. An enabled one is appended to the rules of its
/// kind, or, for a deletion rule, takes the place of the one before it. A
/// filename or content rule accepts the paths that one of its patterns
/// matches; where its patterns have a fault, it fails instead.
pub open spec fn add_rule(set: RuleSet, decl: RuleDecl) -> Result<RuleSet, CompileFault> {
    if !decl.enabled() {
        Ok(set)
    } else {
        match decl {
            RuleDecl::FilenameMatch { name, patterns, action, .. } => match pattern_fault(
                patterns,
            ) {
                Some(fault) => Err(CompileFault { rule: name, fault }),
                None => Ok(
                    RuleSet {
                        filename_match: set.filename_match.push(
                            FilenameRule { name, accepts: accepted_paths(patterns), action },
                        ),
                        ..set
                    },
                ),
            },
            RuleDecl::DepthLimit { name, patterns, max_depth, .. } => Ok(
                RuleSet {
                    depth_limit: set.depth_limit.push(DepthRule { name, patterns, max_depth }),
                    ..set
                },
            ),
            RuleDecl::ContentMatch { name, patterns, .. } => match pattern_fault(patterns) {
                Some(fault) => Err(CompileFault { rule: name, fault }),
                None => Ok(
                    RuleSet {
                        content_match: set.content_match.push(
                            ContentRule { name, accepts: accepted_paths(patterns) },
                        ),
                        ..set
                    },
                ),
            },
            RuleDecl::ContentDeletion { name, .. } => Ok(
                RuleSet { content_deletion: Some(name), ..set },
            ),
        }
    }
}

/// The declarations `decls` taken into `set` one after the other, up to the
/// first that fails.
pub open spec fn add_rules(set: RuleSet, decls: Seq<RuleDecl>) -> Result<RuleSet, CompileFault>
    decreases decls.len(),
{
    if decls.len() == 0 {
        Ok(set)
    } else {
        match add_rules(set, decls.drop_last()) {
            Ok(before) => add_rule(before, decls.last()),
            Err(fault) => Err(fault),
        }
    }
}

/// What compiling `decls` gives: the rule set of the enabled declarations,
/// or the fault of the first enabled declaration that has one.
pub open spec fn compile_rules(decls: Seq<RuleDecl>) -> Result<RuleSet, CompileFault> {
    add_rules(RuleSet::empty(), decls)
}

/// A failure is final: once a prefix of the declarations fails, so does the
/// whole list, with the same fault.
pub proof fn lemma_fault_is_final(set: RuleSet, decls: Seq<RuleDecl>, n: int)
    requires
        0 <= n <= decls.len(),
        add_rules(set, decls.take(n)) is Err,
    ensures
        add_rules(set, decls) == add_rules(set, decls.take(n)),
    decreases decls.len(),
{
    if n < decls.len() {
        assert(decls.drop_last().take(n) == decls.take(n));
        lemma_fault_is_final(set, decls.drop_last(), n);
    } else {
        assert(decls.take(n) == decls);
    }
}

impl CompiledRules {
    /// The rule set with no rule in it.
    pub fn new() -> (rules: CompiledRules)
        ensures
            rules@ == RuleSet::empty(),
    {
        let rules = CompiledRules {
            filename_match: Vec::new(),
            depth_limit: Vec::new(),
            content_match: Vec::new(),
            content_deletion: None,
        };
        assert(rules@.filename_match =~= Seq::empty());
        assert(rules@.depth_limit =~= Seq::empty());
        assert(rules@.content_match =~= Seq::empty());
        rules
    }

    /// Takes one declaration into the rule set. On failure the set is as it
    /// was.
    pub fn add(&mut self, rule: &RuleConfig) -> (r: Result<(), CompileError>)
        ensures
            match r {
                Ok(()) => add_rule(old(self)@, rule@) == Ok::<RuleSet, CompileFault>(final(self)@),
                Err(e) => add_rule(old(self)@, rule@) == Err::<RuleSet, CompileFault>(e@)
                    && final(self)@ == old(self)@,
            },
    {
        match rule {
            RuleConfig::FilenameMatch { name, enabled, patterns, action } => {
                if !*enabled {
                    return Ok(());
                }
                match build_matcher(patterns) {
                    Ok(globset) => {
                        let ghost before = self.filename_match.deep_view();
                        let compiled = CompiledFilenameRule {
                            name: name.clone(),
                            globset,
                            action: *action,
                        };
                        self.filename_match.push(compiled);
                        assert(self.filename_match.deep_view() =~= before.push(compiled@));
                        Ok(())
                    },
                    Err(error) => Err(CompileError { rule: name.clone(), error }),
                }
            },
            RuleConfig::DepthLimit { name, enabled, patterns, max_depth } => {
                if !*enabled {
                    return Ok(());
                }
                let ghost before = self.depth_limit.deep_view();
                let compiled = CompiledDepthRule {
                    name: name.clone(),
                    patterns: patterns.clone(),
                    max_depth: *max_depth,
                };
                self.depth_limit.push(compiled);
                assert(self.depth_limit.deep_view() =~= before.push(compiled@));
                Ok(())
            },
            RuleConfig::ContentMatch { name, enabled, patterns } => {
                if !*enabled {
                    return Ok(());
                }
                match build_matcher(patterns) {
                    Ok(globset) => {
                        let ghost before = self.content_match.deep_view();
                        let compiled = CompiledContentMatchRule { name: name.clone(), globset };
                        self.content_match.push(compiled);
                        assert(self.content_match.deep_view() =~= before.push(compiled@));
                        Ok(())
                    },
                    Err(error) => Err(CompileError { rule: name.clone(), error }),
                }
            },
            RuleConfig::ContentDeletion { name, enabled } => {
                if !*enabled {
                    return Ok(());
                }
                self.content_deletion = Some(name.clone());
                Ok(())
            },
        }
    }
}

impl Config {
    /// Compiles the declared rules, in order. The first enabled rule with a
    /// faulty pattern fails the whole compilation.
    pub fn compile(&self) -> (r: Result<CompiledRules, CompileError>)
        ensures
            match r {
                Ok(rules) => compile_rules(self@) == Ok::<RuleSet, CompileFault>(rules@),
                Err(e) => compile_rules(self@) == Err::<RuleSet, CompileFault>(e@),
            },
    {
        let mut compiled = CompiledRules::new();
        let mut i: usize = 0;
        while i < self.rules.len()
            invariant
                i <= self.rules.len(),
                add_rules(RuleSet::empty(), self@.take(i as int)) == Ok::<RuleSet, CompileFault>(
                    compiled@,
                ),
            decreases self.rules.len() - i,
        {
            let ghost prefix = self@.take(i + 1);
            assert(prefix.drop_last() == self@.take(i as int));
            match compiled.add(&self.rules[i]) {
                Ok(()) => {},
                Err(e) => {
                    proof {
                        lemma_fault_is_final(RuleSet::empty(), self@, i + 1);
                    }
                    return Err(e);
                },
            }
            i = i + 1;
        }
        assert(self@.take(i as int) == self@);
        Ok(compiled)
    }
}

} // verus!
