//! Records and errors put into words, for a report to print.

use crate::change::{Detail, Finding, Record, ValidationRecord};
use crate::config::{CompileError, CompileFault};
use crate::content::{ContentError, ContentFault, ContentFormat};
use crate::evaluate::MissingContent;
use crate::glob::{PatternError, PatternFault};
use crate::walk::{WalkError, WalkFault};
use vstd::prelude::*;
use vstd::string::StringExecFns;

verus! {

/// The character that stands for a digit below ten.
pub open spec fn digit_char(digit: nat) -> char {
    "0123456789"@[digit as int]
}

/// A number written in decimal, without leading zeros.
pub open spec fn decimal_text(n: nat) -> Seq<char>
    decreases n,
{
    if n < 10 {
        seq![digit_char(n)]
    } else {
        decimal_text(n / 10).push(digit_char(n % 10))
    }
}

/// The name of a format as it stands in a message.
pub open spec fn format_name(format: ContentFormat) -> Seq<char> {
    match format {
        ContentFormat::Json => "JSON"@,
        ContentFormat::Csv => "CSV"@,
    }
}

/// The message for content at fault in the file at `path`.
pub open spec fn fault_text(fault: ContentFault, path: Seq<char>) -> Seq<char> {
    "Invalid "@ + format_name(fault.format) + " in "@ + path + ": "@ + fault.message
}

/// What a finding says of the path it was made on.
pub open spec fn finding_text(finding: Finding, path: Seq<char>) -> Seq<char> {
    match finding {
        Finding::DeletionForbidden => "Deletion forbidden: "@ + path,
        Finding::ForbiddenPattern => "Path matches forbidden pattern: "@ + path,
        Finding::RequiredPattern => "Path matches required pattern: "@ + path,
        Finding::TooDeep { segment, depth } => "Folder '"@ + segment + "' too deep (depth "@
            + decimal_text(depth) + "): "@ + path,
        Finding::InvalidContent { fault } => "Content validation failed in "@ + path + ": "@
            + fault_text(fault, path),
    }
}

/// The line of a record: the rule's name, then what it found.
pub open spec fn record_text(record: Record) -> Seq<char> {
    record.rule + " - "@ + finding_text(record.finding, record.path)
}

/// The message for patterns that could not be made into a matcher.
pub open spec fn pattern_fault_text(fault: PatternFault) -> Seq<char> {
    match fault {
        PatternFault::Nesting { pattern } => "Alternates nested too deep in glob pattern '"@
            + pattern + "'"@,
        PatternFault::Syntax { pattern, message } => "Invalid glob pattern '"@ + pattern + "': "@
            + message,
        PatternFault::Rejected { message } => "Patterns cannot be matched together: "@ + message,
    }
}

/// The message for a rule that could not be compiled.
pub open spec fn compile_fault_text(fault: CompileFault) -> Seq<char> {
    "Rule '"@ + fault.rule + "': "@ + pattern_fault_text(fault.fault)
}

/// The message for a change at `path` that lacks the content it needs.
pub open spec fn missing_content_text(path: Seq<char>) -> Seq<char> {
    "Content of "@ + path + " is needed and was not fetched"@
}

/// The message for a walk that could not be settled on.
pub open spec fn walk_fault_text(fault: WalkFault) -> Seq<char> {
    match fault {
        WalkFault::HeadUnresolved => "HEAD not found"@,
        WalkFault::HeadDetached => "HEAD is detached or not on a branch"@,
        WalkFault::UpstreamMissing { reference } => "Could not find "@ + reference
            + ". Did you run 'git fetch'?"@,
    }
}

fn digit_text(digit: usize) -> (text: &'static str)
    requires
        digit < 10,
    ensures
        text@ == seq![digit_char(digit as nat)],
{
    proof {
        reveal_strlit("0123456789");
        reveal_strlit("0");
        reveal_strlit("1");
        reveal_strlit("2");
        reveal_strlit("3");
        reveal_strlit("4");
        reveal_strlit("5");
        reveal_strlit("6");
        reveal_strlit("7");
        reveal_strlit("8");
        reveal_strlit("9");
    }
    if digit == 0 {
        "0"
    } else if digit == 1 {
        "1"
    } else if digit == 2 {
        "2"
    } else if digit == 3 {
        "3"
    } else if digit == 4 {
        "4"
    } else if digit == 5 {
        "5"
    } else if digit == 6 {
        "6"
    } else if digit == 7 {
        "7"
    } else if digit == 8 {
        "8"
    } else {
        "9"
    }
}

/// Writes a number in decimal.
pub fn decimal(n: usize) -> (text: String)
    ensures
        text@ == decimal_text(n as nat),
    decreases n,
{
    if n < 10 {
        String::from_str(digit_text(n))
    } else {
        let mut text = decimal(n / 10);
        text.append(digit_text(n % 10));
        text
    }
}

impl ContentError {
    /// The message for this error in the file at `path`.
    pub fn describe(&self, path: &str) -> (text: String)
        ensures
            text@ == fault_text(self@, path@),
    {
        let mut text = String::from_str("Invalid ");
        match self.format {
            ContentFormat::Json => text.append("JSON"),
            ContentFormat::Csv => text.append("CSV"),
        }
        text.append(" in ");
        text.append(path);
        text.append(": ");
        text.append(self.message.as_str());
        text
    }
}

impl ValidationRecord {
    /// The line of this record in a report.
    pub fn describe(&self) -> (text: String)
        ensures
            text@ == record_text(self@),
    {
        let mut text = self.rule.clone();
        text.append(" - ");
        let path = self.path.as_str();
        match &self.detail {
            Detail::DeletionForbidden => {
                text.append("Deletion forbidden: ");
                text.append(path);
            },
            Detail::ForbiddenPattern => {
                text.append("Path matches forbidden pattern: ");
                text.append(path);
            },
            Detail::RequiredPattern => {
                text.append("Path matches required pattern: ");
                text.append(path);
            },
            Detail::TooDeep { segment, depth } => {
                text.append("Folder '");
                text.append(segment.as_str());
                text.append("' too deep (depth ");
                text.append(decimal(*depth).as_str());
                text.append("): ");
                text.append(path);
            },
            Detail::InvalidContent { error } => {
                text.append("Content validation failed in ");
                text.append(path);
                text.append(": ");
                text.append(error.describe(path).as_str());
            },
        }
        text
    }
}

impl PatternError {
    /// The message for this error.
    pub fn describe(&self) -> (text: String)
        ensures
            text@ == pattern_fault_text(self@),
    {
        match self {
            PatternError::Nesting { pattern } => {
                let mut text = String::from_str("Alternates nested too deep in glob pattern '");
                text.append(pattern.as_str());
                text.append("'");
                text
            },
            PatternError::Syntax { pattern, message } => {
                let mut text = String::from_str("Invalid glob pattern '");
                text.append(pattern.as_str());
                text.append("': ");
                text.append(message.as_str());
                text
            },
            PatternError::Rejected { message } => {
                let mut text = String::from_str("Patterns cannot be matched together: ");
                text.append(message.as_str());
                text
            },
        }
    }
}

impl CompileError {
    /// The message for this error: the rule, then what is wrong with its
    /// patterns.
    pub fn describe(&self) -> (text: String)
        ensures
            text@ == compile_fault_text(self@),
    {
        let mut text = String::from_str("Rule '");
        text.append(self.rule.as_str());
        text.append("': ");
        text.append(self.error.describe().as_str());
        text
    }
}

impl MissingContent {
    /// The message for this error.
    pub fn describe(&self) -> (text: String)
        ensures
            text@ == missing_content_text(self@),
    {
        let mut text = String::from_str("Content of ");
        text.append(self.path.as_str());
        text.append(" is needed and was not fetched");
        text
    }
}

impl WalkError {
    /// The message for this error.
    pub fn describe(&self) -> (text: String)
        ensures
            text@ == walk_fault_text(self@),
    {
        match self {
            WalkError::HeadUnresolved => String::from_str("HEAD not found"),
            WalkError::HeadDetached => String::from_str("HEAD is detached or not on a branch"),
            WalkError::UpstreamMissing { reference } => {
                let mut text = String::from_str("Could not find ");
                text.append(reference.as_str());
                text.append(". Did you run 'git fetch'?");
                text
            },
        }
    }
}

} // verus!
