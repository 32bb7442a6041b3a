//! Structural validation of file contents. The format is chosen by the
//! path's suffix alone; a path with no known suffix has nothing to check.
//!
//! JSON is parsed by `serde_json` and CSV by `csv`. What those crates find
//! is named here by uninterpreted functions of the bytes, and the calls into
//! them state their results over those names; none of that is proved. The
//! choice of format and the walk over the rows of a CSV file are verified.

use crate::path::{chars_of, ends_with, has_suffix};
use vstd::prelude::*;

verus! {

#[verifier::external_type_specification]
#[verifier::external_body]
pub struct ExJsonValue(serde_json::Value);

#[verifier::external_type_specification]
#[verifier::external_body]
pub struct ExJsonError(serde_json::Error);

#[verifier::external_type_specification]
#[verifier::external_body]
#[verifier::reject_recursive_types(R)]
pub struct ExCsvReader<R>(csv::Reader<R>);

#[verifier::external_type_specification]
#[verifier::external_body]
pub struct ExCsvRecord(csv::StringRecord);

#[verifier::external_type_specification]
#[verifier::external_body]
pub struct ExCsvError(csv::Error);

/// What `serde_json::from_slice` finds wrong with `data` read as one JSON
/// value: `None` where it parses, else the text of the error it returns.
pub uninterp spec fn json_diagnostic(data: Seq<u8>) -> Option<Seq<char>>;

/// The text that a `serde_json::Error` displays.
pub uninterp spec fn json_error_text(err: serde_json::Error) -> Seq<char>;

/// The rows that a `csv::Reader` with default settings yields from `data`,
/// in order, each as what was wrong with it: `None` for a row that was read,
/// else the text of the error returned in its place.
pub uninterp spec fn csv_rows(data: Seq<u8>) -> Seq<Option<Seq<char>>>;

/// The rows that a reader has yet to yield, in the form of `csv_rows`.
pub uninterp spec fn csv_pending(reader: csv::Reader<&[u8]>) -> Seq<Option<Seq<char>>>;

/// The text that a `csv::Error` displays.
pub uninterp spec fn csv_error_text(err: csv::Error) -> Seq<char>;

/// `serde_json::from_slice`, at type `serde_json::Value`. Trusted: whether
/// the bytes parse, and with what error, depends on the bytes alone.
#[verifier::external_body]
fn parse_json(data: &[u8]) -> (r: Result<serde_json::Value, serde_json::Error>)
    ensures
        match r {
            Ok(_) => json_diagnostic(data@) is None,
            Err(err) => json_diagnostic(data@) == Some(json_error_text(err)),
        },
{
    serde_json::from_slice::<serde_json::Value>(data)
}

/// `serde_json::Error`'s `Display`, through `to_string`. Trusted: the text is
/// the one that `json_error_text` names.
#[verifier::external_body]
fn json_error_message(err: &serde_json::Error) -> (text: String)
    ensures
        text@ == json_error_text(*err),
{
    err.to_string()
}

/// `csv::Reader::from_reader`, on a byte slice. Trusted: the rows that the
/// new reader will yield depend on the bytes alone.
#[verifier::external_body]
fn open_csv<'a>(data: &'a [u8]) -> (reader: csv::Reader<&'a [u8]>)
    ensures
        csv_pending(reader) == csv_rows(data@),
{
    csv::Reader::from_reader(data)
}

/// `csv::Reader::records`, advanced by one `next`. Trusted: it yields the
/// first of the pending rows and leaves the others pending, an unreadable
/// row coming as the error whose text was foretold; with no row pending it
/// returns `None` and stays at the end.
#[verifier::external_body]
fn next_row(reader: &mut csv::Reader<&[u8]>) -> (row: Option<
    Result<csv::StringRecord, csv::Error>,
>)
    ensures
        match row {
            None => csv_pending(*old(reader)).len() == 0 && csv_pending(*final(reader)).len() == 0,
            Some(read) => csv_pending(*old(reader)).len() > 0 && csv_pending(*final(reader))
                == csv_pending(*old(reader)).drop_first() && match read {
                Ok(_) => csv_pending(*old(reader))[0] is None,
                Err(err) => csv_pending(*old(reader))[0] == Some(csv_error_text(err)),
            },
        },
{
    reader.records().next()
}

/// `csv::Error`'s `Display`, through `to_string`. Trusted: the text is the
/// one that `csv_error_text` names.
#[verifier::external_body]
fn csv_error_message(err: &csv::Error) -> (text: String)
    ensures
        text@ == csv_error_text(*err),
{
    err.to_string()
}

/// A format whose structure can be checked.
#[derive(Debug, Clone, Copy, PartialEq, Eq)]
pub enum ContentFormat {
    Json,
    Csv,
}

/// Content that is not a well-formed instance of its format.
#[derive(Debug, PartialEq, Eq)]
pub struct ContentError {
    pub format: ContentFormat,
    /// The parser's own account of what is wrong, and where.
    pub message: String,
}

/// Ghost model of a `ContentError`.
pub struct ContentFault {
    pub format: ContentFormat,
    pub message: Seq<char>,
}

impl View for ContentError {
    type V = ContentFault;

    open spec fn view(&self) -> ContentFault {
        ContentFault { format: self.format, message: self.message@ }
    }
}

impl Clone for ContentError {
    fn clone(&self) -> (copy: ContentError)
        ensures
            copy@ == self@,
    {
        ContentError { format: self.format, message: self.message.clone() }
    }
}

/// The suffix of paths that hold JSON.
pub open spec fn json_suffix() -> Seq<char> {
    ".json"@
}

/// The suffix of paths that hold CSV.
pub open spec fn csv_suffix() -> Seq<char> {
    ".csv"@
}

/// The format that a path's suffix stands for, if any.
pub open spec fn format_of(path: Seq<char>) -> Option<ContentFormat> {
    if ends_with(path, json_suffix()) {
        Some(ContentFormat::Json)
    } else if ends_with(path, csv_suffix()) {
        Some(ContentFormat::Csv)
    } else {
        None
    }
}

/// The first row that could not be read, by its error text.
pub open spec fn first_bad_row(rows: Seq<Option<Seq<char>>>) -> Option<Seq<char>>
    decreases rows.len(),
{
    if rows.len() == 0 {
        None
    } else if rows[0] is Some {
        rows[0]
    } else {
        first_bad_row(rows.drop_first())
    }
}

/// What is wrong with `data` as content of the given format, if anything.
pub open spec fn format_fault(format: ContentFormat, data: Seq<u8>) -> Option<ContentFault> {
    let found = match format {
        ContentFormat::Json => json_diagnostic(data),
        ContentFormat::Csv => first_bad_row(csv_rows(data)),
    };
    match found {
        Some(message) => Some(ContentFault { format, message }),
        None => None,
    }
}

/// What is wrong with `data` as the content of the file at `path`, if
/// anything. Content of no known format is never at fault.
pub open spec fn content_fault(path: Seq<char>, data: Seq<u8>) -> Option<ContentFault> {
    match format_of(path) {
        Some(format) => format_fault(format, data),
        None => None,
    }
}

/// The format to check the file at `path` against, by its suffix.
pub fn content_format(path: &str) -> (format: Option<ContentFormat>)
    ensures
        format == format_of(path@),
{
    let text = chars_of(path);
    if has_suffix(&text, &chars_of(".json")) {
        Some(ContentFormat::Json)
    } else if has_suffix(&text, &chars_of(".csv")) {
        Some(ContentFormat::Csv)
    } else {
        None
    }
}

/// Checks that `data` is one well-formed JSON value.
pub fn check_json(data: &[u8]) -> (r: Result<(), ContentError>)
    ensures
        match r {
            Ok(()) => format_fault(ContentFormat::Json, data@) is None,
            Err(e) => format_fault(ContentFormat::Json, data@) == Some(e@),
        },
{
    match parse_json(data) {
        Ok(_) => Ok(()),
        Err(err) => Err(
            ContentError { format: ContentFormat::Json, message: json_error_message(&err) },
        ),
    }
}

/// Checks that `data` is well-formed CSV, row by row, and stops at the first
/// row that is not.
pub fn check_csv(data: &[u8]) -> (r: Result<(), ContentError>)
    ensures
        match r {
            Ok(()) => format_fault(ContentFormat::Csv, data@) is None,
            Err(e) => format_fault(ContentFormat::Csv, data@) == Some(e@),
        },
{
    let mut reader = open_csv(data);
    loop
        invariant
            first_bad_row(csv_pending(reader)) == first_bad_row(csv_rows(data@)),
        decreases csv_pending(reader).len(),
    {
        match next_row(&mut reader) {
            None => {
                return Ok(());
            },
            Some(Ok(_)) => {},
            Some(Err(err)) => {
                return Err(
                    ContentError { format: ContentFormat::Csv, message: csv_error_message(&err) },
                );
            },
        }
    }
}

/// Checks the content of the file at `path` against the format that its
/// suffix stands for.
pub fn validate_blob_content(path: &str, data: &[u8]) -> (r: Result<(), ContentError>)
    ensures
        match r {
            Ok(()) => content_fault(path@, data@) is None,
            Err(e) => content_fault(path@, data@) == Some(e@),
        },
{
    match content_format(path) {
        Some(ContentFormat::Json) => check_json(data),
        Some(ContentFormat::Csv) => check_csv(data),
        None => Ok(()),
    }
}

} // verus!
