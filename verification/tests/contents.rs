use commit_policy::content::{
    check_csv, check_json, content_format, validate_blob_content, ContentError, ContentFormat,
};

#[test]
fn format_is_chosen_by_suffix() {
    assert_eq!(content_format("config.json"), Some(ContentFormat::Json));
    assert_eq!(content_format("a/b/data.csv"), Some(ContentFormat::Csv));
    assert_eq!(content_format(".json"), Some(ContentFormat::Json));
    assert_eq!(content_format("notes.txt"), None);
    assert_eq!(content_format("json"), None);
    assert_eq!(content_format("data.csv.gz"), None);
    assert_eq!(content_format("DATA.CSV"), None);
    assert_eq!(content_format(""), None);
}

#[test]
fn well_formed_json_passes() {
    assert_eq!(check_json(b"{\"a\":1}"), Ok(()));
    assert_eq!(check_json(b"[1, 2, {\"k\": null}]"), Ok(()));
    assert_eq!(check_json(b"  \"text\"  "), Ok(()));
}

#[test]
fn truncated_json_fails_with_position() {
    assert_eq!(
        check_json(b"{\"a\":1"),
        Err(ContentError {
            format: ContentFormat::Json,
            message: "EOF while parsing an object at line 1 column 6".to_string(),
        })
    );
}

#[test]
fn json_with_trailing_text_fails() {
    assert_eq!(
        check_json(b"{} x"),
        Err(ContentError {
            format: ContentFormat::Json,
            message: "trailing characters at line 1 column 4".to_string(),
        })
    );
}

#[test]
fn empty_json_fails() {
    assert_eq!(
        check_json(b""),
        Err(ContentError {
            format: ContentFormat::Json,
            message: "EOF while parsing a value at line 1 column 0".to_string(),
        })
    );
}

#[test]
fn well_formed_csv_passes() {
    assert_eq!(check_csv(b"a,b\n1,2\n3,4\n"), Ok(()));
    assert_eq!(check_csv(b"only,a,header\n"), Ok(()));
    assert_eq!(check_csv(b""), Ok(()));
}

#[test]
fn csv_row_of_another_length_fails() {
    assert_eq!(
        check_csv(b"a,b\n1,2,3\n4,5\n"),
        Err(ContentError {
            format: ContentFormat::Csv,
            message: "CSV error: record 1 (line: 2, byte: 4): found record with 3 fields, \
                      but the previous record has 2 fields"
                .to_string(),
        })
    );
}

#[test]
fn csv_stops_at_first_bad_row() {
    let err = check_csv(b"a,b\n1,2\n3\n4,5,6\n").unwrap_err();
    assert_eq!(
        err.message,
        "CSV error: record 2 (line: 3, byte: 8): found record with 1 fields, \
         but the previous record has 2 fields"
    );
}

#[test]
fn csv_with_invalid_utf8_fails() {
    let err = check_csv(b"a,b\n1,\xff\n").unwrap_err();
    assert_eq!(err.format, ContentFormat::Csv);
    assert_eq!(
        err.message,
        "CSV parse error: record 0 (line 1, field: 1, byte: 0): invalid utf-8: \
         invalid UTF-8 in field 1 near byte index 0"
    );
}

#[test]
fn content_is_validated_by_the_format_of_its_path() {
    assert_eq!(validate_blob_content("config.json", b"{\"a\":1}"), Ok(()));
    let err = validate_blob_content("config.json", b"{\"a\":1").unwrap_err();
    assert_eq!(err.format, ContentFormat::Json);
    assert_eq!(err.message, "EOF while parsing an object at line 1 column 6");
    assert_eq!(validate_blob_content("t.csv", b"a,b\n1,2\n"), Ok(()));
    let err = validate_blob_content("t.csv", b"a,b\n1\n").unwrap_err();
    assert_eq!(err.format, ContentFormat::Csv);
}

#[test]
fn content_of_unknown_format_passes() {
    assert_eq!(validate_blob_content("notes.txt", b"{\"a\":1"), Ok(()));
    assert_eq!(validate_blob_content("Makefile", b"\xff\xfe"), Ok(()));
    assert_eq!(validate_blob_content("data.json.bak", b"{"), Ok(()));
}

#[test]
fn json_suffix_is_tried_before_csv() {
    let err = validate_blob_content("x.csv.json", b"a,b\n").unwrap_err();
    assert_eq!(err.format, ContentFormat::Json);
}
