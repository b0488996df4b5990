use reacher_backend::csv::{join_errors, CsvFields, CsvResponse, CsvWrapper};

fn json(text: &str) -> serde_json::Value {
    serde_json::from_str(text).unwrap()
}

fn row(text: &str) -> CsvResponse {
    CsvResponse::try_from(CsvWrapper(json(text))).unwrap()
}

#[test]
fn exports_current_mx_field_and_nested_errors() {
    let row = row(
        r#"{
            "input": "test@example.org", "is_reachable": "unknown",
            "mx": {"accepts_mail": true}, "smtp": {"error": "timeout"}
        }"#,
    );
    assert_eq!(row.mx_accepts_mail, Some(true));
    assert_eq!(row.smtp_is_deliverable, None);
    assert_eq!(row.error.as_deref(), Some("timeout"));
    let mut writer = csv::Writer::from_writer(Vec::new());
    writer.write_record(CsvResponse::columns()).unwrap();
    writer.write_record(row.cells()).unwrap();
    let bytes = writer.into_inner().unwrap();
    let mut reader = csv::Reader::from_reader(bytes.as_slice());
    let headers = reader.headers().unwrap().clone();
    let record = reader.records().next().unwrap().unwrap();
    let mx = headers.iter().position(|h| h == "mx.accepts_mail").unwrap();
    assert_eq!(&record[mx], "true");
}

#[test]
fn exports_terminal_task_failures() {
    let row = row(
        r#"{
            "input": "test@example.org", "is_reachable": "unknown", "error": "worker timeout"
        }"#,
    );
    assert_eq!(row.error.as_deref(), Some("worker timeout"));
    assert_eq!(row.mx_accepts_mail, None);
}

#[test]
fn exports_actual_core_response() {
    let row = row(
        r#"{
            "input": "",
            "is_reachable": "unknown",
            "misc": {
                "is_disposable": false, "is_role_account": false, "gravatar_url": null,
                "haveibeenpwned": null, "is_b2c": false
            },
            "mx": {"accepts_mail": false, "records": []},
            "smtp": {
                "can_connect_smtp": false, "has_full_inbox": false, "is_catch_all": false,
                "is_deliverable": false, "is_disabled": false
            },
            "syntax": {
                "address": null, "domain": "", "is_valid_syntax": false, "username": "",
                "normalized_email": null, "suggestion": null
            },
            "debug": {"smtp": {"probes": []}}
        }"#,
    );
    assert_eq!(row.input, "");
    assert_eq!(row.is_reachable, "unknown");
    assert_eq!(row.misc_is_disposable, Some(false));
    assert_eq!(row.misc_is_role_account, Some(false));
    assert_eq!(row.misc_gravatar_url, None);
    assert_eq!(row.mx_accepts_mail, Some(false));
    assert_eq!(row.smtp_can_connect, Some(false));
    assert_eq!(row.syntax_is_valid_syntax, Some(false));
    assert_eq!(row.syntax_domain.as_deref(), Some(""));
    assert_eq!(row.error, None);
}

#[test]
fn every_column_is_read_from_its_own_entry() {
    let row = row(
        r#"{
            "input": "a@b.c",
            "is_reachable": "risky",
            "misc": {"is_disposable": true, "is_role_account": false, "gravatar_url": "http://g"},
            "mx": {"accepts_mail": false},
            "smtp": {
                "can_connect_smtp": true, "has_full_inbox": false, "is_catch_all": true,
                "is_deliverable": true, "is_disabled": false
            },
            "syntax": {"is_valid_syntax": true, "domain": "b.c", "username": "a"}
        }"#,
    );
    let columns = CsvResponse::columns();
    let cells = row.cells();
    assert_eq!(columns.len(), cells.len());
    let line: Vec<(&str, &str)> =
        columns.iter().copied().zip(cells.iter().map(|c| c.as_str())).collect();
    assert_eq!(
        line,
        vec![
            ("input", "a@b.c"),
            ("is_reachable", "risky"),
            ("misc.is_disposable", "true"),
            ("misc.is_role_account", "false"),
            ("misc.gravatar_url", "http://g"),
            ("mx.accepts_mail", "false"),
            ("smtp.can_connect", "true"),
            ("smtp.has_full_inbox", "false"),
            ("smtp.is_catch_all", "true"),
            ("smtp.is_deliverable", "true"),
            ("smtp.is_disabled", "false"),
            ("syntax.is_valid_syntax", "true"),
            ("syntax.domain", "b.c"),
            ("syntax.username", "a"),
            ("error", ""),
        ]
    );
}

#[test]
fn missing_checks_remain_empty_cells() {
    let row = row(r#"{"input": "a@b.c", "is_reachable": "unknown", "smtp": {"is_disabled": "no"}}"#);
    let cells = row.cells();
    assert!(cells[2..].iter().all(|cell| cell.is_empty()));
}

#[test]
fn errors_are_joined_in_order_and_other_values_are_written_as_json() {
    let row = row(
        r#"{
            "input": "a@b.c", "is_reachable": "unknown",
            "syntax": {"error": null},
            "smtp": {"error": {"type": "SmtpError", "code": 451}},
            "mx": {"error": [1, true]},
            "misc": {"error": "misc down"},
            "error": 7
        }"#,
    );
    assert_eq!(
        row.error.as_deref(),
        Some(r#"7; misc down; [1,true]; {"code":451,"type":"SmtpError"}"#)
    );
}

#[test]
fn sections_that_are_no_objects_hold_nothing() {
    let row = row(
        r#"{"input": "a@b.c", "is_reachable": "safe", "mx": "error", "smtp": ["error"], "misc": 1}"#,
    );
    assert_eq!(row.mx_accepts_mail, None);
    assert_eq!(row.error, None);
}

#[test]
fn mandatory_texts_are_asked_for_in_order() {
    let complaint = |text: &str| CsvResponse::try_from(CsvWrapper(json(text))).unwrap_err();
    assert_eq!(complaint("{}"), "input should be a string");
    assert_eq!(complaint("[]"), "input should be a string");
    assert_eq!(complaint(r#"{"input": 1, "is_reachable": "safe"}"#), "input should be a string");
    assert_eq!(complaint(r#"{"input": "a@b.c"}"#), "is_reachable should be a string");
    assert_eq!(
        complaint(r#"{"input": "a@b.c", "is_reachable": null}"#),
        "is_reachable should be a string"
    );
}

fn fields() -> CsvFields {
    CsvFields {
        input: Some("a@b.c".into()),
        is_reachable: Some("safe".into()),
        misc_is_disposable: None,
        misc_is_role_account: None,
        misc_gravatar_url: None,
        mx_accepts_mail: Some(true),
        smtp_can_connect: None,
        smtp_has_full_inbox: None,
        smtp_is_catch_all: None,
        smtp_is_deliverable: None,
        smtp_is_disabled: None,
        syntax_is_valid_syntax: None,
        syntax_domain: None,
        syntax_username: None,
        errors: vec!["x".into(), "y".into()],
    }
}

#[test]
fn rows_are_made_of_their_parts() {
    let row = CsvResponse::from_fields(fields()).unwrap();
    assert_eq!(row.input, "a@b.c");
    assert_eq!(row.is_reachable, "safe");
    assert_eq!(row.mx_accepts_mail, Some(true));
    assert_eq!(row.error.as_deref(), Some("x; y"));
    let mut without_input = fields();
    without_input.input = None;
    without_input.is_reachable = None;
    assert_eq!(CsvResponse::from_fields(without_input).unwrap_err(), "input should be a string");
}

#[test]
fn error_cells_are_joined() {
    let join = |texts: &[&str]| join_errors(&texts.iter().map(|t| t.to_string()).collect());
    assert_eq!(join(&[]), None);
    assert_eq!(join(&[""]).as_deref(), Some(""));
    assert_eq!(join(&["a"]).as_deref(), Some("a"));
    assert_eq!(join(&["a", "b", "c"]).as_deref(), Some("a; b; c"));
}
