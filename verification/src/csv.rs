//! One row of the CSV export, made from the JSON result of a verification.

use vstd::prelude::*;
use vstd::string::*;

use crate::json;
use crate::json::Json;

verus! {

/// A verification result as JSON, on its way to a CSV row.
#[derive(Debug)]
pub struct CsvWrapper(pub serde_json::Value);

/// A CSV row. Missing checks remain empty cells instead of being reported as false.
#[derive(Debug)]
pub struct CsvResponse {
    pub input: String,
    pub is_reachable: String,
    pub misc_is_disposable: Option<bool>,
    pub misc_is_role_account: Option<bool>,
    pub misc_gravatar_url: Option<String>,
    pub mx_accepts_mail: Option<bool>,
    pub smtp_can_connect: Option<bool>,
    pub smtp_has_full_inbox: Option<bool>,
    pub smtp_is_catch_all: Option<bool>,
    pub smtp_is_deliverable: Option<bool>,
    pub smtp_is_disabled: Option<bool>,
    pub syntax_is_valid_syntax: Option<bool>,
    pub syntax_domain: Option<String>,
    pub syntax_username: Option<String>,
    pub error: Option<String>,
}

/// What a CSV row holds.
pub struct CsvRow {
    pub input: Seq<char>,
    pub is_reachable: Seq<char>,
    pub misc_is_disposable: Option<bool>,
    pub misc_is_role_account: Option<bool>,
    pub misc_gravatar_url: Option<Seq<char>>,
    pub mx_accepts_mail: Option<bool>,
    pub smtp_can_connect: Option<bool>,
    pub smtp_has_full_inbox: Option<bool>,
    pub smtp_is_catch_all: Option<bool>,
    pub smtp_is_deliverable: Option<bool>,
    pub smtp_is_disabled: Option<bool>,
    pub syntax_is_valid_syntax: Option<bool>,
    pub syntax_domain: Option<Seq<char>>,
    pub syntax_username: Option<Seq<char>>,
    pub error: Option<Seq<char>>,
}

impl View for CsvResponse {
    type V = CsvRow;

    open spec fn view(&self) -> CsvRow {
        CsvRow {
            input: self.input@,
            is_reachable: self.is_reachable@,
            misc_is_disposable: self.misc_is_disposable,
            misc_is_role_account: self.misc_is_role_account,
            misc_gravatar_url: self.misc_gravatar_url.deep_view(),
            mx_accepts_mail: self.mx_accepts_mail,
            smtp_can_connect: self.smtp_can_connect,
            smtp_has_full_inbox: self.smtp_has_full_inbox,
            smtp_is_catch_all: self.smtp_is_catch_all,
            smtp_is_deliverable: self.smtp_is_deliverable,
            smtp_is_disabled: self.smtp_is_disabled,
            syntax_is_valid_syntax: self.syntax_is_valid_syntax,
            syntax_domain: self.syntax_domain.deep_view(),
            syntax_username: self.syntax_username.deep_view(),
            error: self.error.deep_view(),
        }
    }
}

/// The texts one after the other, with `separator` between neighbours.
pub open spec fn joined(texts: Seq<Seq<char>>, separator: Seq<char>) -> Seq<char>
    decreases texts.len(),
{
    if texts.len() == 0 {
        seq![]
    } else if texts.len() == 1 {
        texts[0]
    } else {
        joined(texts.drop_last(), separator) + separator + texts.last()
    }
}

/// The error cell for the errors that a result reports: empty where there is none.
pub open spec fn error_cell(errors: Seq<Seq<char>>) -> Option<Seq<char>> {
    if errors.len() == 0 {
        None
    } else {
        Some(joined(errors, "; "@))
    }
}

/// What an error entry of a result says: nothing where it is missing or `null`, a string's own
/// text, and the JSON text of any other value.
pub open spec fn error_entry(entry: Option<Json>) -> Seq<Seq<char>> {
    match entry {
        None => seq![],
        Some(Json::Null) => seq![],
        Some(Json::Text(text)) => seq![text],
        Some(value) => seq![json::compact_text(value)],
    }
}

/// The errors that a result reports: its own, then those of its sections.
pub open spec fn reported_errors(result: Json) -> Seq<Seq<char>> {
    error_entry(result.descend(seq!["error"@]))
        + error_entry(result.descend(seq!["misc"@, "error"@]))
        + error_entry(result.descend(seq!["mx"@, "error"@]))
        + error_entry(result.descend(seq!["smtp"@, "error"@]))
        + error_entry(result.descend(seq!["syntax"@, "error"@]))
}

/// The row for a result whose two mandatory texts are given.
pub open spec fn row_of(result: Json, input: Seq<char>, is_reachable: Seq<char>) -> CsvRow {
    CsvRow {
        input,
        is_reachable,
        misc_is_disposable: result.at("misc"@).at("is_disposable"@).as_flag(),
        misc_is_role_account: result.at("misc"@).at("is_role_account"@).as_flag(),
        misc_gravatar_url: result.at("misc"@).at("gravatar_url"@).as_text(),
        mx_accepts_mail: result.at("mx"@).at("accepts_mail"@).as_flag(),
        smtp_can_connect: result.at("smtp"@).at("can_connect_smtp"@).as_flag(),
        smtp_has_full_inbox: result.at("smtp"@).at("has_full_inbox"@).as_flag(),
        smtp_is_catch_all: result.at("smtp"@).at("is_catch_all"@).as_flag(),
        smtp_is_deliverable: result.at("smtp"@).at("is_deliverable"@).as_flag(),
        smtp_is_disabled: result.at("smtp"@).at("is_disabled"@).as_flag(),
        syntax_is_valid_syntax: result.at("syntax"@).at("is_valid_syntax"@).as_flag(),
        syntax_domain: result.at("syntax"@).at("domain"@).as_text(),
        syntax_username: result.at("syntax"@).at("username"@).as_text(),
        error: error_cell(reported_errors(result)),
    }
}

/// The row for a result, or the complaint about the first mandatory text that is missing.
pub open spec fn csv_row(result: Json) -> Result<CsvRow, Seq<char>> {
    match (result.at("input"@).as_text(), result.at("is_reachable"@).as_text()) {
        (None, _) => Err("input should be a string"@),
        (Some(_), None) => Err("is_reachable should be a string"@),
        (Some(input), Some(is_reachable)) => Ok(row_of(result, input, is_reachable)),
    }
}

/// Joins the reported errors into the error cell.
pub fn join_errors(errors: &Vec<String>) -> (cell: Option<String>)
    ensures
        cell.deep_view() == error_cell(errors.deep_view()),
{
    if errors.len() == 0 {
        return None;
    }
    let mut text: String = errors[0].clone();
    let mut i: usize = 1;
    let ghost all = errors.deep_view();
    assert(all.take(1).len() == 1);
    while i < errors.len()
        invariant
            1 <= i <= errors.len(),
            all == errors.deep_view(),
            text@ == joined(all.take(i as int), "; "@),
        decreases errors.len() - i,
    {
        text.append("; ");
        text.append(errors[i].as_str());
        assert(all.take(i + 1).drop_last() == all.take(i as int));
        assert(all.take(i + 1).last() == errors[i as int]@);
        i = i + 1;
    }
    assert(all.take(i as int) == all);
    Some(text)
}

/// The text of the string member `key` of the section of a result.
fn section_text(section: &serde_json::Value, key: &str) -> (text: Option<String>)
    ensures
        text.deep_view() == json::document(*section).at(key@).as_text(),
{
    match json::value_as_str(json::value_at(section, key)) {
        Some(text) => Some(text.to_owned()),
        None => None,
    }
}

/// The value of the boolean member `key` of the section of a result.
fn section_flag(section: &serde_json::Value, key: &str) -> (flag: Option<bool>)
    ensures
        flag == json::document(*section).at(key@).as_flag(),
{
    json::value_as_bool(json::value_at(section, key))
}

/// Appends to `errors` what the error entry under `pointer` says.
fn collect_error(
    errors: &mut Vec<String>,
    result: &serde_json::Value,
    pointer: &str,
    Ghost(keys): Ghost<Seq<Seq<char>>>,
)
    requires
        pointer@ == json::pointer_to(keys),
        forall|i: int| 0 <= i < keys.len() ==> json::is_plain_name(#[trigger] keys[i]),
    ensures
        final(errors).deep_view() == old(errors).deep_view() + error_entry(
            json::document(*result).descend(keys),
        ),
{
    let ghost before = errors.deep_view();
    match json::value_pointer(result, pointer) {
        Some(entry) => {
            if !json::value_is_null(entry) {
                let text: String = match json::value_as_str(entry) {
                    Some(text) => text.to_owned(),
                    None => json::value_text(entry),
                };
                errors.push(text);
                assert(errors.deep_view() == before.push(text@));
                assert(before.push(text@) == before + seq![text@]);
            } else {
                assert(errors.deep_view() == before + Seq::<Seq<char>>::empty());
            }
        },
        None => {
            assert(errors.deep_view() == before + Seq::<Seq<char>>::empty());
        },
    }
}

/// The parts of a result that a row is made of, as they were found: a text or a flag is missing
/// where the result does not hold one.
#[derive(Debug)]
pub struct CsvFields {
    pub input: Option<String>,
    pub is_reachable: Option<String>,
    pub misc_is_disposable: Option<bool>,
    pub misc_is_role_account: Option<bool>,
    pub misc_gravatar_url: Option<String>,
    pub mx_accepts_mail: Option<bool>,
    pub smtp_can_connect: Option<bool>,
    pub smtp_has_full_inbox: Option<bool>,
    pub smtp_is_catch_all: Option<bool>,
    pub smtp_is_deliverable: Option<bool>,
    pub smtp_is_disabled: Option<bool>,
    pub syntax_is_valid_syntax: Option<bool>,
    pub syntax_domain: Option<String>,
    pub syntax_username: Option<String>,
    pub errors: Vec<String>,
}

impl CsvFields {
    /// Whether these parts make the row `row`: each part stands in its own column, and the error
    /// column holds the errors joined.
    pub open spec fn make(self, row: CsvResponse) -> bool {
        &&& self.input == Some(row.input)
        &&& self.is_reachable == Some(row.is_reachable)
        &&& row.misc_is_disposable == self.misc_is_disposable
        &&& row.misc_is_role_account == self.misc_is_role_account
        &&& row.misc_gravatar_url == self.misc_gravatar_url
        &&& row.mx_accepts_mail == self.mx_accepts_mail
        &&& row.smtp_can_connect == self.smtp_can_connect
        &&& row.smtp_has_full_inbox == self.smtp_has_full_inbox
        &&& row.smtp_is_catch_all == self.smtp_is_catch_all
        &&& row.smtp_is_deliverable == self.smtp_is_deliverable
        &&& row.smtp_is_disabled == self.smtp_is_disabled
        &&& row.syntax_is_valid_syntax == self.syntax_is_valid_syntax
        &&& row.syntax_domain == self.syntax_domain
        &&& row.syntax_username == self.syntax_username
        &&& row.error.deep_view() == error_cell(self.errors.deep_view())
    }
}

impl CsvResponse {
    /// Makes the row out of the parts of a result. The input and the verdict are mandatory.
    pub fn from_fields(fields: CsvFields) -> (row: Result<CsvResponse, &'static str>)
        ensures
            match row {
                Ok(row) => fields.make(row),
                Err(complaint) => if fields.input is None {
                    complaint@ == "input should be a string"@
                } else {
                    fields.is_reachable is None && complaint@
                        == "is_reachable should be a string"@
                },
            },
    {
        let error: Option<String> = join_errors(&fields.errors);
        match (fields.input, fields.is_reachable) {
            (None, _) => Err("input should be a string"),
            (Some(_), None) => Err("is_reachable should be a string"),
            (Some(input), Some(is_reachable)) => Ok(
                CsvResponse {
                    input,
                    is_reachable,
                    misc_is_disposable: fields.misc_is_disposable,
                    misc_is_role_account: fields.misc_is_role_account,
                    misc_gravatar_url: fields.misc_gravatar_url,
                    mx_accepts_mail: fields.mx_accepts_mail,
                    smtp_can_connect: fields.smtp_can_connect,
                    smtp_has_full_inbox: fields.smtp_has_full_inbox,
                    smtp_is_catch_all: fields.smtp_is_catch_all,
                    smtp_is_deliverable: fields.smtp_is_deliverable,
                    smtp_is_disabled: fields.smtp_is_disabled,
                    syntax_is_valid_syntax: fields.syntax_is_valid_syntax,
                    syntax_domain: fields.syntax_domain,
                    syntax_username: fields.syntax_username,
                    error,
                },
            ),
        }
    }
}

/// The five places of a result where errors are reported, as JSON pointers.
proof fn lemma_error_pointers()
    ensures
        "/error"@ == json::pointer_to(seq!["error"@]),
        "/misc/error"@ == json::pointer_to(seq!["misc"@, "error"@]),
        "/mx/error"@ == json::pointer_to(seq!["mx"@, "error"@]),
        "/smtp/error"@ == json::pointer_to(seq!["smtp"@, "error"@]),
        "/syntax/error"@ == json::pointer_to(seq!["syntax"@, "error"@]),
        json::is_plain_name("error"@),
        json::is_plain_name("misc"@),
        json::is_plain_name("mx"@),
        json::is_plain_name("smtp"@),
        json::is_plain_name("syntax"@),
{
    reveal_strlit("/error");
    reveal_strlit("/misc/error");
    reveal_strlit("/mx/error");
    reveal_strlit("/smtp/error");
    reveal_strlit("/syntax/error");
    reveal_strlit("error");
    reveal_strlit("misc");
    reveal_strlit("mx");
    reveal_strlit("smtp");
    reveal_strlit("syntax");
    lemma_pointer_of_one("error"@);
    lemma_pointer_of_two("misc"@, "error"@);
    lemma_pointer_of_two("mx"@, "error"@);
    lemma_pointer_of_two("smtp"@, "error"@);
    lemma_pointer_of_two("syntax"@, "error"@);
    assert("/error"@ == seq!['/'] + "error"@);
    assert("/misc/error"@ == seq!['/'] + "misc"@ + seq!['/'] + "error"@);
    assert("/mx/error"@ == seq!['/'] + "mx"@ + seq!['/'] + "error"@);
    assert("/smtp/error"@ == seq!['/'] + "smtp"@ + seq!['/'] + "error"@);
    assert("/syntax/error"@ == seq!['/'] + "syntax"@ + seq!['/'] + "error"@);
}

proof fn lemma_pointer_of_one(a: Seq<char>)
    ensures
        json::pointer_to(seq![a]) == seq!['/'] + a,
{
    assert(seq![a].drop_last() == Seq::<Seq<char>>::empty());
    assert(json::pointer_to(seq![a].drop_last()) + seq!['/'] + a == seq!['/'] + a);
}

proof fn lemma_pointer_of_two(a: Seq<char>, b: Seq<char>)
    ensures
        json::pointer_to(seq![a, b]) == seq!['/'] + a + seq!['/'] + b,
{
    lemma_pointer_of_one(a);
    assert(seq![a, b].drop_last() == seq![a]);
}

/// Reads the parts of a row from a result.
fn read_fields(v: &serde_json::Value) -> (fields: CsvFields)
    ensures
        fields.input.deep_view() == json::document(*v).at("input"@).as_text(),
        fields.is_reachable.deep_view() == json::document(*v).at("is_reachable"@).as_text(),
        forall|row: CsvResponse| #[trigger]
            fields.make(row) ==> row@ == row_of(
                json::document(*v),
                row.input@,
                row.is_reachable@,
            ),
{
    let mut errors: Vec<String> = Vec::new();
    proof {
        lemma_error_pointers();
    }
    let ghost own = seq!["error"@];
    let ghost misc_keys = seq!["misc"@, "error"@];
    let ghost mx_keys = seq!["mx"@, "error"@];
    let ghost smtp_keys = seq!["smtp"@, "error"@];
    let ghost syntax_keys = seq!["syntax"@, "error"@];
    collect_error(&mut errors, v, "/error", Ghost(own));
    collect_error(&mut errors, v, "/misc/error", Ghost(misc_keys));
    collect_error(&mut errors, v, "/mx/error", Ghost(mx_keys));
    collect_error(&mut errors, v, "/smtp/error", Ghost(smtp_keys));
    collect_error(&mut errors, v, "/syntax/error", Ghost(syntax_keys));
    assert(errors.deep_view() == reported_errors(json::document(*v)));
    let misc: &serde_json::Value = json::value_at(v, "misc");
    let mx: &serde_json::Value = json::value_at(v, "mx");
    let smtp: &serde_json::Value = json::value_at(v, "smtp");
    let syntax: &serde_json::Value = json::value_at(v, "syntax");
    CsvFields {
        input: section_text(v, "input"),
        is_reachable: section_text(v, "is_reachable"),
        misc_is_disposable: section_flag(misc, "is_disposable"),
        misc_is_role_account: section_flag(misc, "is_role_account"),
        misc_gravatar_url: section_text(misc, "gravatar_url"),
        mx_accepts_mail: section_flag(mx, "accepts_mail"),
        smtp_can_connect: section_flag(smtp, "can_connect_smtp"),
        smtp_has_full_inbox: section_flag(smtp, "has_full_inbox"),
        smtp_is_catch_all: section_flag(smtp, "is_catch_all"),
        smtp_is_deliverable: section_flag(smtp, "is_deliverable"),
        smtp_is_disabled: section_flag(smtp, "is_disabled"),
        syntax_is_valid_syntax: section_flag(syntax, "is_valid_syntax"),
        syntax_domain: section_text(syntax, "domain"),
        syntax_username: section_text(syntax, "username"),
        errors,
    }
}

/// What the conversion returns is stated on `try_from` itself, over views.
impl vstd::std_specs::convert::TryFromSpecImpl<CsvWrapper> for CsvResponse {
    open spec fn obeys_try_from_spec() -> bool {
        false
    }

    open spec fn try_from_spec(value: CsvWrapper) -> Result<CsvResponse, &'static str> {
        arbitrary()
    }
}

impl TryFrom<CsvWrapper> for CsvResponse {
    type Error = &'static str;

    /// Makes the row of a result.
    fn try_from(value: CsvWrapper) -> (row: Result<CsvResponse, &'static str>)
        ensures
            match (row, csv_row(json::document(value.0))) {
                (Ok(row), Ok(expected)) => row@ == expected,
                (Err(complaint), Err(expected)) => complaint@ == expected,
                _ => false,
            },
    {
        CsvResponse::from_fields(read_fields(&value.0))
    }
}

/// The cell of a check: its outcome in words, empty where the check is missing.
pub open spec fn flag_cell(flag: Option<bool>) -> Seq<char> {
    match flag {
        Some(true) => "true"@,
        Some(false) => "false"@,
        None => ""@,
    }
}

/// The cell of a text, empty where the text is missing.
pub open spec fn text_cell(text: Option<Seq<char>>) -> Seq<char> {
    match text {
        Some(text) => text,
        None => ""@,
    }
}

/// The column names, in the order in which the columns are written.
pub open spec fn column_names() -> Seq<Seq<char>> {
    seq![
        "input"@,
        "is_reachable"@,
        "misc.is_disposable"@,
        "misc.is_role_account"@,
        "misc.gravatar_url"@,
        "mx.accepts_mail"@,
        "smtp.can_connect"@,
        "smtp.has_full_inbox"@,
        "smtp.is_catch_all"@,
        "smtp.is_deliverable"@,
        "smtp.is_disabled"@,
        "syntax.is_valid_syntax"@,
        "syntax.domain"@,
        "syntax.username"@,
        "error"@,
    ]
}

impl CsvRow {
    /// The cells of the row, one for each column.
    pub open spec fn cells(self) -> Seq<Seq<char>> {
        seq![
            self.input,
            self.is_reachable,
            flag_cell(self.misc_is_disposable),
            flag_cell(self.misc_is_role_account),
            text_cell(self.misc_gravatar_url),
            flag_cell(self.mx_accepts_mail),
            flag_cell(self.smtp_can_connect),
            flag_cell(self.smtp_has_full_inbox),
            flag_cell(self.smtp_is_catch_all),
            flag_cell(self.smtp_is_deliverable),
            flag_cell(self.smtp_is_disabled),
            flag_cell(self.syntax_is_valid_syntax),
            text_cell(self.syntax_domain),
            text_cell(self.syntax_username),
            text_cell(self.error),
        ]
    }
}

/// Writes the cell of a check.
fn write_flag(flag: Option<bool>) -> (cell: String)
    ensures
        cell@ == flag_cell(flag),
{
    match flag {
        Some(true) => "true".to_owned(),
        Some(false) => "false".to_owned(),
        None => "".to_owned(),
    }
}

/// Writes the cell of a text.
fn write_text(text: &Option<String>) -> (cell: String)
    ensures
        cell@ == text_cell(text.deep_view()),
{
    match text {
        Some(text) => text.clone(),
        None => "".to_owned(),
    }
}

impl CsvResponse {
    /// The header line of the export.
    pub fn columns() -> (columns: Vec<&'static str>)
        ensures
            columns@.map_values(|name: &'static str| name@) == column_names(),
    {
        let columns: Vec<&'static str> =
            vec![
            "input",
            "is_reachable",
            "misc.is_disposable",
            "misc.is_role_account",
            "misc.gravatar_url",
            "mx.accepts_mail",
            "smtp.can_connect",
            "smtp.has_full_inbox",
            "smtp.is_catch_all",
            "smtp.is_deliverable",
            "smtp.is_disabled",
            "syntax.is_valid_syntax",
            "syntax.domain",
            "syntax.username",
            "error",
        ];
        assert(columns@.map_values(|name: &'static str| name@) =~= column_names());
        columns
    }

    /// The line of the export that this row makes, in the order of the columns.
    pub fn cells(&self) -> (cells: Vec<String>)
        ensures
            cells.deep_view() == self@.cells(),
    {
        let cells: Vec<String> =
            vec![
            self.input.clone(),
            self.is_reachable.clone(),
            write_flag(self.misc_is_disposable),
            write_flag(self.misc_is_role_account),
            write_text(&self.misc_gravatar_url),
            write_flag(self.mx_accepts_mail),
            write_flag(self.smtp_can_connect),
            write_flag(self.smtp_has_full_inbox),
            write_flag(self.smtp_is_catch_all),
            write_flag(self.smtp_is_deliverable),
            write_flag(self.smtp_is_disabled),
            write_flag(self.syntax_is_valid_syntax),
            write_text(&self.syntax_domain),
            write_text(&self.syntax_username),
            write_text(&self.error),
        ];
        assert(cells.deep_view() =~= self@.cells());
        cells
    }
}

/// The entry of a result that the check in column `column` is read from.
pub open spec fn check_of_column(result: Json, column: int) -> Option<Json> {
    if column == 2 {
        Some(result.at("misc"@).at("is_disposable"@))
    } else if column == 3 {
        Some(result.at("misc"@).at("is_role_account"@))
    } else if column == 5 {
        Some(result.at("mx"@).at("accepts_mail"@))
    } else if column == 6 {
        Some(result.at("smtp"@).at("can_connect_smtp"@))
    } else if column == 7 {
        Some(result.at("smtp"@).at("has_full_inbox"@))
    } else if column == 8 {
        Some(result.at("smtp"@).at("is_catch_all"@))
    } else if column == 9 {
        Some(result.at("smtp"@).at("is_deliverable"@))
    } else if column == 10 {
        Some(result.at("smtp"@).at("is_disabled"@))
    } else if column == 11 {
        Some(result.at("syntax"@).at("is_valid_syntax"@))
    } else {
        None
    }
}

/// A missing check remains an empty cell and is never reported as false: the cell of a check says
/// "true" or "false" exactly where the result holds that boolean, and is empty otherwise.
pub proof fn missing_checks_stay_empty(result: Json, column: int)
    requires
        csv_row(result) is Ok,
        check_of_column(result, column) is Some,
    ensures
        ({
            let cell = csv_row(result)->Ok_0.cells()[column];
            let check = check_of_column(result, column)->0;
            &&& cell == "true"@ <==> check == Json::Bool(true)
            &&& cell == "false"@ <==> check == Json::Bool(false)
            &&& cell == ""@ <==> !(check is Bool)
        }),
{
    reveal_strlit("true");
    reveal_strlit("false");
    reveal_strlit("");
    assert("true"@.len() == 4 && "false"@.len() == 5 && ""@.len() == 0);
}

/// The result of a task that failed, which has an error of its own and none of the sections, is
/// exported: its row holds that error and no outcome of any check.
pub proof fn failed_tasks_are_exported(result: Json, message: Seq<char>)
    requires
        result.at("input"@) is Text,
        result.at("is_reachable"@) is Text,
        result.member("error"@) == Some(Json::Text(message)),
        result.member("misc"@) is None,
        result.member("mx"@) is None,
        result.member("smtp"@) is None,
        result.member("syntax"@) is None,
    ensures
        csv_row(result) is Ok,
        csv_row(result)->Ok_0.error == Some(message),
        forall|column: int|
            check_of_column(result, column) is Some ==> #[trigger] csv_row(
                result,
            )->Ok_0.cells()[column] == ""@,
{
    assert(result.descend(seq!["error"@]) == Some(Json::Text(message))) by {
        assert(seq!["error"@].drop_first() == Seq::<Seq<char>>::empty());
        reveal_with_fuel(Json::descend, 2);
    }
    assert(result.descend(seq!["misc"@, "error"@]) is None);
    assert(result.descend(seq!["mx"@, "error"@]) is None);
    assert(result.descend(seq!["smtp"@, "error"@]) is None);
    assert(result.descend(seq!["syntax"@, "error"@]) is None);
    assert(reported_errors(result) == seq![message]);
    assert forall|column: int| check_of_column(result, column) is Some implies #[trigger] csv_row(
        result,
    )->Ok_0.cells()[column] == ""@ by {
        missing_checks_stay_empty(result, column);
    }
}

/// The member `key` of the member `section` of a result.
pub open spec fn entry_at(result: Json, section: Seq<char>, key: Seq<char>) -> Option<Json> {
    match result.member(section) {
        Some(found) => found.member(key),
        None => None,
    }
}

/// Whether a cell shows a text entry: the very text of a string, and nothing for anything else.
pub open spec fn shows_text(cell: Seq<char>, entry: Option<Json>) -> bool {
    match entry {
        Some(Json::Text(text)) => cell == text,
        _ => cell.len() == 0,
    }
}

/// Whether a cell shows a boolean entry: "true" or "false", and nothing for anything else.
pub open spec fn shows_flag(cell: Seq<char>, entry: Option<Json>) -> bool {
    match entry {
        Some(Json::Bool(flag)) => cell == if flag {
            "true"@
        } else {
            "false"@
        },
        _ => cell.len() == 0,
    }
}

/// Under its name, each column shows the entry of the result at its own path, and no other entry.
pub proof fn each_column_shows_its_own_entry(result: Json)
    requires
        csv_row(result) is Ok,
    ensures
        ({
            let names = column_names();
            let cells = csv_row(result)->Ok_0.cells();
            &&& names.len() == 15 && cells.len() == 15
            &&& names[0] == "input"@ && result.member("input"@) == Some(Json::Text(cells[0]))
            &&& names[1] == "is_reachable"@ && result.member("is_reachable"@) == Some(
                Json::Text(cells[1]),
            )
            &&& names[2] == "misc.is_disposable"@ && shows_flag(
                cells[2],
                entry_at(result, "misc"@, "is_disposable"@),
            )
            &&& names[3] == "misc.is_role_account"@ && shows_flag(
                cells[3],
                entry_at(result, "misc"@, "is_role_account"@),
            )
            &&& names[4] == "misc.gravatar_url"@ && shows_text(
                cells[4],
                entry_at(result, "misc"@, "gravatar_url"@),
            )
            &&& names[5] == "mx.accepts_mail"@ && shows_flag(
                cells[5],
                entry_at(result, "mx"@, "accepts_mail"@),
            )
            &&& names[6] == "smtp.can_connect"@ && shows_flag(
                cells[6],
                entry_at(result, "smtp"@, "can_connect_smtp"@),
            )
            &&& names[7] == "smtp.has_full_inbox"@ && shows_flag(
                cells[7],
                entry_at(result, "smtp"@, "has_full_inbox"@),
            )
            &&& names[8] == "smtp.is_catch_all"@ && shows_flag(
                cells[8],
                entry_at(result, "smtp"@, "is_catch_all"@),
            )
            &&& names[9] == "smtp.is_deliverable"@ && shows_flag(
                cells[9],
                entry_at(result, "smtp"@, "is_deliverable"@),
            )
            &&& names[10] == "smtp.is_disabled"@ && shows_flag(
                cells[10],
                entry_at(result, "smtp"@, "is_disabled"@),
            )
            &&& names[11] == "syntax.is_valid_syntax"@ && shows_flag(
                cells[11],
                entry_at(result, "syntax"@, "is_valid_syntax"@),
            )
            &&& names[12] == "syntax.domain"@ && shows_text(
                cells[12],
                entry_at(result, "syntax"@, "domain"@),
            )
            &&& names[13] == "syntax.username"@ && shows_text(
                cells[13],
                entry_at(result, "syntax"@, "username"@),
            )
            &&& names[14] == "error"@
        }),
{
    reveal_strlit("");
}

/// The fields of a row show the entries of the result at their own paths, and no other entries: a
/// flag is there exactly where its entry is a boolean, a text exactly where its entry is a string.
pub proof fn each_field_holds_its_own_entry(result: Json)
    requires
        csv_row(result) is Ok,
    ensures
        ({
            let row = csv_row(result)->Ok_0;
            &&& result.member("input"@) == Some(Json::Text(row.input))
            &&& result.member("is_reachable"@) == Some(Json::Text(row.is_reachable))
            &&& holds_flag(row.misc_is_disposable, entry_at(result, "misc"@, "is_disposable"@))
            &&& holds_flag(row.misc_is_role_account, entry_at(result, "misc"@, "is_role_account"@))
            &&& holds_text(row.misc_gravatar_url, entry_at(result, "misc"@, "gravatar_url"@))
            &&& holds_flag(row.mx_accepts_mail, entry_at(result, "mx"@, "accepts_mail"@))
            &&& holds_flag(row.smtp_can_connect, entry_at(result, "smtp"@, "can_connect_smtp"@))
            &&& holds_flag(row.smtp_has_full_inbox, entry_at(result, "smtp"@, "has_full_inbox"@))
            &&& holds_flag(row.smtp_is_catch_all, entry_at(result, "smtp"@, "is_catch_all"@))
            &&& holds_flag(row.smtp_is_deliverable, entry_at(result, "smtp"@, "is_deliverable"@))
            &&& holds_flag(row.smtp_is_disabled, entry_at(result, "smtp"@, "is_disabled"@))
            &&& holds_flag(
                row.syntax_is_valid_syntax,
                entry_at(result, "syntax"@, "is_valid_syntax"@),
            )
            &&& holds_text(row.syntax_domain, entry_at(result, "syntax"@, "domain"@))
            &&& holds_text(row.syntax_username, entry_at(result, "syntax"@, "username"@))
        }),
{
}

/// Whether a field holds a text entry: the very text of a string, and nothing for anything else.
pub open spec fn holds_text(field: Option<Seq<char>>, entry: Option<Json>) -> bool {
    match entry {
        Some(Json::Text(text)) => field == Some(text),
        _ => field is None,
    }
}

/// Whether a field holds a boolean entry: its value, and nothing for anything else.
pub open spec fn holds_flag(field: Option<bool>, entry: Option<Json>) -> bool {
    match entry {
        Some(Json::Bool(flag)) => field == Some(flag),
        _ => field is None,
    }
}

/// A result makes a row exactly where its `input` and its `is_reachable` are strings. Else it is
/// told which of them is not, the first one first.
pub proof fn rows_need_input_and_verdict(result: Json)
    ensures
        ({
            let has_input = result.member("input"@) matches Some(entry) && entry is Text;
            let has_verdict = result.member("is_reachable"@) matches Some(entry) && entry is Text;
            &&& csv_row(result) is Ok <==> has_input && has_verdict
            &&& !has_input ==> csv_row(result) == Err::<CsvRow, Seq<char>>(
                "input should be a string"@,
            )
            &&& has_input && !has_verdict ==> csv_row(result) == Err::<CsvRow, Seq<char>>(
                "is_reachable should be a string"@,
            )
        }),
{
}

/// The error cell with what one more place of a result says: unchanged where the place is missing or
/// `null`, and else with the text of a string, or the JSON text of anything else, behind what is
/// there already and a separator.
pub open spec fn with_error(cell: Option<Seq<char>>, entry: Option<Json>) -> Option<Seq<char>> {
    match entry {
        None => cell,
        Some(Json::Null) => cell,
        Some(value) => {
            let words = match value {
                Json::Text(text) => text,
                _ => json::compact_text(value),
            };
            match cell {
                None => Some(words),
                Some(before) => Some(before + seq![';', ' '] + words),
            }
        },
    }
}

proof fn lemma_one_more_error(errors: Seq<Seq<char>>, entry: Option<Json>)
    ensures
        error_cell(errors + error_entry(entry)) == with_error(error_cell(errors), entry),
{
    reveal_strlit("; ");
    assert("; "@ =~= seq![';', ' ']);
    let more = error_entry(entry);
    if more.len() == 0 {
        assert(errors + more =~= errors);
    } else {
        assert(more.len() == 1);
        assert((errors + more).drop_last() =~= errors);
        assert((errors + more).last() == more[0]);
    }
}

/// Every error of a result is told, and told once: its own first, then those of its sections, in the
/// order misc, mx, smtp, syntax. Where there is none, the error cell is empty.
pub proof fn every_error_is_told(result: Json)
    requires
        csv_row(result) is Ok,
    ensures
        ({
            let own = with_error(None, result.member("error"@));
            let misc = with_error(own, entry_at(result, "misc"@, "error"@));
            let mx = with_error(misc, entry_at(result, "mx"@, "error"@));
            let smtp = with_error(mx, entry_at(result, "smtp"@, "error"@));
            csv_row(result)->Ok_0.error == with_error(smtp, entry_at(result, "syntax"@, "error"@))
        }),
{
    lemma_descend_one(result, "error"@);
    lemma_descend_two(result, "misc"@, "error"@);
    lemma_descend_two(result, "mx"@, "error"@);
    lemma_descend_two(result, "smtp"@, "error"@);
    lemma_descend_two(result, "syntax"@, "error"@);
    let own = error_entry(result.member("error"@));
    let misc = own + error_entry(entry_at(result, "misc"@, "error"@));
    let mx = misc + error_entry(entry_at(result, "mx"@, "error"@));
    let smtp = mx + error_entry(entry_at(result, "smtp"@, "error"@));
    let none = Seq::<Seq<char>>::empty();
    assert(none + own =~= own);
    lemma_one_more_error(none, result.member("error"@));
    lemma_one_more_error(own, entry_at(result, "misc"@, "error"@));
    lemma_one_more_error(misc, entry_at(result, "mx"@, "error"@));
    lemma_one_more_error(mx, entry_at(result, "smtp"@, "error"@));
    lemma_one_more_error(smtp, entry_at(result, "syntax"@, "error"@));
}

proof fn lemma_descend_one(result: Json, key: Seq<char>)
    ensures
        result.descend(seq![key]) == result.member(key),
{
    assert(seq![key].drop_first() =~= Seq::<Seq<char>>::empty());
    reveal_with_fuel(Json::descend, 2);
}

proof fn lemma_descend_two(result: Json, section: Seq<char>, key: Seq<char>)
    ensures
        result.descend(seq![section, key]) == entry_at(result, section, key),
{
    assert(seq![section, key].drop_first() =~= seq![key]);
    assert(seq![key].drop_first() =~= Seq::<Seq<char>>::empty());
    reveal_with_fuel(Json::descend, 3);
}

/// The error cell holds nothing for no errors, an only error as it is, and each further error behind
/// the ones before it and a separator.
pub proof fn joined_errors_grow(errors: Seq<Seq<char>>, error: Seq<char>)
    ensures
        error_cell(Seq::empty()) is None,
        errors.len() == 0 ==> error_cell(errors.push(error)) == Some(error),
        errors.len() > 0 ==> error_cell(errors) is Some && error_cell(errors.push(error)) == Some(
            error_cell(errors)->0 + seq![';', ' '] + error,
        ),
{
    reveal_strlit("; ");
    assert("; "@ =~= seq![';', ' ']);
    assert(errors.push(error).drop_last() =~= errors);
}

/// The parts of a result stand in the row in their own places, unchanged.
pub proof fn parts_stand_in_their_places(fields: CsvFields, row: CsvResponse)
    requires
        fields.make(row),
    ensures
        Some(row.input) == fields.input,
        Some(row.is_reachable) == fields.is_reachable,
        row.misc_is_disposable == fields.misc_is_disposable,
        row.misc_is_role_account == fields.misc_is_role_account,
        row.misc_gravatar_url == fields.misc_gravatar_url,
        row.mx_accepts_mail == fields.mx_accepts_mail,
        row.smtp_can_connect == fields.smtp_can_connect,
        row.smtp_has_full_inbox == fields.smtp_has_full_inbox,
        row.smtp_is_catch_all == fields.smtp_is_catch_all,
        row.smtp_is_deliverable == fields.smtp_is_deliverable,
        row.smtp_is_disabled == fields.smtp_is_disabled,
        row.syntax_is_valid_syntax == fields.syntax_is_valid_syntax,
        row.syntax_domain == fields.syntax_domain,
        row.syntax_username == fields.syntax_username,
        row.error is None <==> fields.errors@.len() == 0,
        fields.errors@.len() == 1 ==> row.error->0@ == fields.errors@[0]@,
        row.error.deep_view() == error_cell(fields.errors.deep_view()),
{
}

/// The cells of a row show its fields one by one, in the order of the columns.
pub proof fn cells_show_the_fields(row: CsvRow)
    ensures
        ({
            let cells = row.cells();
            let flag = |i: int, field: Option<bool>|
                cells[i] == match field {
                    Some(true) => "true"@,
                    Some(false) => "false"@,
                    None => seq![],
                };
            let text = |i: int, field: Option<Seq<char>>|
                cells[i] == match field {
                    Some(text) => text,
                    None => seq![],
                };
            &&& cells.len() == 15
            &&& cells[0] == row.input
            &&& cells[1] == row.is_reachable
            &&& flag(2, row.misc_is_disposable)
            &&& flag(3, row.misc_is_role_account)
            &&& text(4, row.misc_gravatar_url)
            &&& flag(5, row.mx_accepts_mail)
            &&& flag(6, row.smtp_can_connect)
            &&& flag(7, row.smtp_has_full_inbox)
            &&& flag(8, row.smtp_is_catch_all)
            &&& flag(9, row.smtp_is_deliverable)
            &&& flag(10, row.smtp_is_disabled)
            &&& flag(11, row.syntax_is_valid_syntax)
            &&& text(12, row.syntax_domain)
            &&& text(13, row.syntax_username)
            &&& text(14, row.error)
        }),
{
    reveal_strlit("");
    assert(""@ =~= seq![]);
}

/// What a row holds is what its fields hold, each under its own name.
pub proof fn rows_are_read_field_by_field(row: CsvResponse)
    ensures
        row@.input == row.input@,
        row@.is_reachable == row.is_reachable@,
        row@.misc_is_disposable == row.misc_is_disposable,
        row@.misc_is_role_account == row.misc_is_role_account,
        row@.misc_gravatar_url == row.misc_gravatar_url.deep_view(),
        row@.mx_accepts_mail == row.mx_accepts_mail,
        row@.smtp_can_connect == row.smtp_can_connect,
        row@.smtp_has_full_inbox == row.smtp_has_full_inbox,
        row@.smtp_is_catch_all == row.smtp_is_catch_all,
        row@.smtp_is_deliverable == row.smtp_is_deliverable,
        row@.smtp_is_disabled == row.smtp_is_disabled,
        row@.syntax_is_valid_syntax == row.syntax_is_valid_syntax,
        row@.syntax_domain == row.syntax_domain.deep_view(),
        row@.syntax_username == row.syntax_username.deep_view(),
        row@.error == row.error.deep_view(),
{
}

} // verus!
