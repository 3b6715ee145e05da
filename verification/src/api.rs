//! The entry points that an operator calls: inspection and validation of a
//! query text, the report of the settings, and the commands that change them.

use crate::analyzer::{
    all_filtered, analysis_of, analysis_view, is_of, ParseFailure, ParsedStmt, QueryAnalyzer,
};
use crate::guc::{
    current_modes, mode_named, mode_to_str, mode_token, parse_mode, PolicySettings, StrictMode,
};
use crate::hooks::{violation_sentence, violation_text};
use crate::operation::Operation;
use crate::token::{eq_ignore_case, matches_token};
use vstd::prelude::*;

verus! {

/// The version of the library.
pub fn pg_strict_version() -> (version: &'static str)
    ensures
        version@ == "0.1.0"@,
{
    "0.1.0"
}

/// The operation that a token names, up to the case of its letters: `update`
/// or `delete`. Any other token names none.
pub open spec fn operation_named(token: Seq<char>) -> Option<Operation> {
    if matches_token(token, "update"@) {
        Some(Operation::Update)
    } else if matches_token(token, "delete"@) {
        Some(Operation::Delete)
    } else {
        None
    }
}

/// Reads an operation from its token, ignoring case.
pub fn parse_operation(token: &str) -> (operation: Option<Operation>)
    ensures
        operation == operation_named(token@),
{
    if eq_ignore_case(token, "update") {
        Some(Operation::Update)
    } else if eq_ignore_case(token, "delete") {
        Some(Operation::Delete)
    } else {
        None
    }
}

/// The answer of the inspection entry point: whether the query holds at least
/// one statement of the named operation and all of them carry a `WHERE`
/// predicate. A token that names no operation, and a query that cannot be
/// parsed, give `false`.
pub open spec fn inspection(
    analysis: Result<Seq<ParsedStmt>, ParseFailure>,
    operation: Option<Operation>,
) -> bool {
    match (operation, analysis) {
        (Some(op), Ok(statements)) => all_filtered(statements, op),
        _ => false,
    }
}

/// Whether every statement of the named kind in a query text carries a
/// `WHERE` predicate, and there is at least one. A kind other than `update`
/// and `delete`, and a text that cannot be parsed, give `false`.
pub fn pg_strict_check_where_clause(query: &str, stmt_type: &str) -> (all: bool)
    ensures
        all == inspection(analysis_of(query@), operation_named(stmt_type@)),
{
    match parse_operation(stmt_type) {
        Some(operation) => match QueryAnalyzer::new(query) {
            Ok(analyzer) => analyzer.has_where_clause(operation),
            Err(_) => false,
        },
        None => false,
    }
}

/// Why a query text did not pass validation.
#[derive(Debug, Clone, Copy, PartialEq, Eq, Structural)]
pub enum ValidationError {
    /// A statement of the operation has no `WHERE` predicate.
    MissingWhere(Operation),
    /// The text that was to be validated for the operation is not valid SQL.
    ParseFailure(Operation),
}

/// The text of a validation error.
pub open spec fn validation_text(error: ValidationError) -> Seq<char> {
    match error {
        ValidationError::MissingWhere(operation) => violation_text(operation),
        ValidationError::ParseFailure(operation) => "Failed to parse "@ + operation.keyword()
            + " query."@,
    }
}

impl ValidationError {
    /// The text of the error.
    pub fn message(&self) -> (message: String)
        ensures
            message@ == validation_text(*self),
    {
        match self {
            ValidationError::MissingWhere(operation) => violation_sentence(*operation),
            ValidationError::ParseFailure(operation) => String::from_str("Failed to parse ").concat(
                operation.as_str(),
            ).concat(" query."),
        }
    }
}

/// Whether some statement of the operation lacks a `WHERE` predicate.
pub open spec fn some_unfiltered(statements: Seq<ParsedStmt>, operation: Operation) -> bool {
    exists|i: int|
        0 <= i < statements.len() && is_of(#[trigger] statements[i], operation)
            && !statements[i].has_where
}

/// The result of validating a query for an operation: success when every
/// statement of the operation carries a `WHERE` predicate, which includes a
/// query without any; the violation when one lacks it; the parse failure when
/// the text is not valid SQL.
pub open spec fn validation(
    analysis: Result<Seq<ParsedStmt>, ParseFailure>,
    operation: Operation,
) -> Result<bool, ValidationError> {
    match analysis {
        Ok(statements) => if some_unfiltered(statements, operation) {
            Err(ValidationError::MissingWhere(operation))
        } else {
            Ok(true)
        },
        Err(_) => Err(ValidationError::ParseFailure(operation)),
    }
}

/// Whether some statement of the operation lacks a `WHERE` predicate.
pub fn lacks_where(analyzer: &QueryAnalyzer, operation: Operation) -> (lacking: bool)
    ensures
        lacking == some_unfiltered(analyzer@, operation),
{
    let n = analyzer.len();
    let mut i: usize = 0;
    while i < n
        invariant
            i <= n,
            n == analyzer@.len(),
            forall|j: int|
                0 <= j < i && is_of(#[trigger] analyzer@[j], operation) ==> analyzer@[j].has_where,
        decreases n - i,
    {
        match analyzer.statement(i) {
            Some(stmt) => {
                if stmt.operation == operation && !stmt.has_where {
                    assert(is_of(analyzer@[i as int], operation));
                    return true;
                }
            },
            None => {},
        }
        i += 1;
    }
    false
}

/// Validates an analysed query for an operation.
pub fn validate(analysis: &Result<QueryAnalyzer, ParseFailure>, operation: Operation) -> (outcome:
    Result<bool, ValidationError>)
    ensures
        outcome == validation(analysis_view(*analysis), operation),
{
    match analysis {
        Ok(analyzer) => {
            if lacks_where(analyzer, operation) {
                Err(ValidationError::MissingWhere(operation))
            } else {
                Ok(true)
            }
        },
        Err(_) => Err(ValidationError::ParseFailure(operation)),
    }
}

/// Validates a query text for `UPDATE`: succeeds when every `UPDATE`
/// statement in it carries a `WHERE` predicate.
pub fn pg_strict_validate_update(query: &str) -> (outcome: Result<bool, ValidationError>)
    ensures
        outcome == validation(analysis_of(query@), Operation::Update),
{
    let analysis = QueryAnalyzer::new(query);
    validate(&analysis, Operation::Update)
}

/// Validates a query text for `DELETE`: succeeds when every `DELETE`
/// statement in it carries a `WHERE` predicate.
pub fn pg_strict_validate_delete(query: &str) -> (outcome: Result<bool, ValidationError>)
    ensures
        outcome == validation(analysis_of(query@), Operation::Delete),
{
    let analysis = QueryAnalyzer::new(query);
    validate(&analysis, Operation::Delete)
}

/// One row of the settings report.
#[derive(Debug)]
pub struct ConfigRow {
    pub setting: String,
    pub current_value: String,
    pub description: String,
}

/// The name under which the mode of an operation is reported.
pub open spec fn setting_name(operation: Operation) -> Seq<char> {
    match operation {
        Operation::Update => "require_where_on_update"@,
        Operation::Delete => "require_where_on_delete"@,
    }
}

/// The description of the setting of an operation.
pub open spec fn setting_description(operation: Operation) -> Seq<char> {
    match operation {
        Operation::Update => "Require WHERE clause on UPDATE statements"@,
        Operation::Delete => "Require WHERE clause on DELETE statements"@,
    }
}

/// Whether a row reports the given mode for the given operation.
pub open spec fn reports(row: ConfigRow, operation: Operation, mode: StrictMode) -> bool {
    &&& row.setting@ == setting_name(operation)
    &&& row.current_value@ == mode_token(mode)
    &&& row.description@ == setting_description(operation)
}

/// The row that reports the mode of an operation.
pub fn config_row(operation: Operation, mode: StrictMode) -> (row: ConfigRow)
    ensures
        reports(row, operation, mode),
{
    match operation {
        Operation::Update => ConfigRow {
            setting: String::from_str("require_where_on_update"),
            current_value: String::from_str(mode_to_str(mode)),
            description: String::from_str("Require WHERE clause on UPDATE statements"),
        },
        Operation::Delete => ConfigRow {
            setting: String::from_str("require_where_on_delete"),
            current_value: String::from_str(mode_to_str(mode)),
            description: String::from_str("Require WHERE clause on DELETE statements"),
        },
    }
}

/// The settings report: the row for `UPDATE`, then the row for `DELETE`.
pub fn pg_strict_config(settings: PolicySettings) -> (rows: Vec<ConfigRow>)
    ensures
        rows@.len() == 2,
        reports(rows@[0], Operation::Update, settings.update_mode),
        reports(rows@[1], Operation::Delete, settings.delete_mode),
{
    let (update_mode, delete_mode) = current_modes(&settings);
    let mut rows: Vec<ConfigRow> = Vec::new();
    rows.push(config_row(Operation::Update, update_mode));
    rows.push(config_row(Operation::Delete, delete_mode));
    rows
}

/// The full name of the setting that holds the mode of an operation.
pub open spec fn guc_name(operation: Operation) -> Seq<char> {
    match operation {
        Operation::Update => "pg_strict.require_where_on_update"@,
        Operation::Delete => "pg_strict.require_where_on_delete"@,
    }
}

/// The command that sets a setting to a mode.
pub open spec fn set_command(name: Seq<char>, mode: StrictMode) -> Seq<char> {
    "SET "@ + name + " = '"@ + mode_token(mode) + "'"@
}

/// The command that sets the named setting to the mode that `mode` names, in
/// lower case. A token other than `off`, `warn` and `on`, in any case, is
/// rejected: there is no command then, and nothing is to be changed.
pub fn set_mode(guc_name: &str, mode: &str) -> (command: Option<String>)
    ensures
        match mode_named(mode@) {
            Some(named) => command matches Some(text) && text@ == set_command(guc_name@, named),
            None => command is None,
        },
{
    match parse_mode(mode) {
        Some(named) => Some(
            String::from_str("SET ").concat(guc_name).concat(" = '").concat(
                mode_to_str(named),
            ).concat("'"),
        ),
        None => None,
    }
}

/// The warning about a token that names no mode.
pub open spec fn invalid_mode_text(mode: Seq<char>) -> Seq<char> {
    "Invalid mode '"@ + mode + "'. Use 'off', 'warn', or 'on'."@
}

/// The warning with which a token that names no mode is rejected.
pub fn invalid_mode_message(mode: &str) -> (message: String)
    ensures
        message@ == invalid_mode_text(mode@),
{
    String::from_str("Invalid mode '").concat(mode).concat("'. Use 'off', 'warn', or 'on'.")
}

/// The command that sets the mode for `UPDATE` from a token, if the token
/// names a mode.
pub fn pg_strict_set_update_mode(mode: &str) -> (command: Option<String>)
    ensures
        match mode_named(mode@) {
            Some(named) => command matches Some(text) && text@ == set_command(
                guc_name(Operation::Update),
                named,
            ),
            None => command is None,
        },
{
    set_mode("pg_strict.require_where_on_update", mode)
}

/// The command that sets the mode for `DELETE` from a token, if the token
/// names a mode.
pub fn pg_strict_set_delete_mode(mode: &str) -> (command: Option<String>)
    ensures
        match mode_named(mode@) {
            Some(named) => command matches Some(text) && text@ == set_command(
                guc_name(Operation::Delete),
                named,
            ),
            None => command is None,
        },
{
    set_mode("pg_strict.require_where_on_delete", mode)
}

} // verus!
