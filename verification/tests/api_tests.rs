use pg_strict::analyzer::{ParseFailure, ParsedStmt, QueryAnalyzer};
use pg_strict::api::{
    config_row, invalid_mode_message, lacks_where, parse_operation,
    pg_strict_check_where_clause, pg_strict_config, pg_strict_set_delete_mode,
    pg_strict_set_update_mode, pg_strict_validate_delete, pg_strict_validate_update,
    pg_strict_version, set_mode, validate, ValidationError,
};
use pg_strict::guc::{
    current_modes, init_gucs, mode_to_str, parse_mode, PolicySettings, StrictMode,
};
use pg_strict::operation::Operation;
use pg_strict::token::{eq_ignore_case, to_ascii_lower};

#[test]
fn version_is_reported() {
    assert_eq!("0.1.0", pg_strict_version());
}

#[test]
fn check_where_clause_with_where() {
    assert!(pg_strict_check_where_clause(
        "UPDATE users SET status = 'inactive' WHERE id = 1",
        "UPDATE"
    ));
    assert!(pg_strict_check_where_clause("DELETE FROM sessions WHERE expired < NOW()", "DELETE"));
}

#[test]
fn check_where_clause_without_where() {
    assert!(!pg_strict_check_where_clause("UPDATE users SET status = 'inactive'", "UPDATE"));
    assert!(!pg_strict_check_where_clause("DELETE FROM sessions", "DELETE"));
}

#[test]
fn check_where_clause_case_insensitive() {
    assert!(pg_strict_check_where_clause("update users set x = 1 where id = 1", "UPDATE"));
    assert!(pg_strict_check_where_clause("delete from users where id = 1", "DELETE"));
    assert!(pg_strict_check_where_clause("update users set x = 1 where id = 1", "update"));
    assert!(pg_strict_check_where_clause("delete from users where id = 1", "DeLeTe"));
}

#[test]
fn check_where_clause_with_newlines() {
    assert!(pg_strict_check_where_clause(
        "UPDATE users\nSET status = 'inactive'\nWHERE id = 1",
        "UPDATE"
    ));
    assert!(!pg_strict_check_where_clause("UPDATE users\nSET status = 'inactive'", "UPDATE"));
}

#[test]
fn check_where_clause_with_subquery_in_where() {
    assert!(pg_strict_check_where_clause(
        "UPDATE users SET status = 'ok' WHERE id IN (SELECT id FROM logs WHERE created_at > NOW())",
        "UPDATE"
    ));
}

#[test]
fn check_where_clause_is_false_for_an_unknown_kind() {
    assert!(!pg_strict_check_where_clause("UPDATE t SET a = 1 WHERE id = 1", "select"));
    assert!(!pg_strict_check_where_clause("UPDATE t SET a = 1 WHERE id = 1", ""));
    assert!(!pg_strict_check_where_clause("UPDATE t SET a = 1 WHERE id = 1", "updates"));
}

#[test]
fn check_where_clause_is_false_without_a_statement_of_the_kind() {
    assert!(!pg_strict_check_where_clause("UPDATE t SET a = 1 WHERE id = 1", "delete"));
    assert!(!pg_strict_check_where_clause("SELECT 1", "update"));
}

#[test]
fn check_where_clause_is_false_when_any_statement_lacks_the_filter() {
    assert!(!pg_strict_check_where_clause(
        "UPDATE t SET a = 1 WHERE id = 1; UPDATE t SET a = 2",
        "update"
    ));
}

#[test]
fn check_where_clause_is_false_for_invalid_sql() {
    assert!(!pg_strict_check_where_clause("UPDATE SET WHERE", "update"));
}

#[test]
fn operation_tokens_are_read_without_regard_to_case() {
    assert_eq!(parse_operation("update"), Some(Operation::Update));
    assert_eq!(parse_operation("UPDATE"), Some(Operation::Update));
    assert_eq!(parse_operation("Delete"), Some(Operation::Delete));
    assert_eq!(parse_operation("insert"), None);
    assert_eq!(parse_operation("updat"), None);
    assert_eq!(parse_operation("update "), None);
}

#[test]
fn validation_accepts_filtered_statements() {
    assert_eq!(pg_strict_validate_update("UPDATE t SET a = 1 WHERE id = 1"), Ok(true));
    assert_eq!(pg_strict_validate_delete("DELETE FROM t WHERE id = 1"), Ok(true));
}

#[test]
fn validation_reports_the_violation() {
    let outcome = pg_strict_validate_update("UPDATE t SET a = 1");
    assert_eq!(outcome, Err(ValidationError::MissingWhere(Operation::Update)));
    assert_eq!(
        outcome.unwrap_err().message(),
        "UPDATE statement without WHERE clause detected. This operation would affect all rows in the table."
    );
    let outcome = pg_strict_validate_delete("DELETE FROM t WHERE id = 1; DELETE FROM t");
    assert_eq!(outcome, Err(ValidationError::MissingWhere(Operation::Delete)));
    assert_eq!(
        outcome.unwrap_err().message(),
        "DELETE statement without WHERE clause detected. This operation would affect all rows in the table."
    );
}

#[test]
fn validation_reports_invalid_sql_on_its_own() {
    let outcome = pg_strict_validate_update("UPDATE SET WHERE");
    assert_eq!(outcome, Err(ValidationError::ParseFailure(Operation::Update)));
    assert_eq!(outcome.unwrap_err().message(), "Failed to parse UPDATE query.");
    let outcome = pg_strict_validate_delete("DELETE DELETE");
    assert_eq!(outcome, Err(ValidationError::ParseFailure(Operation::Delete)));
    assert_eq!(outcome.unwrap_err().message(), "Failed to parse DELETE query.");
}

#[test]
fn validation_looks_at_its_own_operation_only() {
    assert_eq!(pg_strict_validate_update("DELETE FROM t"), Ok(true));
    assert_eq!(pg_strict_validate_delete("UPDATE t SET a = 1"), Ok(true));
}

#[test]
fn validate_judges_a_given_analysis() {
    let analysis: Result<QueryAnalyzer, ParseFailure> = Ok(QueryAnalyzer::from_statements(vec![
        ParsedStmt { operation: Operation::Update, has_where: true },
        ParsedStmt { operation: Operation::Delete, has_where: false },
    ]));
    assert_eq!(validate(&analysis, Operation::Update), Ok(true));
    assert_eq!(
        validate(&analysis, Operation::Delete),
        Err(ValidationError::MissingWhere(Operation::Delete))
    );
    let failed: Result<QueryAnalyzer, ParseFailure> = Err(ParseFailure);
    assert_eq!(
        validate(&failed, Operation::Update),
        Err(ValidationError::ParseFailure(Operation::Update))
    );
}

#[test]
fn lacks_where_finds_an_unfiltered_statement_of_the_operation() {
    let analyzer = QueryAnalyzer::from_statements(vec![
        ParsedStmt { operation: Operation::Update, has_where: true },
        ParsedStmt { operation: Operation::Delete, has_where: false },
    ]);
    assert!(!lacks_where(&analyzer, Operation::Update));
    assert!(lacks_where(&analyzer, Operation::Delete));
    assert!(!lacks_where(&QueryAnalyzer::from_statements(Vec::new()), Operation::Delete));
}

#[test]
fn config_reports_both_modes() {
    let rows = pg_strict_config(PolicySettings {
        update_mode: StrictMode::On,
        delete_mode: StrictMode::Warn,
    });
    assert_eq!(rows.len(), 2);
    assert_eq!(rows[0].setting, "require_where_on_update");
    assert_eq!(rows[0].current_value, "on");
    assert_eq!(rows[0].description, "Require WHERE clause on UPDATE statements");
    assert_eq!(rows[1].setting, "require_where_on_delete");
    assert_eq!(rows[1].current_value, "warn");
    assert_eq!(rows[1].description, "Require WHERE clause on DELETE statements");
    let row = config_row(Operation::Delete, StrictMode::Off);
    assert_eq!(row.current_value, "off");
}

#[test]
fn set_mode_builds_the_command_in_lower_case() {
    assert_eq!(
        set_mode("pg_strict.require_where_on_update", "ON"),
        Some("SET pg_strict.require_where_on_update = 'on'".to_string())
    );
    assert_eq!(
        pg_strict_set_update_mode("warn"),
        Some("SET pg_strict.require_where_on_update = 'warn'".to_string())
    );
    assert_eq!(
        pg_strict_set_delete_mode("Off"),
        Some("SET pg_strict.require_where_on_delete = 'off'".to_string())
    );
}

#[test]
fn set_mode_rejects_an_unknown_token() {
    assert_eq!(set_mode("pg_strict.require_where_on_update", "invalid"), None);
    assert_eq!(pg_strict_set_update_mode(""), None);
    assert_eq!(pg_strict_set_delete_mode("onn"), None);
    assert_eq!(pg_strict_set_delete_mode("o"), None);
    assert_eq!(
        invalid_mode_message("strict"),
        "Invalid mode 'strict'. Use 'off', 'warn', or 'on'."
    );
}

#[test]
fn mode_tokens_round_trip() {
    assert_eq!(mode_to_str(StrictMode::Off), "off");
    assert_eq!(mode_to_str(StrictMode::Warn), "warn");
    assert_eq!(mode_to_str(StrictMode::On), "on");
    assert_eq!(parse_mode("off"), Some(StrictMode::Off));
    assert_eq!(parse_mode("WARN"), Some(StrictMode::Warn));
    assert_eq!(parse_mode("On"), Some(StrictMode::On));
    assert_eq!(parse_mode("strict"), None);
    assert_eq!(parse_mode(" on"), None);
}

#[test]
fn settings_start_with_both_modes_off() {
    let settings = init_gucs();
    assert_eq!(current_modes(&settings), (StrictMode::Off, StrictMode::Off));
}

#[test]
fn settings_change_one_mode_at_a_time() {
    let mut settings = init_gucs();
    assert!(settings.set_from_token(Operation::Update, "ON"));
    assert_eq!(current_modes(&settings), (StrictMode::On, StrictMode::Off));
    assert!(settings.set_from_token(Operation::Delete, "warn"));
    assert_eq!(current_modes(&settings), (StrictMode::On, StrictMode::Warn));
    assert_eq!(settings.mode_for(Operation::Update), StrictMode::On);
    assert_eq!(settings.mode_for(Operation::Delete), StrictMode::Warn);
}

#[test]
fn settings_are_unchanged_by_a_rejected_token() {
    let mut settings =
        PolicySettings { update_mode: StrictMode::Warn, delete_mode: StrictMode::On };
    assert!(!settings.set_from_token(Operation::Update, "enabled"));
    assert_eq!(
        settings,
        PolicySettings { update_mode: StrictMode::Warn, delete_mode: StrictMode::On }
    );
}

#[test]
fn tokens_compare_without_regard_to_ascii_case() {
    assert!(eq_ignore_case("UpDaTe", "update"));
    assert!(eq_ignore_case("", ""));
    assert!(!eq_ignore_case("update", "delete"));
    assert!(!eq_ignore_case("upd", "update"));
    assert!(!eq_ignore_case("\u{212A}", "k"));
    assert_eq!(to_ascii_lower('A'), 'a');
    assert_eq!(to_ascii_lower('Z'), 'z');
    assert_eq!(to_ascii_lower('a'), 'a');
    assert_eq!(to_ascii_lower('['), '[');
    assert_eq!(to_ascii_lower('@'), '@');
    assert_eq!(to_ascii_lower('1'), '1');
}
