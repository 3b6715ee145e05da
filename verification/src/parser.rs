//! The statement tree handed to the classifier, and the one place where SQL
//! text is turned into it.
//!
//! Parsing itself is the work of the `sqlparser` crate. Nothing in this module
//! is proved about the parser: the items marked as trusted below state what the
//! rest of the library assumes of it.

use sqlparser::ast::{Expr, SetExpr, Statement};
use sqlparser::dialect::PostgreSqlDialect;
use sqlparser::parser::{Parser, ParserError};
use vstd::prelude::*;

verus! {

/// Trusted declaration of `sqlparser::ast::Expr`, an SQL expression. Values of
/// it are carried around untouched; the library only asks whether one is there.
#[verifier::external_type_specification]
#[verifier::external_body]
pub struct ExExpr(sqlparser::ast::Expr);

/// Trusted declaration of `sqlparser::parser::ParserError`, the error of a
/// failed parse. Its contents are never read.
#[verifier::external_type_specification]
#[verifier::external_body]
pub struct ExParserError(sqlparser::parser::ParserError);

/// The statement that a query expression wraps: the `UPDATE` or `DELETE` that
/// follows a `WITH` clause, or anything else.
#[derive(Debug)]
pub enum QueryBody {
    /// An `UPDATE` with its `WHERE` predicate, if it has one.
    Update { filter: Option<Expr> },
    /// A `DELETE` with its `WHERE` predicate, if it has one.
    Delete { filter: Option<Expr> },
    /// A `SELECT`, `VALUES`, `INSERT` or any other body.
    Other,
}

/// One top-level statement of a parsed SQL text, reduced to what the
/// classifier reads.
#[derive(Debug)]
pub enum StatementNode {
    /// An `UPDATE` with its `WHERE` predicate, if it has one.
    Update { filter: Option<Expr> },
    /// A `DELETE` with its `WHERE` predicate, if it has one.
    Delete { filter: Option<Expr> },
    /// A query expression (`WITH ... <body>`, `SELECT ...`) and what it wraps.
    Query { body: QueryBody },
    /// Any other kind of statement.
    Other,
}

/// The statement tree of an SQL text in the PostgreSQL dialect: the top-level
/// statements in source order, or `None` where the text is not valid SQL.
///
/// This is a name for the answer of `sqlparser`'s parser; the library knows no
/// more of it than that the same text always has the same tree.
pub uninterp spec fn parse_tree(text: Seq<char>) -> Option<Seq<StatementNode>>;

/// Trusted: calls `sqlparser::parser::Parser::parse_sql` with
/// `PostgreSqlDialect` and moves each statement's `WHERE` slot (`selection`)
/// into a [`StatementNode`]. The contract claims that the outcome is the one
/// named by [`parse_tree`] for this text: `Ok` with the nodes when the parser
/// accepts the text, `Err` with the parser's error when it does not.
#[verifier::external_body]
pub(crate) fn parse_statement_nodes(text: &str) -> (outcome: Result<Vec<StatementNode>, ParserError>)
    ensures
        match outcome {
            Ok(nodes) => parse_tree(text@) == Some(nodes@),
            Err(_) => parse_tree(text@) is None,
        },
{
    let statements = Parser::parse_sql(&PostgreSqlDialect {}, text)?;
    Ok(statements.into_iter().map(|statement| match statement {
        Statement::Update(update) => StatementNode::Update { filter: update.selection },
        Statement::Delete(delete) => StatementNode::Delete { filter: delete.selection },
        Statement::Query(query) => match *query.body {
            SetExpr::Update(Statement::Update(update)) => StatementNode::Query { body: QueryBody::Update { filter: update.selection } },
            SetExpr::Delete(Statement::Delete(delete)) => StatementNode::Query { body: QueryBody::Delete { filter: delete.selection } },
            _ => StatementNode::Query { body: QueryBody::Other },
        },
        _ => StatementNode::Other,
    }).collect())
}

} // verus!
