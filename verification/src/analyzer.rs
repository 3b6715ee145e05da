//! Classification of parsed statements and the questions asked of one query
//! text: which statements are `UPDATE` or `DELETE`, and which of them carry a
//! `WHERE` predicate.

use crate::operation::Operation;
use crate::parser::{parse_statement_nodes, parse_tree, QueryBody, StatementNode};
use vstd::prelude::*;

verus! {

/// One `UPDATE` or `DELETE` statement of a query text, with the fact of
/// whether it carries a `WHERE` predicate.
#[derive(Debug, Clone, Copy, PartialEq, Eq, Structural)]
pub struct ParsedStmt {
    pub operation: Operation,
    pub has_where: bool,
}

/// The query text could not be parsed: it is not valid SQL.
#[derive(Debug, Clone, Copy, PartialEq, Eq, Structural)]
pub struct ParseFailure;

/// What the classifier makes of one statement node: the operation and the
/// presence of its `WHERE` predicate for an `UPDATE` or `DELETE`, whether it
/// stands alone or follows a `WITH` clause; `None` for every other statement.
/// Only the presence of the predicate counts, never what it says.
pub open spec fn classify_node(node: StatementNode) -> Option<ParsedStmt> {
    match node {
        StatementNode::Update { filter } => Some(
            ParsedStmt { operation: Operation::Update, has_where: filter is Some },
        ),
        StatementNode::Delete { filter } => Some(
            ParsedStmt { operation: Operation::Delete, has_where: filter is Some },
        ),
        StatementNode::Query { body: QueryBody::Update { filter } } => Some(
            ParsedStmt { operation: Operation::Update, has_where: filter is Some },
        ),
        StatementNode::Query { body: QueryBody::Delete { filter } } => Some(
            ParsedStmt { operation: Operation::Delete, has_where: filter is Some },
        ),
        _ => None,
    }
}

/// The classified statements of a statement tree: one entry for each `UPDATE`
/// or `DELETE` node, in source order; all other nodes are dropped.
pub open spec fn classify(nodes: Seq<StatementNode>) -> Seq<ParsedStmt> {
    nodes.filter_map(|node: StatementNode| classify_node(node))
}

/// The outcome of analysing a query text: the classified statements of its
/// statement tree, or the failure to parse it.
pub open spec fn analysis_of(text: Seq<char>) -> Result<Seq<ParsedStmt>, ParseFailure> {
    match parse_tree(text) {
        Some(nodes) => Ok(classify(nodes)),
        None => Err(ParseFailure),
    }
}

/// Whether a statement is of the given operation.
pub open spec fn is_of(stmt: ParsedStmt, operation: Operation) -> bool {
    stmt.operation == operation
}

/// Whether the statements hold at least one of the given operation and every
/// one of that operation carries a `WHERE` predicate.
pub open spec fn all_filtered(statements: Seq<ParsedStmt>, operation: Operation) -> bool {
    &&& exists|i: int| 0 <= i < statements.len() && is_of(#[trigger] statements[i], operation)
    &&& forall|i: int|
        0 <= i < statements.len() && is_of(#[trigger] statements[i], operation)
            ==> statements[i].has_where
}

/// The operation of a statement that lacks a `WHERE` predicate.
pub open spec fn missing_operation(stmt: ParsedStmt) -> Option<Operation> {
    if stmt.has_where {
        None
    } else {
        Some(stmt.operation)
    }
}

/// The operations of the statements without a `WHERE` predicate: one entry
/// for each such statement, in source order.
pub open spec fn missing_operations(statements: Seq<ParsedStmt>) -> Seq<Operation> {
    statements.filter_map(|stmt: ParsedStmt| missing_operation(stmt))
}

/// Classifies one statement node.
pub fn classify_statement(node: &StatementNode) -> (stmt: Option<ParsedStmt>)
    ensures
        stmt == classify_node(*node),
{
    match node {
        StatementNode::Update { filter } => Some(
            ParsedStmt { operation: Operation::Update, has_where: filter.is_some() },
        ),
        StatementNode::Delete { filter } => Some(
            ParsedStmt { operation: Operation::Delete, has_where: filter.is_some() },
        ),
        StatementNode::Query { body } => match body {
            QueryBody::Update { filter } => Some(
                ParsedStmt { operation: Operation::Update, has_where: filter.is_some() },
            ),
            QueryBody::Delete { filter } => Some(
                ParsedStmt { operation: Operation::Delete, has_where: filter.is_some() },
            ),
            QueryBody::Other => None,
        },
        StatementNode::Other => None,
    }
}

/// Classifies every node of a statement tree, keeping the `UPDATE` and
/// `DELETE` statements in source order.
pub fn collect_parsed_statements(nodes: &Vec<StatementNode>) -> (parsed: Vec<ParsedStmt>)
    ensures
        parsed@ == classify(nodes@),
{
    let mut parsed: Vec<ParsedStmt> = Vec::new();
    let mut i: usize = 0;
    while i < nodes.len()
        invariant
            i <= nodes.len(),
            parsed@ == classify(nodes@.take(i as int)),
        decreases nodes.len() - i,
    {
        proof {
            nodes@.lemma_filter_map_take_succ(|node: StatementNode| classify_node(node), i as int);
        }
        match classify_statement(&nodes[i]) {
            Some(stmt) => {
                parsed.push(stmt);
            },
            None => {},
        }
        i += 1;
    }
    assert(nodes@.take(i as int) =~= nodes@);
    parsed
}

/// The classified `UPDATE` and `DELETE` statements of one query text.
pub struct QueryAnalyzer {
    statements: Vec<ParsedStmt>,
}

impl View for QueryAnalyzer {
    type V = Seq<ParsedStmt>;

    /// The classified statements, in source order.
    closed spec fn view(&self) -> Seq<ParsedStmt> {
        self.statements@
    }
}

impl QueryAnalyzer {
    /// An analyzer over statements that are already classified.
    pub fn from_statements(statements: Vec<ParsedStmt>) -> (analyzer: Self)
        ensures
            analyzer@ == statements@,
    {
        QueryAnalyzer { statements }
    }

    /// Parses a query text and classifies its statements. Fails exactly when
    /// the text is not valid SQL; a text without any `UPDATE` or `DELETE`
    /// gives an analyzer without statements.
    pub fn new(query_string: &str) -> (outcome: Result<Self, ParseFailure>)
        ensures
            analysis_view(outcome) == analysis_of(query_string@),
    {
        match parse_statement_nodes(query_string) {
            Ok(nodes) => Ok(QueryAnalyzer { statements: collect_parsed_statements(&nodes) }),
            Err(_) => Err(ParseFailure),
        }
    }

    /// The number of classified statements.
    pub fn len(&self) -> (n: usize)
        ensures
            n == self@.len(),
    {
        self.statements.len()
    }

    /// The classified statement at a position, in source order.
    pub fn statement(&self, index: usize) -> (stmt: Option<ParsedStmt>)
        ensures
            stmt == if index < self@.len() {
                Some(self@[index as int])
            } else {
                None
            },
    {
        if index < self.statements.len() {
            Some(self.statements[index])
        } else {
            None
        }
    }

    /// Whether the query holds at least one statement of the operation and all
    /// of them carry a `WHERE` predicate. A query without any statement of the
    /// operation gives `false`.
    pub fn has_where_clause(&self, operation: Operation) -> (all: bool)
        ensures
            all == all_filtered(self@, operation),
    {
        let mut saw_operation = false;
        let mut i: usize = 0;
        while i < self.statements.len()
            invariant
                i <= self.statements.len(),
                saw_operation == exists|j: int|
                    0 <= j < i && is_of(#[trigger] self.statements@[j], operation),
                forall|j: int|
                    0 <= j < i && is_of(#[trigger] self.statements@[j], operation)
                        ==> self.statements@[j].has_where,
            decreases self.statements.len() - i,
        {
            let stmt = self.statements[i];
            if stmt.operation == operation {
                if !stmt.has_where {
                    assert(is_of(self.statements@[i as int], operation));
                    return false;
                }
                saw_operation = true;
                assert(is_of(self.statements@[i as int], operation));
            }
            i += 1;
        }
        saw_operation
    }

    /// The operation of every statement that lacks a `WHERE` predicate, one
    /// entry for each such statement, in source order.
    pub fn missing_where_operations(&self) -> (missing: Vec<Operation>)
        ensures
            missing@ == missing_operations(self@),
    {
        let mut missing: Vec<Operation> = Vec::new();
        let mut i: usize = 0;
        while i < self.statements.len()
            invariant
                i <= self.statements.len(),
                missing@ == missing_operations(self.statements@.take(i as int)),
            decreases self.statements.len() - i,
        {
            proof {
                self.statements@.lemma_filter_map_take_succ(
                    |stmt: ParsedStmt| missing_operation(stmt),
                    i as int,
                );
            }
            let stmt = self.statements[i];
            if !stmt.has_where {
                missing.push(stmt.operation);
            }
            i += 1;
        }
        assert(self.statements@.take(i as int) =~= self.statements@);
        missing
    }

    /// Whether the query holds any `UPDATE` or `DELETE` statement.
    pub fn contains_dml(&self) -> (any: bool)
        ensures
            any == (self@.len() > 0),
    {
        self.statements.len() > 0
    }
}

/// The outcome of an analysis as the contracts see it: the classified
/// statements, or the failure.
pub open spec fn analysis_view(
    analysis: Result<QueryAnalyzer, ParseFailure>,
) -> Result<Seq<ParsedStmt>, ParseFailure> {
    match analysis {
        Ok(analyzer) => Ok(analyzer@),
        Err(failure) => Err(failure),
    }
}

/// The operations that lack a `WHERE` predicate in a query text, or nothing
/// where the text cannot be parsed.
pub fn analyze_missing_where_operations(query_string: &str) -> (missing: Vec<Operation>)
    ensures
        missing@ == match analysis_of(query_string@) {
            Ok(statements) => missing_operations(statements),
            Err(_) => Seq::<Operation>::empty(),
        },
{
    match QueryAnalyzer::new(query_string) {
        Ok(analyzer) => analyzer.missing_where_operations(),
        Err(_) => Vec::new(),
    }
}

/// The statements that lack a `WHERE` predicate, in source order.
pub open spec fn unfiltered_statements(statements: Seq<ParsedStmt>) -> Seq<ParsedStmt> {
    statements.filter(|stmt: ParsedStmt| !stmt.has_where)
}

/// The statements that carry a `WHERE` predicate, in source order.
pub open spec fn filtered_statements(statements: Seq<ParsedStmt>) -> Seq<ParsedStmt> {
    statements.filter(|stmt: ParsedStmt| stmt.has_where)
}

/// The number of statements that lack a `WHERE` predicate.
pub open spec fn count_unfiltered(statements: Seq<ParsedStmt>) -> nat
    decreases statements.len(),
{
    if statements.len() == 0 {
        0
    } else {
        count_unfiltered(statements.drop_last()) + if statements.last().has_where {
            0nat
        } else {
            1nat
        }
    }
}

/// The missing operations are the operations of the statements that lack a
/// `WHERE` predicate, one for each such statement and in source order; so
/// there are as many of them as there are such statements.
pub proof fn lemma_missing_operations_follow_source(statements: Seq<ParsedStmt>)
    ensures
        missing_operations(statements).len() == count_unfiltered(statements),
        missing_operations(statements) == unfiltered_statements(statements).map_values(
            |stmt: ParsedStmt| stmt.operation,
        ),
    decreases statements.len(),
{
    let lacking = |stmt: ParsedStmt| !stmt.has_where;
    let operation = |stmt: ParsedStmt| stmt.operation;
    if statements.len() == 0 {
        reveal(Seq::filter);
        assert(missing_operations(statements) =~= statements.filter(lacking).map_values(operation));
    } else {
        let rest = statements.drop_last();
        let last = statements.last();
        lemma_missing_operations_follow_source(rest);
        assert(statements =~= rest.push(last));
        rest.lemma_filter_push(last, lacking);
        if !last.has_where {
            assert(rest.filter(lacking).push(last).map_values(operation) =~= rest.filter(
                lacking,
            ).map_values(operation).push(last.operation));
            assert(missing_operations(statements) =~= missing_operations(rest).push(
                last.operation,
            ));
        }
    }
}

/// A query without any statement of an operation does not count as having
/// all statements of that operation filtered.
pub proof fn lemma_absent_operation_is_not_filtered(
    statements: Seq<ParsedStmt>,
    operation: Operation,
)
    requires
        forall|i: int| 0 <= i < statements.len() ==> !is_of(#[trigger] statements[i], operation),
    ensures
        !all_filtered(statements, operation),
{
}

/// One statement of an operation without a `WHERE` predicate is enough for
/// the answer `false`, wherever it stands and whatever the other statements
/// of that operation carry.
pub proof fn lemma_one_unfiltered_statement_fails(
    statements: Seq<ParsedStmt>,
    operation: Operation,
    position: int,
)
    requires
        0 <= position < statements.len(),
        is_of(statements[position], operation),
        !statements[position].has_where,
    ensures
        !all_filtered(statements, operation),
{
}

/// Analysing the same text twice gives the same outcome: the same classified
/// statements, or a failure both times.
pub proof fn lemma_analysis_is_repeatable(
    text: Seq<char>,
    first: Result<QueryAnalyzer, ParseFailure>,
    second: Result<QueryAnalyzer, ParseFailure>,
)
    requires
        analysis_view(first) == analysis_of(text),
        analysis_view(second) == analysis_of(text),
    ensures
        analysis_view(first) == analysis_view(second),
        first is Ok <==> second is Ok,
        first matches Ok(a) ==> (second matches Ok(b) ==> a@ == b@),
{
}

/// Every statement either lacks a `WHERE` predicate or carries one: a query
/// holds a relevant statement exactly when it has a missing operation or a
/// filtered statement.
pub proof fn lemma_statements_split_by_filter(statements: Seq<ParsedStmt>)
    ensures
        statements.len() == missing_operations(statements).len() + filtered_statements(
            statements,
        ).len(),
        statements.len() > 0 <==> missing_operations(statements).len() > 0 || filtered_statements(
            statements,
        ).len() > 0,
    decreases statements.len(),
{
    let carrying = |stmt: ParsedStmt| stmt.has_where;
    if statements.len() == 0 {
        reveal(Seq::filter);
    } else {
        let rest = statements.drop_last();
        let last = statements.last();
        lemma_statements_split_by_filter(rest);
        assert(statements =~= rest.push(last));
        rest.lemma_filter_push(last, carrying);
        if !last.has_where {
            assert(missing_operations(statements) =~= missing_operations(rest).push(
                last.operation,
            ));
        }
    }
}

} // verus!
