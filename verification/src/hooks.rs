//! The enforcement decision for a query that is about to run, and the chain
//! of interceptors that the decision is part of.

use crate::analyzer::{
    analysis_of, analysis_view, missing_operations, ParseFailure, ParsedStmt, QueryAnalyzer,
};
use crate::guc::{PolicySettings, StrictMode};
use crate::operation::Operation;
use vstd::prelude::*;

verus! {

/// Something to tell the operator about a query.
#[derive(Debug, Clone, Copy, PartialEq, Eq, Structural)]
pub enum Notice {
    /// A statement of the operation has no `WHERE` predicate.
    MissingWhere(Operation),
    /// The query could not be parsed and is refused for that reason.
    ParseBlocked,
    /// The query could not be parsed and runs unchecked.
    ParseBypassed,
}

/// The sentence that reports a statement without `WHERE`.
pub open spec fn violation_text(operation: Operation) -> Seq<char> {
    operation.keyword()
        + " statement without WHERE clause detected. This operation would affect all rows in the table."@
}

/// The text of a notice as the interceptor reports it.
pub open spec fn notice_text(notice: Notice) -> Seq<char> {
    match notice {
        Notice::MissingWhere(operation) => "pg_strict: "@ + violation_text(operation),
        Notice::ParseBlocked =>
            "pg_strict: could not parse query text while strict mode is 'on'; blocking execution to avoid unsafe bypass."@,
        Notice::ParseBypassed =>
            "pg_strict: could not parse query text; strict enforcement may be bypassed for this statement."@,
    }
}

/// The sentence that reports a statement of the operation without `WHERE`,
/// without any prefix.
pub fn violation_sentence(operation: Operation) -> (message: String)
    ensures
        message@ == violation_text(operation),
{
    String::from_str(operation.as_str()).concat(
        " statement without WHERE clause detected. This operation would affect all rows in the table.",
    )
}

/// The message with which the interceptor reports a statement of the
/// operation without `WHERE`.
pub fn generate_violation_message(operation: Operation) -> (message: String)
    ensures
        message@ == notice_text(Notice::MissingWhere(operation)),
{
    let sentence = violation_sentence(operation);
    String::from_str("pg_strict: ").concat(sentence.as_str())
}

impl Notice {
    /// The text of the notice.
    pub fn message(&self) -> (message: String)
        ensures
            message@ == notice_text(*self),
    {
        match self {
            Notice::MissingWhere(operation) => generate_violation_message(*operation),
            Notice::ParseBlocked => String::from_str(
                "pg_strict: could not parse query text while strict mode is 'on'; blocking execution to avoid unsafe bypass.",
            ),
            Notice::ParseBypassed => String::from_str(
                "pg_strict: could not parse query text; strict enforcement may be bypassed for this statement.",
            ),
        }
    }
}

/// Whether position `k` holds the first violation whose mode is `On`.
pub open spec fn blocks_at(missing: Seq<Operation>, settings: PolicySettings, k: int) -> bool {
    &&& 0 <= k < missing.len()
    &&& settings.mode_of(missing[k]) == StrictMode::On
    &&& forall|j: int| 0 <= j < k ==> settings.mode_of(#[trigger] missing[j]) != StrictMode::On
}

/// The position of the first violation whose mode is `On`, or the number of
/// violations where there is none.
pub open spec fn blocking_index(missing: Seq<Operation>, settings: PolicySettings) -> int {
    if exists|k: int| blocks_at(missing, settings, k) {
        choose|k: int| blocks_at(missing, settings, k)
    } else {
        missing.len() as int
    }
}

/// The warning for a violation whose mode is `Warn`; none under another mode.
pub open spec fn warning_for(operation: Operation, settings: PolicySettings) -> Option<Notice> {
    if settings.mode_of(operation) == StrictMode::Warn {
        Some(Notice::MissingWhere(operation))
    } else {
        None
    }
}

/// The warnings about a run of violations, in order: one for each violation
/// whose mode is `Warn`.
pub open spec fn warnings_among(run: Seq<Operation>, settings: PolicySettings) -> Seq<Notice> {
    run.filter_map(|operation: Operation| warning_for(operation, settings))
}

/// What is decided about a query: the warnings to emit, in order, and the
/// notice with which the query is refused, if it is.
pub ghost struct Verdict {
    pub warnings: Seq<Notice>,
    pub abort: Option<Notice>,
}

/// The verdict that emits nothing and lets the query run.
pub open spec fn no_action() -> Verdict {
    Verdict { warnings: Seq::empty(), abort: None }
}

/// The verdict on the violations of a query, taken in source order: the first
/// one whose mode is `On` refuses the query and ends the evaluation; each one
/// before it whose mode is `Warn` gives a warning; one whose mode is `Off`
/// gives nothing.
pub open spec fn violation_verdict(missing: Seq<Operation>, settings: PolicySettings) -> Verdict {
    let k = blocking_index(missing, settings);
    Verdict {
        warnings: warnings_among(missing.take(k), settings),
        abort: if k < missing.len() {
            Some(Notice::MissingWhere(missing[k]))
        } else {
            None
        },
    }
}

/// The verdict on a query, from the outcome of its analysis and the
/// settings. With both modes off nothing is done. A query that could not be
/// parsed is refused when either mode is `On`, and runs with one warning
/// otherwise. A parsed query is judged by its violations.
pub open spec fn verdict_of(
    analysis: Result<Seq<ParsedStmt>, ParseFailure>,
    settings: PolicySettings,
) -> Verdict {
    if settings.update_mode == StrictMode::Off && settings.delete_mode == StrictMode::Off {
        no_action()
    } else {
        match analysis {
            Ok(statements) => violation_verdict(missing_operations(statements), settings),
            Err(_) => if settings.update_mode == StrictMode::On || settings.delete_mode
                == StrictMode::On {
                Verdict { warnings: Seq::empty(), abort: Some(Notice::ParseBlocked) }
            } else {
                Verdict { warnings: seq![Notice::ParseBypassed], abort: None }
            },
        }
    }
}

/// The first violation whose mode is `On` is found at one position only.
pub proof fn lemma_blocking_index_unique(missing: Seq<Operation>, settings: PolicySettings, k: int)
    requires
        blocks_at(missing, settings, k),
    ensures
        blocking_index(missing, settings) == k,
{
    let c = choose|c: int| blocks_at(missing, settings, c);
    assert(blocks_at(missing, settings, c));
    if c < k {
        assert(settings.mode_of(missing[c]) != StrictMode::On);
    }
    if k < c {
        assert(settings.mode_of(missing[k]) != StrictMode::On);
    }
}

/// Below a violation whose mode is `On` there is a first one.
pub proof fn lemma_first_blocking_exists(missing: Seq<Operation>, settings: PolicySettings, i: int)
    requires
        0 <= i < missing.len(),
        settings.mode_of(missing[i]) == StrictMode::On,
    ensures
        exists|k: int| 0 <= k <= i && blocks_at(missing, settings, k),
    decreases i,
{
    if forall|j: int| 0 <= j < i ==> settings.mode_of(#[trigger] missing[j]) != StrictMode::On {
        assert(blocks_at(missing, settings, i));
    } else {
        let j = choose|j: int|
            0 <= j < i && settings.mode_of(#[trigger] missing[j]) == StrictMode::On;
        lemma_first_blocking_exists(missing, settings, j);
    }
}

/// A parsed query is refused exactly when one of its violations falls under
/// mode `On`; the notice then names the operation of the first such
/// violation.
pub proof fn lemma_refused_iff_blocked(missing: Seq<Operation>, settings: PolicySettings)
    ensures
        violation_verdict(missing, settings).abort is Some <==> exists|i: int|
            0 <= i < missing.len() && settings.mode_of(#[trigger] missing[i]) == StrictMode::On,
        violation_verdict(missing, settings).abort matches Some(notice) ==> {
            &&& notice matches Notice::MissingWhere(operation)
            &&& settings.mode_of(operation) == StrictMode::On
        },
{
    let k = blocking_index(missing, settings);
    if exists|i: int|
        0 <= i < missing.len() && settings.mode_of(#[trigger] missing[i]) == StrictMode::On {
        let i = choose|i: int|
            0 <= i < missing.len() && settings.mode_of(#[trigger] missing[i]) == StrictMode::On;
        lemma_first_blocking_exists(missing, settings, i);
    }
    if exists|c: int| blocks_at(missing, settings, c) {
        assert(blocks_at(missing, settings, k));
    }
}

/// Every warning about a parsed query names an operation whose mode is
/// `Warn`, and there are no more warnings than violations.
pub proof fn lemma_warnings_are_under_warn(missing: Seq<Operation>, settings: PolicySettings)
    ensures
        violation_verdict(missing, settings).warnings.len() <= missing.len(),
        forall|i: int|
            0 <= i < violation_verdict(missing, settings).warnings.len() ==> {
                &&& (#[trigger] violation_verdict(missing, settings).warnings[i]) matches
                    Notice::MissingWhere(operation)
                &&& settings.mode_of(operation) == StrictMode::Warn
            },
{
    let k = blocking_index(missing, settings);
    if exists|c: int| blocks_at(missing, settings, c) {
        assert(blocks_at(missing, settings, k));
    }
    lemma_warnings_of_prefix(missing.take(k), settings);
}

/// The warnings drawn from a run of violations name operations under `Warn`
/// only, and are no more than the violations.
pub proof fn lemma_warnings_of_prefix(run: Seq<Operation>, settings: PolicySettings)
    ensures
        warnings_among(run, settings).len() <= run.len(),
        forall|i: int|
            0 <= i < warnings_among(run, settings).len() ==> {
                &&& (#[trigger] warnings_among(run, settings)[i]) matches Notice::MissingWhere(
                    operation,
                )
                &&& settings.mode_of(operation) == StrictMode::Warn
            },
    decreases run.len(),
{
    if run.len() > 0 {
        lemma_warnings_of_prefix(run.drop_last(), settings);
    }
}

/// With both modes off nothing is done about any query, parsed or not.
pub proof fn lemma_modes_off_no_action(analysis: Result<Seq<ParsedStmt>, ParseFailure>)
    ensures
        verdict_of(
            analysis,
            (PolicySettings { update_mode: StrictMode::Off, delete_mode: StrictMode::Off }),
        ) == no_action(),
{
}

/// A query that could not be parsed never runs unnoticed unless both modes
/// are off: it is refused when a mode is `On`, and warned about otherwise.
pub proof fn lemma_parse_failure_fails_closed(failure: ParseFailure, settings: PolicySettings)
    requires
        settings.update_mode != StrictMode::Off || settings.delete_mode != StrictMode::Off,
    ensures
        verdict_of(Err(failure), settings).abort is Some <==> (settings.update_mode
            == StrictMode::On || settings.delete_mode == StrictMode::On),
        verdict_of(Err(failure), settings).abort is None ==> verdict_of(
            Err(failure),
            settings,
        ).warnings == seq![Notice::ParseBypassed],
{
}

/// The decision about one query: the warnings to emit, in order, and the
/// notice with which the query is refused, if it is.
#[derive(Debug)]
pub struct Enforcement {
    pub warnings: Vec<Notice>,
    pub abort: Option<Notice>,
}

impl View for Enforcement {
    type V = Verdict;

    open spec fn view(&self) -> Verdict {
        Verdict { warnings: self.warnings@, abort: self.abort }
    }
}

impl Enforcement {
    /// Whether the query may run.
    pub fn proceeds(&self) -> (runs: bool)
        ensures
            runs == (self@.abort is None),
    {
        self.abort.is_none()
    }
}

/// Judges the violations of a query in source order.
pub fn enforce_violations(missing: &Vec<Operation>, settings: PolicySettings) -> (decision:
    Enforcement)
    ensures
        decision@ == violation_verdict(missing@, settings),
{
    let mut warnings: Vec<Notice> = Vec::new();
    let mut i: usize = 0;
    while i < missing.len()
        invariant
            i <= missing.len(),
            forall|j: int|
                0 <= j < i ==> settings.mode_of(#[trigger] missing@[j]) != StrictMode::On,
            warnings@ == warnings_among(missing@.take(i as int), settings),
        decreases missing.len() - i,
    {
        let operation = missing[i];
        let mode = settings.mode_for(operation);
        proof {
            missing@.lemma_filter_map_take_succ(
                |operation: Operation| warning_for(operation, settings),
                i as int,
            );
        }
        match mode {
            StrictMode::On => {
                proof {
                    lemma_blocking_index_unique(missing@, settings, i as int);
                }
                return Enforcement { warnings, abort: Some(Notice::MissingWhere(operation)) };
            },
            StrictMode::Warn => {
                warnings.push(Notice::MissingWhere(operation));
            },
            StrictMode::Off => {},
        }
        i += 1;
    }
    assert(missing@.take(i as int) =~= missing@);
    Enforcement { warnings, abort: None }
}

/// Decides about a query from the outcome of its analysis and the settings.
pub fn decide(
    analysis: &Result<QueryAnalyzer, ParseFailure>,
    settings: PolicySettings,
) -> (decision: Enforcement)
    ensures
        decision@ == verdict_of(analysis_view(*analysis), settings),
{
    if settings.update_mode == StrictMode::Off && settings.delete_mode == StrictMode::Off {
        return Enforcement { warnings: Vec::new(), abort: None };
    }
    match analysis {
        Ok(analyzer) => {
            if !analyzer.contains_dml() {
                proof {
                    assert(missing_operations(analyzer@) =~= Seq::<Operation>::empty());
                    assert(violation_verdict(Seq::<Operation>::empty(), settings).warnings
                        =~= Seq::<Notice>::empty());
                }
                return Enforcement { warnings: Vec::new(), abort: None };
            }
            let missing = analyzer.missing_where_operations();
            enforce_violations(&missing, settings)
        },
        Err(_) => {
            if settings.update_mode == StrictMode::On || settings.delete_mode == StrictMode::On {
                Enforcement { warnings: Vec::new(), abort: Some(Notice::ParseBlocked) }
            } else {
                let mut warnings: Vec<Notice> = Vec::new();
                warnings.push(Notice::ParseBypassed);
                assert(warnings@ =~= seq![Notice::ParseBypassed]);
                Enforcement { warnings, abort: None }
            }
        },
    }
}

/// Decides about a query text under the settings. With both modes off the
/// text is not even parsed.
pub fn check_query_strictness(query_string: &str, settings: PolicySettings) -> (decision:
    Enforcement)
    ensures
        decision@ == verdict_of(analysis_of(query_string@), settings),
{
    if settings.update_mode == StrictMode::Off && settings.delete_mode == StrictMode::Off {
        return Enforcement { warnings: Vec::new(), abort: None };
    }
    let analysis = QueryAnalyzer::new(query_string);
    decide(&analysis, settings)
}

/// Where an intercepted call goes once this interceptor is done with it.
#[derive(Debug)]
pub enum Successor<H> {
    /// The interceptor that was registered before this one.
    Previous(H),
    /// The default execution path.
    Default,
}

/// The successor that a saved predecessor stands for.
pub open spec fn successor_of<H>(previous: Option<H>) -> Successor<H> {
    match previous {
        Some(hook) => Successor::Previous(hook),
        None => Successor::Default,
    }
}

/// The link of this interceptor to the one that was registered before it.
#[derive(Debug)]
pub struct HookChain<H> {
    previous: Option<H>,
}

impl<H: Copy> HookChain<H> {
    /// The interceptor that was active when this one was installed.
    pub closed spec fn previous(&self) -> Option<H> {
        self.previous
    }

    /// A chain with no predecessor.
    pub fn new() -> (chain: Self)
        ensures
            chain.previous() is None,
    {
        HookChain { previous: None }
    }

    /// Where an intercepted call is forwarded to: the saved predecessor, or
    /// the default execution path where there is none.
    pub fn successor(&self) -> (next: Successor<H>)
        ensures
            next == successor_of(self.previous()),
    {
        match self.previous {
            Some(hook) => Successor::Previous(hook),
            None => Successor::Default,
        }
    }
}

/// Installs `own` as the active interceptor of a slot and saves the one that
/// was active before as its predecessor.
pub fn install_hooks<H: Copy>(chain: &mut HookChain<H>, active: &mut Option<H>, own: H)
    ensures
        final(chain).previous() == *old(active),
        *final(active) == Some(own),
{
    chain.previous = *active;
    *active = Some(own);
}

/// Removes this interceptor from a slot: the saved predecessor becomes the
/// active interceptor again. The chain itself is not changed.
pub fn uninstall_hooks<H: Copy>(chain: &HookChain<H>, active: &mut Option<H>)
    ensures
        *final(active) == chain.previous(),
{
    *active = chain.previous;
}

/// What the interceptor does with a call after the decision.
#[derive(Debug)]
pub enum Step<H> {
    /// The call ends here with this fatal notice; nothing is forwarded.
    Abort(Notice),
    /// The call goes on, unchanged, to the successor.
    Forward(Successor<H>),
}

/// The step taken after a decision. A refused query is not forwarded; any
/// other goes to the successor.
pub open spec fn step_after<H>(verdict: Verdict, previous: Option<H>) -> Step<H> {
    match verdict.abort {
        Some(notice) => Step::Abort(notice),
        None => Step::Forward(successor_of(previous)),
    }
}

/// One intercepted call: the warnings to emit, in order, and the step to take
/// after them.
#[derive(Debug)]
pub struct Interception<H> {
    pub warnings: Vec<Notice>,
    pub step: Step<H>,
}

/// Turns a decision into the step of the interceptor.
pub fn intercept<H: Copy>(decision: Enforcement, chain: &HookChain<H>) -> (call: Interception<H>)
    ensures
        call.warnings@ == decision@.warnings,
        call.step == step_after(decision@, chain.previous()),
{
    let step = match decision.abort {
        Some(notice) => Step::Abort(notice),
        None => Step::Forward(chain.successor()),
    };
    Interception { warnings: decision.warnings, step }
}

/// Intercepts a query that is about to run: decides about its text under the
/// settings and, unless the query is refused, names the successor to which
/// the call is forwarded.
pub fn pg_strict_executor_run_hook<H: Copy>(
    query_string: &str,
    settings: PolicySettings,
    chain: &HookChain<H>,
) -> (call: Interception<H>)
    ensures
        call.warnings@ == verdict_of(analysis_of(query_string@), settings).warnings,
        call.step == step_after(verdict_of(analysis_of(query_string@), settings), chain.previous()),
{
    let decision = check_query_strictness(query_string, settings);
    intercept(decision, chain)
}

} // verus!
