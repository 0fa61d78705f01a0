//! Plan requests: which statements may be explained, the request text, and
//! the reading of the planner's structured output into a plan tree.

use vstd::prelude::*;
use crate::config::opt_text;
use crate::error::{DashboardError, ErrorKind};
use crate::metrics::{
    lemma_children_views, lemma_text_views_push, node_views, opt_text_views, subtree_warnings,
    text_views, warnings_below, ExplainNode, ExplainNodeView, ExplainPlan, ExplainPlanView,
    PlanField, PlanNumber, PlanValue,
};
use crate::text::{append_decimal, decimal_text, starts_with, trimmed, trimmed_text, uppercase_text, uppercased};

verus! {

/// The position of the first field named `name` at or after `from`, or -1.
pub open spec fn field_index(fields: Seq<PlanField>, name: Seq<char>, from: int) -> int
    decreases fields.len() - from,
{
    if from < 0 || from >= fields.len() {
        -1
    } else if fields[from].name@ == name {
        from
    } else {
        field_index(fields, name, from + 1)
    }
}

/// The value of the first field named `name`.
pub open spec fn field_value(fields: Seq<PlanField>, name: Seq<char>) -> Option<PlanValue> {
    let i = field_index(fields, name, 0);
    if 0 <= i < fields.len() {
        Some(fields[i].value)
    } else {
        None
    }
}

/// The text of a value that is a string.
pub open spec fn text_of(v: Option<PlanValue>) -> Option<Seq<char>> {
    match v {
        Some(PlanValue::Text(s)) => Some(s@),
        _ => None,
    }
}

/// The number of a value that is one.
pub open spec fn number_of(v: Option<PlanValue>) -> Option<PlanNumber> {
    match v {
        Some(PlanValue::Number(n)) => Some(n),
        _ => None,
    }
}

/// The whole number of a value that is one and fits in 64 bits with a sign.
pub open spec fn integer_of(v: Option<PlanValue>) -> Option<i64> {
    match v {
        Some(PlanValue::Number(PlanNumber::Signed(n))) => Some(n),
        Some(PlanValue::Number(PlanNumber::Unsigned(n))) => if n <= i64::MAX {
            Some(n as i64)
        } else {
            None
        },
        _ => None,
    }
}

/// The strings among the first `upto` items, in order.
pub open spec fn text_items(items: Seq<PlanValue>, upto: int) -> Seq<Seq<char>>
    decreases upto,
{
    if upto <= 0 || upto > items.len() {
        Seq::empty()
    } else {
        match items[upto - 1] {
            PlanValue::Text(s) => text_items(items, upto - 1).push(s@),
            _ => text_items(items, upto - 1),
        }
    }
}

/// The sort keys of a value that is a list: the strings in it.
pub open spec fn sort_keys_of(v: Option<PlanValue>) -> Option<Seq<Seq<char>>> {
    match v {
        Some(PlanValue::List(items)) => Some(text_items(items@, items@.len() as int)),
        _ => None,
    }
}

/// The cost or time that stands where the output names none: zero.
pub open spec fn zero_number() -> PlanNumber {
    PlanNumber::Real(0)
}

/// Whether the actual row count is far from the estimate: their ratio is
/// over 10 or under 0.1. An estimate of zero counts as a ratio of 1.
pub open spec fn estimate_is_off(actual: int, estimated: int) -> bool {
    if estimated > 0 {
        actual > 10 * estimated || 10 * actual < estimated
    } else if estimated < 0 {
        actual < 10 * estimated || 10 * actual > estimated
    } else {
        false
    }
}

/// The warning about a sequential scan over many rows.
pub open spec fn seq_scan_warning(relation: Option<Seq<char>>, plan_rows: int) -> Seq<char> {
    let named = match relation {
        Some(r) => r,
        None => "table"@,
    };
    "Sequential scan on "@ + named + " with "@ + decimal_text(plan_rows)
        + " estimated rows - consider adding an index"@
}

/// The warning about an estimate far from the actual row count.
pub open spec fn mismatch_warning(estimated: int, actual: int) -> Seq<char> {
    "Row estimation mismatch: estimated "@ + decimal_text(estimated) + " vs actual "@
        + decimal_text(actual) + " rows"@
}

/// The warning about a nested loop that ran many times.
pub open spec fn nested_loop_warning(loops: int) -> Seq<char> {
    "Nested Loop executed "@ + decimal_text(loops)
        + " times - may indicate missing index or join optimization needed"@
}

/// The warnings that a step earns by itself, in their fixed order: a
/// sequential scan estimated at over 1000 rows; an actual row count far from
/// the estimate; a nested loop that ran over 1000 times.
pub open spec fn local_warnings(
    node_type: Seq<char>,
    relation: Option<Seq<char>>,
    plan_rows: int,
    actual_rows: Option<i64>,
    actual_loops: Option<i64>,
) -> Seq<Seq<char>> {
    let scan = if node_type == "Seq Scan"@ && plan_rows > 1000 {
        seq![seq_scan_warning(relation, plan_rows)]
    } else {
        Seq::empty()
    };
    let mismatch = match actual_rows {
        Some(actual) => if estimate_is_off(actual as int, plan_rows) {
            seq![mismatch_warning(plan_rows, actual as int)]
        } else {
            Seq::empty()
        },
        None => Seq::empty(),
    };
    let nested = match actual_loops {
        Some(loops) => if node_type == "Nested Loop"@ && loops > 1000 {
            seq![nested_loop_warning(loops as int)]
        } else {
            Seq::empty()
        },
        None => Seq::empty(),
    };
    scan + mismatch + nested
}

/// The value of `o` where `wanted` holds, and nothing otherwise.
pub open spec fn only_if<T>(wanted: bool, o: Option<T>) -> Option<T> {
    if wanted {
        o
    } else {
        None
    }
}

/// The plan step that a record describes, and `None` for any other value.
/// Fields that are missing or of another type take their defaults; the
/// actual figures are read only where `analyze` was asked for.
pub open spec fn parsed_node(v: PlanValue, analyze: bool) -> Option<ExplainNodeView>
    decreases v, 1int,
{
    match v {
        PlanValue::Record(fields) => {
            let f = fields@;
            let node_type = match text_of(field_value(f, "Node Type"@)) {
                Some(t) => t,
                None => "Unknown"@,
            };
            let relation_name = text_of(field_value(f, "Relation Name"@));
            let plan_rows = match integer_of(field_value(f, "Plan Rows"@)) {
                Some(n) => n,
                None => 0i64,
            };
            let actual_rows = only_if(analyze, integer_of(field_value(f, "Actual Rows"@)));
            let actual_loops = only_if(analyze, integer_of(field_value(f, "Actual Loops"@)));
            let plans = field_index(f, "Plans"@, 0);
            Some(
                ExplainNodeView {
                    node_type,
                    relation_name,
                    alias: text_of(field_value(f, "Alias"@)),
                    startup_cost: match number_of(field_value(f, "Startup Cost"@)) {
                        Some(n) => n,
                        None => zero_number(),
                    },
                    total_cost: match number_of(field_value(f, "Total Cost"@)) {
                        Some(n) => n,
                        None => zero_number(),
                    },
                    plan_rows,
                    plan_width: match integer_of(field_value(f, "Plan Width"@)) {
                        Some(n) => n,
                        None => 0i64,
                    },
                    actual_startup_time: only_if(
                        analyze,
                        number_of(field_value(f, "Actual Startup Time"@)),
                    ),
                    actual_total_time: only_if(
                        analyze,
                        number_of(field_value(f, "Actual Total Time"@)),
                    ),
                    actual_rows,
                    actual_loops,
                    filter: text_of(field_value(f, "Filter"@)),
                    index_name: text_of(field_value(f, "Index Name"@)),
                    index_cond: text_of(field_value(f, "Index Cond"@)),
                    join_type: text_of(field_value(f, "Join Type"@)),
                    hash_cond: text_of(field_value(f, "Hash Cond"@)),
                    sort_key: sort_keys_of(field_value(f, "Sort Key"@)),
                    shared_hit_blocks: integer_of(field_value(f, "Shared Hit Blocks"@)),
                    shared_read_blocks: integer_of(field_value(f, "Shared Read Blocks"@)),
                    workers_planned: integer_of(field_value(f, "Workers Planned"@)),
                    workers_launched: integer_of(field_value(f, "Workers Launched"@)),
                    children: if 0 <= plans < f.len() {
                        match f[plans].value {
                            PlanValue::List(items) => parsed_children(
                                items@,
                                analyze,
                                items@.len() as int,
                            ),
                            _ => Seq::empty(),
                        }
                    } else {
                        Seq::empty()
                    },
                    warnings: local_warnings(
                        node_type,
                        relation_name,
                        plan_rows as int,
                        actual_rows,
                        actual_loops,
                    ),
                },
            )
        },
        _ => None,
    }
}

/// The steps that the first `upto` items describe, in order. An item that
/// describes no step is left out.
pub open spec fn parsed_children(items: Seq<PlanValue>, analyze: bool, upto: int) -> Seq<
    ExplainNodeView,
>
    decreases items, 0int, upto,
{
    if upto <= 0 || upto > items.len() {
        Seq::empty()
    } else {
        let before = parsed_children(items, analyze, upto - 1);
        match parsed_node(items[upto - 1], analyze) {
            Some(n) => before.push(n),
            None => before,
        }
    }
}

fn find_field<'a>(fields: &'a Vec<PlanField>, name: &str) -> (r: Option<&'a PlanValue>)
    ensures
        match r {
            Some(v) => {
                let i = field_index(fields@, name@, 0);
                0 <= i < fields@.len() && *v == fields@[i].value
            },
            None => field_index(fields@, name@, 0) == -1,
        },
        match r {
            Some(v) => field_value(fields@, name@) == Some(*v),
            None => field_value(fields@, name@) is None,
        },
{
    let wanted = String::from_str(name);
    let mut i: usize = 0;
    while i < fields.len()
        invariant
            i <= fields.len(),
            wanted@ == name@,
            field_index(fields@, name@, 0) == field_index(fields@, name@, i as int),
        decreases fields.len() - i,
    {
        if fields[i].name == wanted {
            return Some(&fields[i].value);
        }
        i = i + 1;
    }
    None
}

fn text_field(fields: &Vec<PlanField>, name: &str) -> (r: Option<String>)
    ensures
        opt_text(r) == text_of(field_value(fields@, name@)),
{
    match find_field(fields, name) {
        Some(PlanValue::Text(s)) => Some(s.clone()),
        _ => None,
    }
}

fn number_field(fields: &Vec<PlanField>, name: &str) -> (r: Option<PlanNumber>)
    ensures
        r == number_of(field_value(fields@, name@)),
{
    match find_field(fields, name) {
        Some(PlanValue::Number(n)) => Some(*n),
        _ => None,
    }
}

fn integer_field(fields: &Vec<PlanField>, name: &str) -> (r: Option<i64>)
    ensures
        r == integer_of(field_value(fields@, name@)),
{
    match find_field(fields, name) {
        Some(PlanValue::Number(PlanNumber::Signed(n))) => Some(*n),
        Some(PlanValue::Number(PlanNumber::Unsigned(n))) => {
            if *n <= 9223372036854775807u64 {
                Some(*n as i64)
            } else {
                None
            }
        },
        _ => None,
    }
}

fn sort_key_field(fields: &Vec<PlanField>) -> (r: Option<Vec<String>>)
    ensures
        opt_text_views(r) == sort_keys_of(field_value(fields@, "Sort Key"@)),
{
    match find_field(fields, "Sort Key") {
        Some(PlanValue::List(items)) => {
            let mut keys: Vec<String> = Vec::new();
            let mut i: usize = 0;
            while i < items.len()
                invariant
                    i <= items.len(),
                    text_views(keys@) == text_items(items@, i as int),
                decreases items.len() - i,
            {
                match &items[i] {
                    PlanValue::Text(s) => {
                        keys.push(s.clone());
                        assert(text_views(keys@) =~= text_items(items@, i as int).push(s@));
                    },
                    _ => {},
                }
                i = i + 1;
            }
            Some(keys)
        },
        _ => None,
    }
}

fn make_local_warnings(
    node_type: &String,
    relation: &Option<String>,
    plan_rows: i64,
    actual_rows: Option<i64>,
    actual_loops: Option<i64>,
) -> (r: Vec<String>)
    ensures
        text_views(r@) == local_warnings(
            node_type@,
            opt_text(*relation),
            plan_rows as int,
            actual_rows,
            actual_loops,
        ),
{
    let mut warnings: Vec<String> = Vec::new();
    let seq_scan = String::from_str("Seq Scan");
    let nested_loop = String::from_str("Nested Loop");
    if *node_type == seq_scan && plan_rows > 1000 {
        let mut w = String::from_str("Sequential scan on ");
        match relation {
            Some(name) => w.append(name.as_str()),
            None => w.append("table"),
        }
        w.append(" with ");
        append_decimal(&mut w, plan_rows);
        w.append(" estimated rows - consider adding an index");
        assert(w@ =~= seq_scan_warning(opt_text(*relation), plan_rows as int));
        warnings.push(w);
    }
    let ghost first = text_views(warnings@);
    if let Some(actual) = actual_rows {
        let estimated: i128 = plan_rows as i128;
        let seen: i128 = actual as i128;
        let off = if estimated > 0 {
            seen > 10 * estimated || 10 * seen < estimated
        } else if estimated < 0 {
            seen < 10 * estimated || 10 * seen > estimated
        } else {
            false
        };
        if off {
            let mut w = String::from_str("Row estimation mismatch: estimated ");
            append_decimal(&mut w, plan_rows);
            w.append(" vs actual ");
            append_decimal(&mut w, actual);
            w.append(" rows");
            assert(w@ =~= mismatch_warning(plan_rows as int, actual as int));
            warnings.push(w);
        }
    }
    let ghost second = text_views(warnings@);
    if let Some(loops) = actual_loops {
        if *node_type == nested_loop && loops > 1000 {
            let mut w = String::from_str("Nested Loop executed ");
            append_decimal(&mut w, loops);
            w.append(" times - may indicate missing index or join optimization needed");
            assert(w@ =~= nested_loop_warning(loops as int));
            warnings.push(w);
        }
    }
    assert(text_views(warnings@) =~= local_warnings(
        node_type@,
        opt_text(*relation),
        plan_rows as int,
        actual_rows,
        actual_loops,
    ));
    warnings
}

/// Whether a statement, trimmed and in upper case, starts with a keyword
/// whose plan may be asked for.
pub open spec fn explainable(folded: Seq<char>) -> bool {
    ||| "SELECT"@.is_prefix_of(folded)
    ||| "INSERT"@.is_prefix_of(folded)
    ||| "UPDATE"@.is_prefix_of(folded)
    ||| "DELETE"@.is_prefix_of(folded)
    ||| "WITH"@.is_prefix_of(folded)
}

/// Whether the plan of `query` may be asked for: `query` without the white
/// space at its ends and in upper case starts with one of the five keywords.
pub open spec fn statement_allowed(query: Seq<char>) -> bool {
    explainable(uppercase_text(trimmed_text(query)))
}

/// The text of the plan request for `query`. With `analyze` the request also
/// asks for actual run-time figures and buffer counts, and the server then
/// runs the statement.
pub open spec fn explain_text(query: Seq<char>, analyze: bool) -> Seq<char> {
    if analyze {
        "EXPLAIN (ANALYZE, COSTS, VERBOSE, BUFFERS, FORMAT JSON) "@ + query
    } else {
        "EXPLAIN (COSTS, VERBOSE, FORMAT JSON) "@ + query
    }
}

/// What the planner's output for `query` is read as: the plan, or the text
/// of the failure. The output must be a list whose first item is a record
/// with a `Plan` member that is itself a record.
pub open spec fn explained(query: Seq<char>, output: PlanValue, analyze: bool) -> Result<
    ExplainPlanView,
    Seq<char>,
> {
    match output {
        PlanValue::List(items) => if items@.len() == 0 {
            Err("Invalid EXPLAIN output format"@)
        } else {
            match items@[0] {
                PlanValue::Record(fields) => match field_value(fields@, "Plan"@) {
                    Some(plan) => match parsed_node(plan, analyze) {
                        Some(root) => Ok(
                            ExplainPlanView {
                                query,
                                planning_time: number_of(field_value(fields@, "Planning Time"@)),
                                execution_time: number_of(
                                    field_value(fields@, "Execution Time"@),
                                ),
                                root,
                                total_cost: root.total_cost,
                                warnings: subtree_warnings(root),
                            },
                        ),
                        None => Err("Invalid node format"@),
                    },
                    None => Err("Missing Plan in EXPLAIN output"@),
                },
                _ => Err("Invalid plan object"@),
            }
        },
        _ => Err("Invalid EXPLAIN output format"@),
    }
}

/// Appends a copy of each string of `src` to `dst`.
fn append_texts(dst: &mut Vec<String>, src: &Vec<String>)
    ensures
        text_views(final(dst)@) == text_views(old(dst)@) + text_views(src@),
{
    let mut i: usize = 0;
    while i < src.len()
        invariant
            i <= src.len(),
            text_views(dst@) == text_views(old(dst)@) + text_views(src@.take(i as int)),
        decreases src.len() - i,
    {
        let ghost before = dst@;
        dst.push(src[i].clone());
        proof {
            lemma_text_views_push(before, src@[i as int]);
            assert(src@.take(i + 1) =~= src@.take(i as int).push(src@[i as int]));
            lemma_text_views_push(src@.take(i as int), src@[i as int]);
            assert(text_views(dst@) =~= text_views(old(dst)@) + text_views(src@.take(i + 1)));
        }
        i = i + 1;
    }
    proof {
        assert(src@.take(i as int) =~= src@);
    }
}

/// Reads plans and decides which statements may be explained.
pub struct MetricsCollector;

impl MetricsCollector {
    /// Whether a statement that is already trimmed and in upper case starts
    /// with SELECT, INSERT, UPDATE, DELETE or WITH.
    pub fn is_explainable(folded: &str) -> (r: bool)
        ensures
            r == explainable(folded@),
    {
        starts_with(folded, "SELECT") || starts_with(folded, "INSERT") || starts_with(
            folded,
            "UPDATE",
        ) || starts_with(folded, "DELETE") || starts_with(folded, "WITH")
    }

    /// Checks that the plan of `query` may be asked for.
    pub fn validate_statement(query: &str) -> (r: Result<(), DashboardError>)
        ensures
            r is Ok <==> statement_allowed(query@),
            r matches Err(e) ==> e.kind == ErrorKind::InvalidStatementType && e.message@
                == "Only SELECT, INSERT, UPDATE, DELETE, or WITH queries can be explained"@,
    {
        let folded = uppercased(trimmed(query));
        if Self::is_explainable(folded.as_str()) {
            Ok(())
        } else {
            Err(
                DashboardError::new(
                    ErrorKind::InvalidStatementType,
                    "Only SELECT, INSERT, UPDATE, DELETE, or WITH queries can be explained",
                ),
            )
        }
    }

    /// The plan request to send for `query`, or the refusal of a statement
    /// that may not be explained. Nothing is to be sent after a refusal.
    /// With `analyze` the server runs the statement to measure it: one that
    /// changes data does change it.
    pub fn explain_request(query: &str, analyze: bool) -> (r: Result<String, DashboardError>)
        ensures
            r is Ok <==> statement_allowed(query@),
            r matches Ok(text) ==> text@ == explain_text(query@, analyze),
            r matches Err(e) ==> e.kind == ErrorKind::InvalidStatementType && e.message@
                == "Only SELECT, INSERT, UPDATE, DELETE, or WITH queries can be explained"@,
    {
        match Self::validate_statement(query) {
            Ok(()) => {
                let mut text = if analyze {
                    String::from_str("EXPLAIN (ANALYZE, COSTS, VERBOSE, BUFFERS, FORMAT JSON) ")
                } else {
                    String::from_str("EXPLAIN (COSTS, VERBOSE, FORMAT JSON) ")
                };
                text.append(query);
                Ok(text)
            },
            Err(e) => Err(e),
        }
    }

    /// Reads one plan step, and the steps below it, from a record of the
    /// planner's output. Any other value is refused.
    pub fn parse_explain_node(node: &PlanValue, analyze: bool) -> (r: Result<
        ExplainNode,
        DashboardError,
    >)
        ensures
            match r {
                Ok(n) => parsed_node(*node, analyze) == Some(n@),
                Err(e) => parsed_node(*node, analyze) is None && e.kind == ErrorKind::Parse
                    && e.message@ == "Invalid node format"@,
            },
        decreases node, 1int,
    {
        let fields = match node {
            PlanValue::Record(fields) => fields,
            _ => {
                return Err(DashboardError::new(ErrorKind::Parse, "Invalid node format"));
            },
        };
        let node_type = match text_field(fields, "Node Type") {
            Some(t) => t,
            None => String::from_str("Unknown"),
        };
        let relation_name = text_field(fields, "Relation Name");
        let alias = text_field(fields, "Alias");
        let startup_cost = match number_field(fields, "Startup Cost") {
            Some(n) => n,
            None => PlanNumber::Real(0),
        };
        let total_cost = match number_field(fields, "Total Cost") {
            Some(n) => n,
            None => PlanNumber::Real(0),
        };
        let plan_rows = match integer_field(fields, "Plan Rows") {
            Some(n) => n,
            None => 0,
        };
        let plan_width = match integer_field(fields, "Plan Width") {
            Some(n) => n,
            None => 0,
        };
        let actual_startup_time = if analyze {
            number_field(fields, "Actual Startup Time")
        } else {
            None
        };
        let actual_total_time = if analyze {
            number_field(fields, "Actual Total Time")
        } else {
            None
        };
        let actual_rows = if analyze {
            integer_field(fields, "Actual Rows")
        } else {
            None
        };
        let actual_loops = if analyze {
            integer_field(fields, "Actual Loops")
        } else {
            None
        };
        let filter = text_field(fields, "Filter");
        let index_name = text_field(fields, "Index Name");
        let index_cond = text_field(fields, "Index Cond");
        let join_type = text_field(fields, "Join Type");
        let hash_cond = text_field(fields, "Hash Cond");
        let sort_key = sort_key_field(fields);
        let shared_hit_blocks = integer_field(fields, "Shared Hit Blocks");
        let shared_read_blocks = integer_field(fields, "Shared Read Blocks");
        let workers_planned = integer_field(fields, "Workers Planned");
        let workers_launched = integer_field(fields, "Workers Launched");
        let children: Vec<ExplainNode> = match find_field(fields, "Plans") {
            Some(PlanValue::List(items)) => Self::parse_children(items, analyze),
            _ => Vec::new(),
        };
        let warnings = make_local_warnings(
            &node_type,
            &relation_name,
            plan_rows,
            actual_rows,
            actual_loops,
        );
        let parsed = ExplainNode {
            node_type,
            relation_name,
            alias,
            startup_cost,
            total_cost,
            plan_rows,
            plan_width,
            actual_startup_time,
            actual_total_time,
            actual_rows,
            actual_loops,
            filter,
            index_name,
            index_cond,
            join_type,
            hash_cond,
            sort_key,
            shared_hit_blocks,
            shared_read_blocks,
            workers_planned,
            workers_launched,
            children,
            warnings,
        };
        proof {
            lemma_children_views(parsed);
            assert(parsed_node(*node, analyze)->0.children == parsed@.children);
            assert(parsed_node(*node, analyze) == Some(parsed@));
        }
        Ok(parsed)
    }

    /// Reads the steps that the items of a list describe, in order, leaving
    /// out each item that is no record.
    fn parse_children(items: &Vec<PlanValue>, analyze: bool) -> (r: Vec<ExplainNode>)
        ensures
            node_views(r@) == parsed_children(items@, analyze, items@.len() as int),
        decreases items, 0int,
    {
        let mut children: Vec<ExplainNode> = Vec::new();
        let mut i: usize = 0;
        while i < items.len()
            invariant
                i <= items.len(),
                node_views(children@) == parsed_children(items@, analyze, i as int),
            decreases items.len() - i,
        {
            match Self::parse_explain_node(&items[i], analyze) {
                Ok(child) => {
                    children.push(child);
                    assert(node_views(children@) =~= parsed_children(items@, analyze, i as int).push(
                        child@,
                    ));
                },
                Err(_) => {},
            }
            i = i + 1;
        }
        children
    }

    /// Appends to `warnings` the warnings of every step below `node`: for
    /// each child in order, the child's own and then those below the child.
    pub fn collect_warnings(node: &ExplainNode, warnings: &mut Vec<String>)
        ensures
            text_views(final(warnings)@) == text_views(old(warnings)@) + warnings_below(
                node@.children,
                node@.children.len() as int,
            ),
        decreases node,
    {
        let mut i: usize = 0;
        while i < node.children.len()
            invariant
                i <= node.children.len(),
                text_views(warnings@) == text_views(old(warnings)@) + warnings_below(
                    node@.children,
                    i as int,
                ),
            decreases node.children.len() - i,
        {
            proof {
                lemma_children_views(*node);
            }
            let child = &node.children[i];
            let ghost before = text_views(warnings@);
            append_texts(warnings, &child.warnings);
            Self::collect_warnings(child, warnings);
            proof {
                assert(node@.children[i as int] == child@);
                assert(text_views(warnings@) =~= before + subtree_warnings(child@));
                assert(text_views(warnings@) =~= text_views(old(warnings)@) + warnings_below(
                    node@.children,
                    i + 1,
                ));
            }
            i = i + 1;
        }
    }

    /// Reads the planner's structured output for `query` into a plan: the
    /// timings, the tree, the root's total cost, and the warnings of all
    /// steps, each step before the steps that feed it.
    pub fn parse_explain_output(query: &str, output: &PlanValue, analyze: bool) -> (r: Result<
        ExplainPlan,
        DashboardError,
    >)
        ensures
            match r {
                Ok(plan) => explained(query@, *output, analyze) == Ok::<
                    ExplainPlanView,
                    Seq<char>,
                >(plan@) && plan@.consistent(),
                Err(e) => e.kind == ErrorKind::Parse && explained(query@, *output, analyze) == Err::<
                    ExplainPlanView,
                    Seq<char>,
                >(e.message@),
            },
    {
        let items = match output {
            PlanValue::List(items) => items,
            _ => {
                return Err(DashboardError::new(ErrorKind::Parse, "Invalid EXPLAIN output format"));
            },
        };
        if items.len() == 0 {
            return Err(DashboardError::new(ErrorKind::Parse, "Invalid EXPLAIN output format"));
        }
        let fields = match &items[0] {
            PlanValue::Record(fields) => fields,
            _ => {
                return Err(DashboardError::new(ErrorKind::Parse, "Invalid plan object"));
            },
        };
        let planning_time = number_field(fields, "Planning Time");
        let execution_time = number_field(fields, "Execution Time");
        let root_plan = match find_field(fields, "Plan") {
            Some(plan) => plan,
            None => {
                return Err(
                    DashboardError::new(ErrorKind::Parse, "Missing Plan in EXPLAIN output"),
                );
            },
        };
        let root = match Self::parse_explain_node(root_plan, analyze) {
            Ok(root) => root,
            Err(e) => {
                return Err(e);
            },
        };
        let total_cost = root.total_cost;
        let mut warnings: Vec<String> = Vec::new();
        append_texts(&mut warnings, &root.warnings);
        Self::collect_warnings(&root, &mut warnings);
        proof {
            assert(text_views(warnings@) =~= subtree_warnings(root@));
        }
        Ok(
            ExplainPlan {
                query: String::from_str(query),
                planning_time,
                execution_time,
                root,
                total_cost,
                warnings,
            },
        )
    }

    /// Completes a plan request: `outcome` is what the server gave for the
    /// request text, its structured output or the text of its failure. A
    /// statement that may not be explained is refused whatever the outcome.
    pub fn explain_query(query: &str, analyze: bool, outcome: Result<PlanValue, String>) -> (r:
        Result<ExplainPlan, DashboardError>)
        ensures
            match r {
                Ok(plan) => {
                    &&& statement_allowed(query@)
                    &&& outcome matches Ok(output)
                    &&& explained(query@, output, analyze) == Ok::<ExplainPlanView, Seq<char>>(
                        plan@,
                    )
                    &&& plan@.consistent()
                },
                Err(e) => if !statement_allowed(query@) {
                    e.kind == ErrorKind::InvalidStatementType && e.message@
                        == "Only SELECT, INSERT, UPDATE, DELETE, or WITH queries can be explained"@
                } else {
                    match outcome {
                        Ok(output) => e.kind == ErrorKind::Parse && explained(
                            query@,
                            output,
                            analyze,
                        ) == Err::<ExplainPlanView, Seq<char>>(e.message@),
                        Err(text) => e.kind == ErrorKind::Execution && e.message@
                            == "Failed to explain query: "@ + text@,
                    }
                },
            },
    {
        match Self::validate_statement(query) {
            Ok(()) => {},
            Err(e) => {
                return Err(e);
            },
        }
        match outcome {
            Ok(output) => Self::parse_explain_output(query, &output, analyze),
            Err(text) => Err(
                DashboardError::with_detail(
                    ErrorKind::Execution,
                    "Failed to explain query: ",
                    text.as_str(),
                ),
            ),
        }
    }
}

} // verus!
