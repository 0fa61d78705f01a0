//! Catalog rows, the planner's structured output, and plan trees.

use vstd::prelude::*;
use crate::config::opt_text;

verus! {

/// Activity counters of one database.
#[derive(Debug)]
pub struct DatabaseStats {
    pub datname: String,
    pub numbackends: i32,
    pub xact_commit: i64,
    pub xact_rollback: i64,
    pub blks_read: i64,
    pub blks_hit: i64,
    pub tup_returned: i64,
    pub tup_fetched: i64,
    pub tup_inserted: i64,
    pub tup_updated: i64,
    pub tup_deleted: i64,
    pub conflicts: i64,
    pub temp_files: i64,
    pub temp_bytes: i64,
    pub deadlocks: i64,
}

impl Clone for DatabaseStats {
    fn clone(&self) -> (r: Self)
        ensures
            r == *self,
    {
        DatabaseStats {
            datname: self.datname.clone(),
            numbackends: self.numbackends,
            xact_commit: self.xact_commit,
            xact_rollback: self.xact_rollback,
            blks_read: self.blks_read,
            blks_hit: self.blks_hit,
            tup_returned: self.tup_returned,
            tup_fetched: self.tup_fetched,
            tup_inserted: self.tup_inserted,
            tup_updated: self.tup_updated,
            tup_deleted: self.tup_deleted,
            conflicts: self.conflicts,
            temp_files: self.temp_files,
            temp_bytes: self.temp_bytes,
            deadlocks: self.deadlocks,
        }
    }
}

/// A statement that a backend is running.
#[derive(Debug)]
pub struct ActiveQuery {
    pub pid: i32,
    pub usename: String,
    pub application_name: String,
    pub client_addr: Option<String>,
    pub backend_start: String,
    pub state: String,
    pub query: String,
    pub wait_event_type: Option<String>,
    pub wait_event: Option<String>,
}

impl Clone for ActiveQuery {
    fn clone(&self) -> (r: Self)
        ensures
            r == *self,
    {
        ActiveQuery {
            pid: self.pid,
            usename: self.usename.clone(),
            application_name: self.application_name.clone(),
            client_addr: self.client_addr.clone(),
            backend_start: self.backend_start.clone(),
            state: self.state.clone(),
            query: self.query.clone(),
            wait_event_type: self.wait_event_type.clone(),
            wait_event: self.wait_event.clone(),
        }
    }
}

/// Access counters of one table.
#[derive(Debug)]
pub struct TableStats {
    pub schemaname: String,
    pub relname: String,
    pub seq_scan: i64,
    pub seq_tup_read: i64,
    pub idx_scan: Option<i64>,
    pub idx_tup_fetch: Option<i64>,
    pub n_tup_ins: i64,
    pub n_tup_upd: i64,
    pub n_tup_del: i64,
    pub n_live_tup: i64,
    pub n_dead_tup: i64,
    pub last_vacuum: Option<String>,
    pub last_autovacuum: Option<String>,
}

impl Clone for TableStats {
    fn clone(&self) -> (r: Self)
        ensures
            r == *self,
    {
        TableStats {
            schemaname: self.schemaname.clone(),
            relname: self.relname.clone(),
            seq_scan: self.seq_scan,
            seq_tup_read: self.seq_tup_read,
            idx_scan: self.idx_scan,
            idx_tup_fetch: self.idx_tup_fetch,
            n_tup_ins: self.n_tup_ins,
            n_tup_upd: self.n_tup_upd,
            n_tup_del: self.n_tup_del,
            n_live_tup: self.n_live_tup,
            n_dead_tup: self.n_dead_tup,
            last_vacuum: self.last_vacuum.clone(),
            last_autovacuum: self.last_autovacuum.clone(),
        }
    }
}

/// Access counters of one index.
#[derive(Debug)]
pub struct IndexStats {
    pub schemaname: String,
    pub tablename: String,
    pub indexname: String,
    pub idx_scan: i64,
    pub idx_tup_read: i64,
    pub idx_tup_fetch: i64,
}

impl Clone for IndexStats {
    fn clone(&self) -> (r: Self)
        ensures
            r == *self,
    {
        IndexStats {
            schemaname: self.schemaname.clone(),
            tablename: self.tablename.clone(),
            indexname: self.indexname.clone(),
            idx_scan: self.idx_scan,
            idx_tup_read: self.idx_tup_read,
            idx_tup_fetch: self.idx_tup_fetch,
        }
    }
}

/// A lock that a backend holds or waits for.
#[derive(Debug)]
pub struct LockInfo {
    pub locktype: String,
    pub database: Option<String>,
    pub relation: Option<String>,
    pub pid: i32,
    pub mode: String,
    pub granted: bool,
}

impl Clone for LockInfo {
    fn clone(&self) -> (r: Self)
        ensures
            r == *self,
    {
        LockInfo {
            locktype: self.locktype.clone(),
            database: self.database.clone(),
            relation: self.relation.clone(),
            pid: self.pid,
            mode: self.mode.clone(),
            granted: self.granted,
        }
    }
}

/// The size of one database.
#[derive(Debug)]
pub struct DatabaseSize {
    pub database_name: String,
    pub size_bytes: i64,
    pub size_pretty: String,
}

impl Clone for DatabaseSize {
    fn clone(&self) -> (r: Self)
        ensures
            r == *self,
    {
        DatabaseSize {
            database_name: self.database_name.clone(),
            size_bytes: self.size_bytes,
            size_pretty: self.size_pretty.clone(),
        }
    }
}

/// A number as the planner's structured output holds it.
#[derive(Debug, Clone, Copy, PartialEq, Eq, Structural)]
pub enum PlanNumber {
    /// A whole number that is not negative.
    Unsigned(u64),
    /// A whole number below zero.
    Signed(i64),
    /// A number with a fraction, held as the 64 bits of its double-precision form.
    Real(u64),
}

/// A value of the planner's structured output.
#[derive(Debug)]
pub enum PlanValue {
    Null,
    Bool(bool),
    Number(PlanNumber),
    Text(String),
    List(Vec<PlanValue>),
    Record(Vec<PlanField>),
}

/// A named member of a record.
#[derive(Debug)]
pub struct PlanField {
    pub name: String,
    pub value: PlanValue,
}

/// The texts of a list of strings, in order.
pub open spec fn text_views(items: Seq<String>) -> Seq<Seq<char>> {
    items.map_values(|s: String| s@)
}

/// The texts of an optional list of strings.
pub open spec fn opt_text_views(o: Option<Vec<String>>) -> Option<Seq<Seq<char>>> {
    match o {
        Some(items) => Some(text_views(items@)),
        None => None,
    }
}

/// One step of a plan, with the steps that feed it.
#[derive(Debug)]
pub struct ExplainNode {
    pub node_type: String,
    pub relation_name: Option<String>,
    pub alias: Option<String>,
    pub startup_cost: PlanNumber,
    pub total_cost: PlanNumber,
    pub plan_rows: i64,
    pub plan_width: i64,
    pub actual_startup_time: Option<PlanNumber>,
    pub actual_total_time: Option<PlanNumber>,
    pub actual_rows: Option<i64>,
    pub actual_loops: Option<i64>,
    pub filter: Option<String>,
    pub index_name: Option<String>,
    pub index_cond: Option<String>,
    pub join_type: Option<String>,
    pub hash_cond: Option<String>,
    pub sort_key: Option<Vec<String>>,
    pub shared_hit_blocks: Option<i64>,
    pub shared_read_blocks: Option<i64>,
    pub workers_planned: Option<i64>,
    pub workers_launched: Option<i64>,
    pub children: Vec<ExplainNode>,
    pub warnings: Vec<String>,
}

/// The content of an [`ExplainNode`].
pub struct ExplainNodeView {
    pub node_type: Seq<char>,
    pub relation_name: Option<Seq<char>>,
    pub alias: Option<Seq<char>>,
    pub startup_cost: PlanNumber,
    pub total_cost: PlanNumber,
    pub plan_rows: i64,
    pub plan_width: i64,
    pub actual_startup_time: Option<PlanNumber>,
    pub actual_total_time: Option<PlanNumber>,
    pub actual_rows: Option<i64>,
    pub actual_loops: Option<i64>,
    pub filter: Option<Seq<char>>,
    pub index_name: Option<Seq<char>>,
    pub index_cond: Option<Seq<char>>,
    pub join_type: Option<Seq<char>>,
    pub hash_cond: Option<Seq<char>>,
    pub sort_key: Option<Seq<Seq<char>>>,
    pub shared_hit_blocks: Option<i64>,
    pub shared_read_blocks: Option<i64>,
    pub workers_planned: Option<i64>,
    pub workers_launched: Option<i64>,
    pub children: Seq<ExplainNodeView>,
    pub warnings: Seq<Seq<char>>,
}

/// The content of a step.
pub open spec fn node_view(node: ExplainNode) -> ExplainNodeView
    decreases node,
{
    ExplainNodeView {
        node_type: node.node_type@,
        relation_name: opt_text(node.relation_name),
        alias: opt_text(node.alias),
        startup_cost: node.startup_cost,
        total_cost: node.total_cost,
        plan_rows: node.plan_rows,
        plan_width: node.plan_width,
        actual_startup_time: node.actual_startup_time,
        actual_total_time: node.actual_total_time,
        actual_rows: node.actual_rows,
        actual_loops: node.actual_loops,
        filter: opt_text(node.filter),
        index_name: opt_text(node.index_name),
        index_cond: opt_text(node.index_cond),
        join_type: opt_text(node.join_type),
        hash_cond: opt_text(node.hash_cond),
        sort_key: opt_text_views(node.sort_key),
        shared_hit_blocks: node.shared_hit_blocks,
        shared_read_blocks: node.shared_read_blocks,
        workers_planned: node.workers_planned,
        workers_launched: node.workers_launched,
        children: Seq::new(
            node.children@.len(),
            |i: int|
                if 0 <= i < node.children@.len() {
                    node_view(node.children@[i])
                } else {
                    arbitrary()
                },
        ),
        warnings: text_views(node.warnings@),
    }
}

impl View for ExplainNode {
    type V = ExplainNodeView;

    open spec fn view(&self) -> ExplainNodeView {
        node_view(*self)
    }
}

/// The contents of a list of plan steps, in order.
pub open spec fn node_views(nodes: Seq<ExplainNode>) -> Seq<ExplainNodeView> {
    nodes.map_values(|n: ExplainNode| n@)
}

/// The texts of a list with one more string are the texts of the list with
/// one more text.
pub(crate) proof fn lemma_text_views_push(items: Seq<String>, last: String)
    ensures
        text_views(items.push(last)) == text_views(items).push(last@),
{
    assert(text_views(items.push(last)) =~= text_views(items).push(last@));
}

/// The view of a step holds the views of its children, in order.
pub(crate) proof fn lemma_children_views(node: ExplainNode)
    ensures
        node@.children == node_views(node.children@),
{
    assert(node@.children.len() == node.children@.len());
    assert forall|i: int| 0 <= i < node.children@.len() implies node@.children[i]
        == node.children@[i]@ by {
        assert(node.children[i] == node.children@[i]);
    }
    assert(node@.children =~= node_views(node.children@));
}

/// The warnings of the steps below a step: for each child in order, the
/// child's own warnings and then those of the steps below it.
pub open spec fn warnings_below(children: Seq<ExplainNodeView>, upto: int) -> Seq<Seq<char>>
    decreases children, 0int, upto,
{
    if upto <= 0 || upto > children.len() {
        Seq::empty()
    } else {
        warnings_below(children, upto - 1) + subtree_warnings(children[upto - 1])
    }
}

/// The warnings of a whole subtree: the step's own, then those of every step
/// below it, each step before the steps that feed it.
pub open spec fn subtree_warnings(node: ExplainNodeView) -> Seq<Seq<char>>
    decreases node, 1int,
{
    node.warnings + warnings_below(node.children, node.children.len() as int)
}

/// A parsed plan with its timings and the warnings of all its steps.
#[derive(Debug)]
pub struct ExplainPlan {
    pub query: String,
    pub planning_time: Option<PlanNumber>,
    pub execution_time: Option<PlanNumber>,
    pub root: ExplainNode,
    pub total_cost: PlanNumber,
    pub warnings: Vec<String>,
}

/// The content of an [`ExplainPlan`].
pub struct ExplainPlanView {
    pub query: Seq<char>,
    pub planning_time: Option<PlanNumber>,
    pub execution_time: Option<PlanNumber>,
    pub root: ExplainNodeView,
    pub total_cost: PlanNumber,
    pub warnings: Seq<Seq<char>>,
}

impl View for ExplainPlan {
    type V = ExplainPlanView;

    open spec fn view(&self) -> ExplainPlanView {
        ExplainPlanView {
            query: self.query@,
            planning_time: self.planning_time,
            execution_time: self.execution_time,
            root: self.root@,
            total_cost: self.total_cost,
            warnings: text_views(self.warnings@),
        }
    }
}

impl ExplainPlanView {
    /// Whether the plan's summary agrees with its tree: the total cost is the
    /// root's, and the warnings are those of the whole tree.
    pub open spec fn consistent(self) -> bool {
        &&& self.total_cost == self.root.total_cost
        &&& self.warnings == subtree_warnings(self.root)
    }
}

} // verus!
