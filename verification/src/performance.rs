//! The performance rules: cache hit ratio, tables read by sequential scans,
//! and indexes that are never used.

use vstd::prelude::*;
use crate::analyzer::{
    opt_issue, optional, performance_issue_views, ConfigAnalyzer, IssueSeverity, PerformanceIssue,
    PerformanceIssueView,
};
use crate::metrics::{IndexStats, TableStats};
use crate::text::{append_decimal, decimal_text, ends_with};

verus! {

/// Block counts of one database, or of several together.
#[derive(Debug, Clone, Copy, PartialEq, Eq, Structural)]
pub struct CacheCounters {
    /// Blocks found in the buffer cache.
    pub blks_hit: u64,
    /// Blocks read from disk.
    pub blks_read: u64,
}

/// The blocks found in the cache by the first `upto` of the databases.
pub open spec fn hits_of(databases: Seq<CacheCounters>, upto: int) -> int
    decreases upto,
{
    if upto <= 0 || upto > databases.len() {
        0
    } else {
        hits_of(databases, upto - 1) + databases[upto - 1].blks_hit
    }
}

/// The blocks read from disk by the first `upto` of the databases.
pub open spec fn reads_of(databases: Seq<CacheCounters>, upto: int) -> int
    decreases upto,
{
    if upto <= 0 || upto > databases.len() {
        0
    } else {
        reads_of(databases, upto - 1) + databases[upto - 1].blks_read
    }
}

proof fn lemma_counts_grow(databases: Seq<CacheCounters>, upto: int)
    requires
        0 <= upto <= databases.len(),
    ensures
        0 <= hits_of(databases, upto) <= hits_of(databases, databases.len() as int),
        0 <= reads_of(databases, upto) <= reads_of(databases, databases.len() as int),
    decreases databases.len() - upto,
{
    if upto < databases.len() {
        lemma_counts_grow(databases, upto + 1);
    }
    lemma_counts_positive(databases, upto);
}

proof fn lemma_counts_positive(databases: Seq<CacheCounters>, upto: int)
    ensures
        0 <= hits_of(databases, upto),
        0 <= reads_of(databases, upto),
    decreases upto,
{
    if 0 < upto <= databases.len() {
        lemma_counts_positive(databases, upto - 1);
    }
}

/// The counts of all `databases` together, where both sums fit in 64 bits,
/// and nothing where one does not.
pub open spec fn summed(databases: Seq<CacheCounters>) -> Option<CacheCounters> {
    let hit = hits_of(databases, databases.len() as int);
    let read = reads_of(databases, databases.len() as int);
    if hit <= u64::MAX && read <= u64::MAX {
        Some(CacheCounters { blks_hit: hit as u64, blks_read: read as u64 })
    } else {
        None
    }
}

impl CacheCounters {
    /// The counts of all `databases` together, where both sums fit in 64
    /// bits, and nothing where one does not.
    pub fn total(databases: &Vec<CacheCounters>) -> (r: Option<CacheCounters>)
        ensures
            r == summed(databases@),
    {
        let mut hit: u64 = 0;
        let mut read: u64 = 0;
        let mut i: usize = 0;
        while i < databases.len()
            invariant
                i <= databases.len(),
                hit == hits_of(databases@, i as int),
                read == reads_of(databases@, i as int),
            decreases databases.len() - i,
        {
            proof {
                lemma_counts_grow(databases@, i + 1);
            }
            hit = match hit.checked_add(databases[i].blks_hit) {
                Some(sum) => sum,
                None => {
                    return None;
                },
            };
            read = match read.checked_add(databases[i].blks_read) {
                Some(sum) => sum,
                None => {
                    return None;
                },
            };
            i = i + 1;
        }
        proof {
            lemma_counts_positive(databases@, databases@.len() as int);
        }
        Some(CacheCounters { blks_hit: hit, blks_read: read })
    }
}

/// Whether the share of blocks found in the cache is under 90 percent.
/// Where no block was asked for there is no share, and it is not low.
pub open spec fn hit_ratio_low(hit: int, read: int) -> bool {
    hit + read > 0 && 100 * hit < 90 * (hit + read)
}

/// The share of blocks found in the cache, in hundredths of a percent,
/// rounded to the nearest hundredth, a half upward.
pub open spec fn hit_ratio_hundredths(hit: int, read: int) -> int
    recommends
        hit + read > 0,
{
    (20000 * hit + (hit + read)) / (2 * (hit + read))
}

/// Two decimal digits.
pub open spec fn two_digits(n: int) -> Seq<char> {
    decimal_text(n / 10) + decimal_text(n % 10)
}

/// The text of a number of hundredths with two decimal places.
pub open spec fn hundredths_text(hundredths: int) -> Seq<char>
    recommends
        hundredths >= 0,
{
    decimal_text(hundredths / 100) + "."@ + two_digits(hundredths % 100)
}

/// The finding on the cache hit ratio, if it is low.
pub open spec fn cache_issue(counters: CacheCounters) -> Option<PerformanceIssueView> {
    let hit = counters.blks_hit as int;
    let read = counters.blks_read as int;
    if hit_ratio_low(hit, read) {
        Some(
            PerformanceIssueView {
                issue_type: "Low Cache Hit Ratio"@,
                severity: IssueSeverity::Critical,
                description: "Cache hit ratio is "@ + hundredths_text(
                    hit_ratio_hundredths(hit, read),
                ) + "%, should be > 90%"@,
                recommendation: "Increase shared_buffers or investigate query patterns"@,
                details: None,
            },
        )
    } else {
        None
    }
}

/// Whether a table is read by sequential scans a lot: over 1000 scans that
/// read over 100000 rows.
pub open spec fn is_heavily_scanned(table: TableStats) -> bool {
    table.seq_scan > 1000 && table.seq_tup_read > 100000
}

/// A list of tables ordered by rows read, most first, with `table` put in
/// behind every table that read at least as many rows.
pub open spec fn insert_by_reads(sorted: Seq<TableStats>, table: TableStats) -> Seq<TableStats>
    decreases sorted.len(),
{
    if sorted.len() == 0 {
        seq![table]
    } else if sorted.last().seq_tup_read >= table.seq_tup_read {
        sorted.push(table)
    } else {
        insert_by_reads(sorted.drop_last(), table).push(sorted.last())
    }
}

/// The tables ordered by rows read, most first; tables that read equally
/// many rows keep the order in which they were given.
pub open spec fn by_reads_descending(tables: Seq<TableStats>) -> Seq<TableStats>
    decreases tables.len(),
{
    if tables.len() == 0 {
        Seq::empty()
    } else {
        insert_by_reads(by_reads_descending(tables.drop_last()), tables.last())
    }
}

/// Whether each table of the list read at least as many rows as the next.
pub open spec fn reads_descend(tables: Seq<TableStats>) -> bool {
    forall|i: int, j: int|
        0 <= i < j < tables.len() ==> (#[trigger] tables[i]).seq_tup_read >= (
        #[trigger] tables[j]).seq_tup_read
}

/// The first `n` items of a list, or all of it where it has fewer.
pub open spec fn first_n<T>(items: Seq<T>, n: int) -> Seq<T> {
    if items.len() <= n {
        items
    } else {
        items.take(n)
    }
}

/// The tables to report: of those that are heavily scanned, the five that
/// read the most rows, most first.
pub open spec fn heaviest_tables(tables: Seq<TableStats>) -> Seq<TableStats> {
    first_n(by_reads_descending(tables.filter(|t: TableStats| is_heavily_scanned(t))), 5)
}

/// The name of a table with its schema.
pub open spec fn qualified_name(schema: Seq<char>, table: Seq<char>) -> Seq<char> {
    schema + "."@ + table
}

/// The finding on a heavily scanned table.
pub open spec fn table_issue(table: TableStats) -> PerformanceIssueView {
    PerformanceIssueView {
        issue_type: "High Sequential Scans"@,
        severity: IssueSeverity::Warning,
        description: "Table "@ + qualified_name(table.schemaname@, table.relname@) + " has "@
            + decimal_text(table.seq_scan as int) + " sequential scans"@,
        recommendation: "Consider adding indexes to reduce sequential scans"@,
        details: Some("Table: "@ + qualified_name(table.schemaname@, table.relname@)),
    }
}

/// Whether an index is named like the index of a primary key. The catalog
/// pattern for such names is `%_pkey`, in which `_` stands for any one
/// character: the name ends in `pkey` and has at least one character before.
pub open spec fn primary_key_style(name: Seq<char>) -> bool {
    name.len() >= 5 && "pkey"@.is_suffix_of(name)
}

/// Whether an index was never scanned and is not that of a primary key.
pub open spec fn is_unused(index: IndexStats) -> bool {
    index.idx_scan == 0 && !primary_key_style(index.indexname@)
}

/// The indexes to report: the first ten of those that are unused.
pub open spec fn unused_indexes(indexes: Seq<IndexStats>) -> Seq<IndexStats> {
    first_n(indexes.filter(|x: IndexStats| is_unused(x)), 10)
}

/// The finding on an unused index.
pub open spec fn index_issue(index: IndexStats) -> PerformanceIssueView {
    PerformanceIssueView {
        issue_type: "Unused Index"@,
        severity: IssueSeverity::Info,
        description: "Index "@ + index.indexname@ + " on "@ + qualified_name(
            index.schemaname@,
            index.tablename@,
        ) + " is never used"@,
        recommendation: "Consider dropping unused indexes to improve write performance"@,
        details: Some("Index: "@ + index.indexname@),
    }
}

/// Putting a table into a list makes the list longer by one.
proof fn lemma_insert_len(sorted: Seq<TableStats>, table: TableStats)
    ensures
        insert_by_reads(sorted, table).len() == sorted.len() + 1,
    decreases sorted.len(),
{
    if sorted.len() > 0 && sorted.last().seq_tup_read < table.seq_tup_read {
        lemma_insert_len(sorted.drop_last(), table);
    }
}

/// Where the tables from position `at` on all read fewer rows than `table`,
/// and the table before `at` did not, `table` goes in at `at`.
proof fn lemma_insert_at(sorted: Seq<TableStats>, table: TableStats, at: int)
    requires
        0 <= at <= sorted.len(),
        forall|j: int| at <= j < sorted.len() ==> (#[trigger] sorted[j]).seq_tup_read
            < table.seq_tup_read,
        at > 0 ==> sorted[at - 1].seq_tup_read >= table.seq_tup_read,
    ensures
        insert_by_reads(sorted, table) == sorted.take(at).push(table) + sorted.skip(at),
    decreases sorted.len() - at,
{
    if at == sorted.len() {
        assert(sorted.take(at) =~= sorted);
        assert(sorted.push(table) =~= sorted.take(at).push(table) + sorted.skip(at));
    } else {
        let shorter = sorted.drop_last();
        assert(sorted[sorted.len() - 1].seq_tup_read < table.seq_tup_read);
        assert forall|j: int| at <= j < shorter.len() implies (#[trigger] shorter[j]).seq_tup_read
            < table.seq_tup_read by {
            assert(shorter[j] == sorted[j]);
        }
        lemma_insert_at(shorter, table, at);
        assert(shorter.take(at) =~= sorted.take(at));
        assert((shorter.take(at).push(table) + shorter.skip(at)).push(sorted.last())
            =~= sorted.take(at).push(table) + sorted.skip(at));
    }
}

/// Putting a table into an ordered list gives an ordered list.
proof fn lemma_insert_keeps_order(sorted: Seq<TableStats>, table: TableStats)
    requires
        reads_descend(sorted),
    ensures
        reads_descend(insert_by_reads(sorted, table)),
        forall|j: int|
            0 <= j < insert_by_reads(sorted, table).len() ==> (#[trigger] insert_by_reads(
                sorted,
                table,
            )[j]) == table || sorted.contains(insert_by_reads(sorted, table)[j]),
    decreases sorted.len(),
{
    let result = insert_by_reads(sorted, table);
    if sorted.len() == 0 {
    } else if sorted.last().seq_tup_read >= table.seq_tup_read {
        assert forall|i: int, j: int| 0 <= i < j < result.len() implies (
        #[trigger] result[i]).seq_tup_read >= (#[trigger] result[j]).seq_tup_read by {
            if j == sorted.len() {
                if i < sorted.len() - 1 {
                    assert(sorted[i].seq_tup_read >= sorted[sorted.len() - 1].seq_tup_read);
                }
            } else {
                assert(sorted[i].seq_tup_read >= sorted[j].seq_tup_read);
            }
        }
        assert forall|j: int| 0 <= j < result.len() implies (#[trigger] result[j]) == table
            || sorted.contains(result[j]) by {
            if j < sorted.len() {
                assert(sorted[j] == result[j]);
            }
        }
    } else {
        let shorter = sorted.drop_last();
        assert(reads_descend(shorter)) by {
            assert forall|i: int, j: int| 0 <= i < j < shorter.len() implies (
            #[trigger] shorter[i]).seq_tup_read >= (#[trigger] shorter[j]).seq_tup_read by {
                assert(sorted[i].seq_tup_read >= sorted[j].seq_tup_read);
            }
        }
        lemma_insert_keeps_order(shorter, table);
        lemma_insert_len(shorter, table);
        let inner = insert_by_reads(shorter, table);
        assert forall|j: int| 0 <= j < result.len() implies (#[trigger] result[j]) == table
            || sorted.contains(result[j]) by {
            if j < inner.len() {
                assert(result[j] == inner[j]);
                if inner[j] != table {
                    let w = choose|w: int| 0 <= w < shorter.len() && shorter[w] == inner[j];
                    assert(sorted[w] == inner[j]);
                }
            } else {
                assert(result[j] == sorted[sorted.len() - 1]);
            }
        }
        assert forall|i: int, j: int| 0 <= i < j < result.len() implies (
        #[trigger] result[i]).seq_tup_read >= (#[trigger] result[j]).seq_tup_read by {
            if j < inner.len() {
                assert(inner[i].seq_tup_read >= inner[j].seq_tup_read);
            } else {
                assert(result[i] == inner[i]);
                if inner[i] != table {
                    let w = choose|w: int| 0 <= w < shorter.len() && shorter[w] == inner[i];
                    assert(sorted[w].seq_tup_read >= sorted[sorted.len() - 1].seq_tup_read);
                }
            }
        }
    }
}

/// The ordered form of a list is ordered and as long as the list.
pub proof fn lemma_by_reads_descending(tables: Seq<TableStats>)
    ensures
        reads_descend(by_reads_descending(tables)),
        by_reads_descending(tables).len() == tables.len(),
    decreases tables.len(),
{
    if tables.len() > 0 {
        lemma_by_reads_descending(tables.drop_last());
        lemma_insert_keeps_order(by_reads_descending(tables.drop_last()), tables.last());
        lemma_insert_len(by_reads_descending(tables.drop_last()), tables.last());
    }
}

/// A list with one more table holds that table and all it held before.
proof fn lemma_insert_holds_all(sorted: Seq<TableStats>, table: TableStats)
    ensures
        insert_by_reads(sorted, table).contains(table),
        forall|i: int|
            0 <= i < sorted.len() ==> insert_by_reads(sorted, table).contains(#[trigger] sorted[i]),
    decreases sorted.len(),
{
    let result = insert_by_reads(sorted, table);
    if sorted.len() == 0 {
        assert(result[0] == table);
    } else if sorted.last().seq_tup_read >= table.seq_tup_read {
        assert(result[sorted.len() as int] == table);
        assert forall|i: int| 0 <= i < sorted.len() implies result.contains(
            #[trigger] sorted[i],
        ) by {
            assert(result[i] == sorted[i]);
        }
    } else {
        let shorter = sorted.drop_last();
        let inner = insert_by_reads(shorter, table);
        lemma_insert_holds_all(shorter, table);
        lemma_insert_len(shorter, table);
        let at = choose|k: int| 0 <= k < inner.len() && inner[k] == table;
        assert(result[at] == table);
        assert forall|i: int| 0 <= i < sorted.len() implies result.contains(
            #[trigger] sorted[i],
        ) by {
            if i < shorter.len() {
                assert(inner.contains(shorter[i]));
                let k = choose|k: int| 0 <= k < inner.len() && inner[k] == shorter[i];
                assert(result[k] == sorted[i]);
            } else {
                assert(result[inner.len() as int] == sorted[i]);
            }
        }
    }
}

/// The ordered form of a list holds exactly the tables of the list.
proof fn lemma_ordering_keeps_tables(tables: Seq<TableStats>)
    ensures
        forall|i: int|
            0 <= i < tables.len() ==> by_reads_descending(tables).contains(#[trigger] tables[i]),
        forall|i: int|
            0 <= i < by_reads_descending(tables).len() ==> tables.contains(
                #[trigger] by_reads_descending(tables)[i],
            ),
    decreases tables.len(),
{
    if tables.len() > 0 {
        let shorter = tables.drop_last();
        let before = by_reads_descending(shorter);
        let result = by_reads_descending(tables);
        lemma_ordering_keeps_tables(shorter);
        lemma_by_reads_descending(shorter);
        lemma_insert_holds_all(before, tables.last());
        lemma_insert_keeps_order(before, tables.last());
        assert forall|i: int| 0 <= i < tables.len() implies result.contains(
            #[trigger] tables[i],
        ) by {
            if i < shorter.len() {
                assert(before.contains(shorter[i]));
                let k = choose|k: int| 0 <= k < before.len() && before[k] == shorter[i];
                assert(result.contains(before[k]));
            }
        }
        assert forall|i: int| 0 <= i < result.len() implies tables.contains(
            #[trigger] result[i],
        ) by {
            if result[i] == tables.last() {
                assert(tables[tables.len() - 1] == result[i]);
            } else {
                assert(before.contains(result[i]));
                let k = choose|k: int| 0 <= k < before.len() && before[k] == result[i];
                assert(shorter.contains(before[k]));
                let w = choose|w: int| 0 <= w < shorter.len() && shorter[w] == before[k];
                assert(tables[w] == result[i]);
            }
        }
    }
}

/// What the tables to report are: at most five, each heavily scanned and
/// taken from the rows given, in descending order of rows read; and a
/// heavily scanned table that is left out read no more rows than the last
/// one reported.
pub proof fn lemma_heaviest_tables(tables: Seq<TableStats>)
    ensures
        heaviest_tables(tables).len() <= 5,
        reads_descend(heaviest_tables(tables)),
        forall|i: int|
            0 <= i < heaviest_tables(tables).len() ==> is_heavily_scanned(
                #[trigger] heaviest_tables(tables)[i],
            ) && tables.contains(heaviest_tables(tables)[i]),
        forall|j: int|
            0 <= j < tables.len() && is_heavily_scanned(#[trigger] tables[j]) ==> heaviest_tables(
                tables,
            ).contains(tables[j]) || (heaviest_tables(tables).len() == 5 && heaviest_tables(
                tables,
            )[4].seq_tup_read >= tables[j].seq_tup_read),
{
    let heavy = |t: TableStats| is_heavily_scanned(t);
    let kept = tables.filter(heavy);
    let ordered = by_reads_descending(kept);
    let shown = heaviest_tables(tables);
    lemma_by_reads_descending(kept);
    lemma_ordering_keeps_tables(kept);
    assert forall|i: int, j: int| 0 <= i < j < shown.len() implies (
    #[trigger] shown[i]).seq_tup_read >= (#[trigger] shown[j]).seq_tup_read by {
        assert(ordered[i].seq_tup_read >= ordered[j].seq_tup_read);
    }
    assert forall|i: int| 0 <= i < shown.len() implies is_heavily_scanned(#[trigger] shown[i])
        && tables.contains(shown[i]) by {
        assert(shown[i] == ordered[i]);
        assert(kept.contains(ordered[i]));
        let k = choose|k: int| 0 <= k < kept.len() && kept[k] == ordered[i];
        kept.lemma_filter_contains_rev(heavy, kept[k]);
        tables.lemma_filter_pred(heavy, k);
        tables.lemma_filter_contains_rev(heavy, kept[k]);
    }
    assert forall|j: int|
        0 <= j < tables.len() && is_heavily_scanned(#[trigger] tables[j]) implies shown.contains(
        tables[j],
    ) || (shown.len() == 5 && shown[4].seq_tup_read >= tables[j].seq_tup_read) by {
        tables.lemma_filter_contains(heavy, j);
        let k = choose|k: int| 0 <= k < kept.len() && kept[k] == tables[j];
        assert(ordered.contains(kept[k]));
        let at = choose|at: int| 0 <= at < ordered.len() && ordered[at] == tables[j];
        if at < shown.len() {
            assert(shown[at] == tables[j]);
        } else {
            assert(shown.len() == 5);
            assert(ordered[4].seq_tup_read >= ordered[at].seq_tup_read);
            assert(shown[4] == ordered[4]);
        }
    }
}

/// The first `n` of an ordered list with one more table are the first `n`
/// of its own first `n` with that table: what lies behind never comes
/// forward.
proof fn lemma_first_n_of_insert(sorted: Seq<TableStats>, table: TableStats, n: int)
    requires
        reads_descend(sorted),
        0 <= n,
    ensures
        first_n(insert_by_reads(sorted, table), n) == first_n(
            insert_by_reads(first_n(sorted, n), table),
            n,
        ),
    decreases sorted.len(),
{
    if sorted.len() > n {
        let shorter = sorted.drop_last();
        let kept = sorted.take(n);
        lemma_insert_len(sorted, table);
        lemma_insert_len(shorter, table);
        lemma_insert_len(kept, table);
        assert(reads_descend(shorter)) by {
            assert forall|i: int, j: int| 0 <= i < j < shorter.len() implies (
            #[trigger] shorter[i]).seq_tup_read >= (#[trigger] shorter[j]).seq_tup_read by {
                assert(sorted[i].seq_tup_read >= sorted[j].seq_tup_read);
            }
        }
        if sorted.last().seq_tup_read >= table.seq_tup_read {
            if n > 0 {
                assert(kept.last() == sorted[n - 1]);
                assert(sorted[n - 1].seq_tup_read >= sorted[sorted.len() - 1].seq_tup_read);
                assert(insert_by_reads(kept, table) == kept.push(table));
                assert(kept.push(table).take(n) =~= kept);
            } else {
                assert(insert_by_reads(kept, table).take(0) =~= Seq::<TableStats>::empty());
            }
            assert(sorted.push(table).take(n) =~= kept);
        } else {
            lemma_first_n_of_insert(shorter, table, n);
            assert(insert_by_reads(sorted, table).take(n) =~= insert_by_reads(
                shorter,
                table,
            ).take(n));
            if shorter.len() > n {
                assert(shorter.take(n) =~= kept);
            } else {
                assert(shorter =~= kept);
            }
        }
    }
}

/// The finding on the cache hit ratio over all `databases`, if it is low.
/// Counts too large to be summed in 64 bits find nothing.
pub open spec fn cache_finding(databases: Seq<CacheCounters>) -> Seq<PerformanceIssueView> {
    match summed(databases) {
        Some(counters) => optional(cache_issue(counters)),
        None => Seq::empty(),
    }
}

/// All performance findings, in their fixed order: the cache hit ratio,
/// the heavily scanned tables, the unused indexes. A read that failed is
/// `None` and finds nothing.
pub open spec fn performance_findings(
    databases: Option<Vec<CacheCounters>>,
    tables: Option<Vec<TableStats>>,
    indexes: Option<Vec<IndexStats>>,
) -> Seq<PerformanceIssueView> {
    let ratio = match databases {
        Some(rows) => cache_finding(rows@),
        None => Seq::empty(),
    };
    let scanned = match tables {
        Some(rows) => heaviest_tables(rows@).map_values(|t: TableStats| table_issue(t)),
        None => Seq::empty(),
    };
    let unused = match indexes {
        Some(rows) => unused_indexes(rows@).map_values(|x: IndexStats| index_issue(x)),
        None => Seq::empty(),
    };
    ratio + scanned + unused
}

fn append_two_digits(out: &mut String, n: i64)
    requires
        0 <= n < 100,
    ensures
        final(out)@ == old(out)@ + two_digits(n as int),
{
    append_decimal(out, n / 10);
    append_decimal(out, n % 10);
    assert(out@ =~= old(out)@ + two_digits(n as int));
}

fn cache_issue_of(counters: CacheCounters) -> (r: Option<PerformanceIssue>)
    ensures
        opt_issue(r) == cache_issue(counters),
{
    let hit: u128 = counters.blks_hit as u128;
    let total: u128 = hit + counters.blks_read as u128;
    if total > 0 && 100 * hit < 90 * total {
        let hundredths: u128 = (20000 * hit + total) / (2 * total);
        assert(hundredths <= 9001) by (nonlinear_arith)
            requires
                hundredths == (20000 * hit + total) / (2 * total),
                100 * hit < 90 * total,
                total > 0,
                hit >= 0,
        ;
        let shown: i64 = hundredths as i64;
        let mut description = String::from_str("Cache hit ratio is ");
        append_decimal(&mut description, shown / 100);
        description.append(".");
        append_two_digits(&mut description, shown % 100);
        description.append("%, should be > 90%");
        proof {
            assert(description@ =~= "Cache hit ratio is "@ + hundredths_text(shown as int)
                + "%, should be > 90%"@);
        }
        Some(
            PerformanceIssue {
                issue_type: String::from_str("Low Cache Hit Ratio"),
                severity: IssueSeverity::Critical,
                description,
                recommendation: String::from_str(
                    "Increase shared_buffers or investigate query patterns",
                ),
                details: None,
            },
        )
    } else {
        None
    }
}

fn qualified(schema: &String, table: &String) -> (r: String)
    ensures
        r@ == qualified_name(schema@, table@),
{
    let mut name = schema.clone();
    name.append(".");
    name.append(table.as_str());
    name
}

fn table_issue_of(table: &TableStats) -> (r: PerformanceIssue)
    ensures
        r@ == table_issue(*table),
{
    let name = qualified(&table.schemaname, &table.relname);
    let mut description = String::from_str("Table ");
    description.append(name.as_str());
    description.append(" has ");
    append_decimal(&mut description, table.seq_scan);
    description.append(" sequential scans");
    let mut details = String::from_str("Table: ");
    details.append(name.as_str());
    proof {
        assert(description@ =~= table_issue(*table).description);
    }
    PerformanceIssue {
        issue_type: String::from_str("High Sequential Scans"),
        severity: IssueSeverity::Warning,
        description,
        recommendation: String::from_str("Consider adding indexes to reduce sequential scans"),
        details: Some(details),
    }
}

fn index_issue_of(index: &IndexStats) -> (r: PerformanceIssue)
    ensures
        r@ == index_issue(*index),
{
    let name = qualified(&index.schemaname, &index.tablename);
    let mut description = String::from_str("Index ");
    description.append(index.indexname.as_str());
    description.append(" on ");
    description.append(name.as_str());
    description.append(" is never used");
    let mut details = String::from_str("Index: ");
    details.append(index.indexname.as_str());
    proof {
        assert(description@ =~= index_issue(*index).description);
    }
    PerformanceIssue {
        issue_type: String::from_str("Unused Index"),
        severity: IssueSeverity::Info,
        description,
        recommendation: String::from_str(
            "Consider dropping unused indexes to improve write performance",
        ),
        details: Some(details),
    }
}

fn is_primary_key_style(name: &str) -> (r: bool)
    ensures
        r == primary_key_style(name@),
{
    name.unicode_len() >= 5 && ends_with(name, "pkey")
}

/// Puts `table` into the ordered list `top` and keeps the first `n`.
fn insert_top(top: &mut Vec<TableStats>, table: TableStats, n: usize)
    requires
        reads_descend(old(top)@),
        old(top)@.len() <= n,
    ensures
        final(top)@ == first_n(insert_by_reads(old(top)@, table), n as int),
        reads_descend(final(top)@),
        final(top)@.len() <= n,
{
    let ghost before = top@;
    let mut at: usize = top.len();
    while at > 0 && top[at - 1].seq_tup_read < table.seq_tup_read
        invariant
            at <= top@.len(),
            top@ == before,
            forall|j: int| at <= j < top@.len() ==> (#[trigger] top@[j]).seq_tup_read
                < table.seq_tup_read,
        decreases at,
    {
        at = at - 1;
    }
    proof {
        lemma_insert_at(before, table, at as int);
        lemma_insert_keeps_order(before, table);
        lemma_insert_len(before, table);
    }
    top.insert(at, table);
    assert(top@ =~= insert_by_reads(before, table));
    if top.len() > n {
        top.truncate(n);
    }
    proof {
        let whole = insert_by_reads(before, table);
        assert(top@ =~= first_n(whole, n as int));
        assert forall|i: int, j: int| 0 <= i < j < top@.len() implies (
        #[trigger] top@[i]).seq_tup_read >= (#[trigger] top@[j]).seq_tup_read by {
            assert(whole[i].seq_tup_read >= whole[j].seq_tup_read);
        }
    }
}

fn heaviest(tables: &Vec<TableStats>) -> (r: Vec<TableStats>)
    ensures
        r@ == heaviest_tables(tables@),
{
    let mut top: Vec<TableStats> = Vec::new();
    let ghost heavy = |t: TableStats| is_heavily_scanned(t);
    let mut i: usize = 0;
    proof {
        assert(tables@.take(0).filter(heavy) =~= Seq::<TableStats>::empty()) by {
            reveal(Seq::filter);
        }
        assert(by_reads_descending(Seq::<TableStats>::empty()) =~= Seq::<TableStats>::empty());
    }
    while i < tables.len()
        invariant
            i <= tables.len(),
            heavy == |t: TableStats| is_heavily_scanned(t),
            top@ == first_n(by_reads_descending(tables@.take(i as int).filter(heavy)), 5),
            reads_descend(top@),
            top@.len() <= 5,
        decreases tables.len() - i,
    {
        let ghost seen = tables@.take(i as int).filter(heavy);
        proof {
            reveal(Seq::filter);
            assert(tables@.take(i + 1).drop_last() =~= tables@.take(i as int));
            assert(tables@.take(i + 1).last() == tables@[i as int]);
        }
        if tables[i].seq_scan > 1000 && tables[i].seq_tup_read > 100000 {
            proof {
                assert(tables@.take(i + 1).filter(heavy) == seen.push(tables@[i as int]));
                assert(seen.push(tables@[i as int]).drop_last() =~= seen);
                lemma_by_reads_descending(seen);
                lemma_first_n_of_insert(by_reads_descending(seen), tables@[i as int], 5);
            }
            insert_top(&mut top, tables[i].clone(), 5);
        } else {
            proof {
                assert(tables@.take(i + 1).filter(heavy) == seen);
            }
        }
        i = i + 1;
    }
    proof {
        assert(tables@.take(i as int) =~= tables@);
    }
    top
}

fn unused(indexes: &Vec<IndexStats>) -> (r: Vec<IndexStats>)
    ensures
        r@ == unused_indexes(indexes@),
{
    let mut found: Vec<IndexStats> = Vec::new();
    let ghost idle = |x: IndexStats| is_unused(x);
    let mut i: usize = 0;
    proof {
        assert(indexes@.take(0).filter(idle) =~= Seq::<IndexStats>::empty()) by {
            reveal(Seq::filter);
        }
    }
    while i < indexes.len()
        invariant
            i <= indexes.len(),
            idle == |x: IndexStats| is_unused(x),
            found@ == first_n(indexes@.take(i as int).filter(idle), 10),
        decreases indexes.len() - i,
    {
        let ghost seen = indexes@.take(i as int).filter(idle);
        proof {
            reveal(Seq::filter);
            assert(indexes@.take(i + 1).drop_last() =~= indexes@.take(i as int));
            assert(indexes@.take(i + 1).last() == indexes@[i as int]);
        }
        if indexes[i].idx_scan == 0 && !is_primary_key_style(indexes[i].indexname.as_str()) {
            if found.len() < 10 {
                found.push(indexes[i].clone());
            }
            proof {
                let more = seen.push(indexes@[i as int]);
                assert(indexes@.take(i + 1).filter(idle) == more);
                assert(found@ =~= first_n(more, 10));
            }
        } else {
            proof {
                assert(indexes@.take(i + 1).filter(idle) == seen);
            }
        }
        i = i + 1;
    }
    proof {
        assert(indexes@.take(i as int) =~= indexes@);
    }
    found
}

impl ConfigAnalyzer {
    /// Applies the three performance rules to what the catalog reads gave:
    /// the block counts of every database, the access counters of the
    /// tables, and those of the indexes. Each read stands by itself: one
    /// that failed is handed in as `None` and adds no finding, and the
    /// others are judged all the same.
    pub fn detect_performance_issues(
        databases: Option<Vec<CacheCounters>>,
        tables: Option<Vec<TableStats>>,
        indexes: Option<Vec<IndexStats>>,
    ) -> (r: Vec<PerformanceIssue>)
        ensures
            performance_issue_views(r@) == performance_findings(databases, tables, indexes),
    {
        let mut issues: Vec<PerformanceIssue> = Vec::new();
        if let Some(rows) = &databases {
            if let Some(counters) = CacheCounters::total(rows) {
                if let Some(issue) = cache_issue_of(counters) {
                    issues.push(issue);
                }
            }
        }
        let ghost ratio = performance_issue_views(issues@);
        proof {
            assert(ratio =~= match databases {
                Some(rows) => cache_finding(rows@),
                None => Seq::empty(),
            });
        }
        let ghost mut scanned: Seq<PerformanceIssueView> = Seq::empty();
        if let Some(rows) = &tables {
            let top = heaviest(rows);
            let mut i: usize = 0;
            while i < top.len()
                invariant
                    i <= top.len(),
                    issues@.len() == ratio.len() + i,
                    forall|j: int| 0 <= j < ratio.len() ==> (#[trigger] issues@[j])@ == ratio[j],
                    forall|j: int|
                        0 <= j < i ==> (#[trigger] issues@[ratio.len() + j])@ == table_issue(
                            top@[j],
                        ),
                decreases top.len() - i,
            {
                issues.push(table_issue_of(&top[i]));
                i = i + 1;
            }
            proof {
                scanned = top@.map_values(|t: TableStats| table_issue(t));
                let shown = performance_issue_views(issues@);
                assert forall|k: int| 0 <= k < shown.len() implies shown[k] == (ratio + scanned)[k] by {
                    if k >= ratio.len() {
                        let j = k - ratio.len();
                        assert(issues@[ratio.len() + j]@ == table_issue(top@[j]));
                    } else {
                        assert(issues@[k]@ == ratio[k]);
                    }
                }
                assert(shown =~= ratio + scanned);
            }
        } else {
            proof {
                assert(performance_issue_views(issues@) =~= ratio + scanned);
            }
        }
        let ghost first = ratio + scanned;
        if let Some(rows) = &indexes {
            let idle = unused(rows);
            let mut i: usize = 0;
            while i < idle.len()
                invariant
                    i <= idle.len(),
                    issues@.len() == first.len() + i,
                    forall|j: int| 0 <= j < first.len() ==> (#[trigger] issues@[j])@ == first[j],
                    forall|j: int|
                        0 <= j < i ==> (#[trigger] issues@[first.len() + j])@ == index_issue(
                            idle@[j],
                        ),
                decreases idle.len() - i,
            {
                issues.push(index_issue_of(&idle[i]));
                i = i + 1;
            }
            proof {
                let rest = idle@.map_values(|x: IndexStats| index_issue(x));
                let shown = performance_issue_views(issues@);
                assert forall|k: int| 0 <= k < shown.len() implies shown[k] == (first + rest)[k] by {
                    if k >= first.len() {
                        let j = k - first.len();
                        assert(issues@[first.len() + j]@ == index_issue(idle@[j]));
                    } else {
                        assert(issues@[k]@ == first[k]);
                    }
                }
                assert(shown =~= first + rest);
            }
        }
        proof {
            assert(performance_issue_views(issues@) =~= performance_findings(
                databases,
                tables,
                indexes,
            ));
        }
        issues
    }
}

} // verus!
