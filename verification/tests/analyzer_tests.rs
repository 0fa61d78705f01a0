use pg_dashboard::analyzer::{ConfigAnalyzer, IssueSeverity};
use pg_dashboard::config::{ConfigCollector, HardwareInfo, PostgresConfig};
use pg_dashboard::metrics::{IndexStats, TableStats};
use pg_dashboard::performance::CacheCounters;

fn hardware(cpu_cores: i32, total_memory_mb: i64) -> HardwareInfo {
    HardwareInfo {
        cpu_cores,
        total_memory_mb,
        postgres_version: "PostgreSQL 16.1".to_string(),
        os_type: "Linux".to_string(),
    }
}

fn setting(name: &str, value: &str) -> PostgresConfig {
    PostgresConfig {
        name: name.to_string(),
        setting: value.to_string(),
        unit: None,
        category: "Resource Usage".to_string(),
        short_desc: None,
        source: "default".to_string(),
        min_val: None,
        max_val: None,
    }
}

fn table(schema: &str, name: &str, seq_scan: i64, seq_tup_read: i64) -> TableStats {
    TableStats {
        schemaname: schema.to_string(),
        relname: name.to_string(),
        seq_scan,
        seq_tup_read,
        idx_scan: None,
        idx_tup_fetch: None,
        n_tup_ins: 0,
        n_tup_upd: 0,
        n_tup_del: 0,
        n_live_tup: 0,
        n_dead_tup: 0,
        last_vacuum: None,
        last_autovacuum: None,
    }
}

fn index(schema: &str, table: &str, name: &str, idx_scan: i64) -> IndexStats {
    IndexStats {
        schemaname: schema.to_string(),
        tablename: table.to_string(),
        indexname: name.to_string(),
        idx_scan,
        idx_tup_read: 0,
        idx_tup_fetch: 0,
    }
}

#[test]
fn shared_buffers_far_below_quarter_of_memory_is_flagged() {
    let issues = ConfigAnalyzer::analyze_shared_buffers("4096", &hardware(4, 4096));
    assert_eq!(issues.len(), 1);
    assert_eq!(issues[0].parameter, "shared_buffers");
    assert_eq!(issues[0].current_value, "32MB");
    assert_eq!(issues[0].recommended_value, "1024MB");
    assert_eq!(issues[0].severity, IssueSeverity::Warning);
    assert_eq!(
        issues[0].reason,
        "shared_buffers is too low. Recommended: 25% of RAM (max 8GB)"
    );
}

#[test]
fn shared_buffers_at_quarter_of_memory_is_fine() {
    let issues = ConfigAnalyzer::analyze_shared_buffers("131072", &hardware(4, 4096));
    assert!(issues.is_empty());
}

#[test]
fn shared_buffers_recommendation_is_capped_at_8192_mb() {
    let issues = ConfigAnalyzer::analyze_shared_buffers("1024", &hardware(4, 1_000_000));
    assert_eq!(issues.len(), 1);
    assert_eq!(issues[0].current_value, "8MB");
    assert_eq!(issues[0].recommended_value, "8192MB");
}

#[test]
fn shared_buffers_at_exactly_half_of_the_advice_is_not_flagged() {
    // advice 1024 MB, half of it 512 MB = 65536 blocks
    assert!(ConfigAnalyzer::analyze_shared_buffers("65536", &hardware(4, 4096)).is_empty());
    assert_eq!(ConfigAnalyzer::analyze_shared_buffers("65535", &hardware(4, 4096)).len(), 1);
}

#[test]
fn shared_buffers_that_is_no_number_is_skipped() {
    assert!(ConfigAnalyzer::analyze_shared_buffers("128MB", &hardware(4, 4096)).is_empty());
    assert!(ConfigAnalyzer::analyze_shared_buffers("", &hardware(4, 4096)).is_empty());
}

#[test]
fn effective_cache_size_under_half_of_three_quarters_is_noted() {
    // 4096 MB memory: advice 3072 MB, half 1536 MB; 16384 blocks = 128 MB
    let issues = ConfigAnalyzer::analyze_effective_cache_size("16384", &hardware(4, 4096));
    assert_eq!(issues.len(), 1);
    assert_eq!(issues[0].parameter, "effective_cache_size");
    assert_eq!(issues[0].current_value, "128MB");
    assert_eq!(issues[0].recommended_value, "3072MB");
    assert_eq!(issues[0].severity, IssueSeverity::Info);
    assert_eq!(
        issues[0].reason,
        "effective_cache_size is low. Recommended: 50-75% of total RAM"
    );
    // 196608 blocks = 1536 MB: not under half
    assert!(ConfigAnalyzer::analyze_effective_cache_size("196608", &hardware(4, 4096)).is_empty());
}

#[test]
fn effective_cache_size_advice_rounds_toward_zero() {
    // 4097 * 0.75 = 3072.75
    let issues = ConfigAnalyzer::analyze_effective_cache_size("0", &hardware(4, 4097));
    assert_eq!(issues[0].recommended_value, "3072MB");
}

#[test]
fn work_mem_under_four_megabytes_is_noted() {
    let issues = ConfigAnalyzer::analyze_work_mem("4095", &hardware(4, 4096));
    assert_eq!(issues.len(), 1);
    assert_eq!(issues[0].parameter, "work_mem");
    assert_eq!(issues[0].current_value, "3MB");
    assert_eq!(issues[0].recommended_value, "10-50MB");
    assert_eq!(issues[0].severity, IssueSeverity::Info);
    assert_eq!(
        issues[0].reason,
        "work_mem is very low, may affect sort and hash operations"
    );
    assert!(ConfigAnalyzer::analyze_work_mem("4096", &hardware(4, 4096)).is_empty());
    assert!(ConfigAnalyzer::analyze_work_mem("many", &hardware(4, 4096)).is_empty());
}

#[test]
fn max_connections_over_twice_the_advice_is_flagged() {
    let issues = ConfigAnalyzer::analyze_max_connections("500", &hardware(4, 4096));
    assert_eq!(issues.len(), 1);
    assert_eq!(issues[0].parameter, "max_connections");
    assert_eq!(issues[0].current_value, "500");
    assert_eq!(issues[0].recommended_value, "200");
    assert_eq!(issues[0].severity, IssueSeverity::Warning);
    assert_eq!(
        issues[0].reason,
        "max_connections is very high, may cause resource exhaustion"
    );
}

#[test]
fn max_connections_within_twice_the_advice_is_fine() {
    assert!(ConfigAnalyzer::analyze_max_connections("300", &hardware(4, 4096)).is_empty());
    assert!(ConfigAnalyzer::analyze_max_connections("400", &hardware(4, 4096)).is_empty());
    assert_eq!(ConfigAnalyzer::analyze_max_connections("401", &hardware(4, 4096)).len(), 1);
}

#[test]
fn max_connections_advice_follows_the_cores_below_the_cap() {
    let issues = ConfigAnalyzer::analyze_max_connections("101", &hardware(1, 4096));
    assert_eq!(issues.len(), 1);
    assert_eq!(issues[0].recommended_value, "50");
    assert!(ConfigAnalyzer::analyze_max_connections("100", &hardware(1, 4096)).is_empty());
    // beyond 32 bits the setting is no number of connections
    assert!(ConfigAnalyzer::analyze_max_connections("4294967296", &hardware(1, 4096)).is_empty());
}

#[test]
fn max_connections_advice_does_not_overflow_for_many_cores() {
    let issues = ConfigAnalyzer::analyze_max_connections("1000", &hardware(i32::MAX, 4096));
    assert_eq!(issues.len(), 1);
    assert_eq!(issues[0].recommended_value, "200");
}

#[test]
fn analyze_configuration_applies_the_rules_in_their_order() {
    let settings = vec![
        setting("max_connections", "500"),
        setting("work_mem", "1024"),
        setting("autovacuum", "on"),
        setting("effective_cache_size", "16384"),
        setting("shared_buffers", "4096"),
    ];
    let issues = ConfigAnalyzer::analyze_configuration(&settings, &hardware(4, 4096));
    let names: Vec<&str> = issues.iter().map(|i| i.parameter.as_str()).collect();
    assert_eq!(
        names,
        vec!["shared_buffers", "effective_cache_size", "work_mem", "max_connections"]
    );
}

#[test]
fn analyze_configuration_skips_absent_and_unreadable_settings() {
    let settings = vec![setting("shared_buffers", "lots"), setting("work_mem", "1024")];
    let issues = ConfigAnalyzer::analyze_configuration(&settings, &hardware(4, 4096));
    assert_eq!(issues.len(), 1);
    assert_eq!(issues[0].parameter, "work_mem");
    assert!(ConfigAnalyzer::analyze_configuration(&Vec::new(), &hardware(4, 4096)).is_empty());
}

#[test]
fn analyze_configuration_takes_the_first_setting_of_a_name() {
    let settings = vec![setting("work_mem", "65536"), setting("work_mem", "64")];
    assert!(ConfigAnalyzer::analyze_configuration(&settings, &hardware(4, 4096)).is_empty());
}

#[test]
fn hardware_estimate_floors_the_cores_at_one() {
    let info = ConfigCollector::get_hardware_info("PostgreSQL 16".to_string(), 0, Some(128));
    assert_eq!(info.cpu_cores, 1);
    assert_eq!(info.total_memory_mb, 512);
    assert_eq!(info.postgres_version, "PostgreSQL 16");
    assert_eq!(info.os_type, "Linux");
    let busy = ConfigCollector::get_hardware_info("v".to_string(), 12, Some(1024));
    assert_eq!(busy.cpu_cores, 12);
    assert_eq!(busy.total_memory_mb, 4096);
}

#[test]
fn hardware_estimate_defaults_the_memory_to_8192_mb() {
    let info = ConfigCollector::get_hardware_info("v".to_string(), 3, None);
    assert_eq!(info.cpu_cores, 3);
    assert_eq!(info.total_memory_mb, 8192);
}

#[test]
fn low_cache_hit_ratio_is_critical_and_names_the_ratio() {
    let cache = CacheCounters { blks_hit: 2, blks_read: 1 };
    let issues = ConfigAnalyzer::detect_performance_issues(Some(vec![cache]), None, None);
    assert_eq!(issues.len(), 1);
    assert_eq!(issues[0].issue_type, "Low Cache Hit Ratio");
    assert_eq!(issues[0].severity, IssueSeverity::Critical);
    assert_eq!(issues[0].description, "Cache hit ratio is 66.67%, should be > 90%");
    assert_eq!(
        issues[0].recommendation,
        "Increase shared_buffers or investigate query patterns"
    );
    assert_eq!(issues[0].details, None);
}

#[test]
fn cache_hit_ratio_text_keeps_two_decimal_places() {
    let half = ConfigAnalyzer::detect_performance_issues(
        Some(vec![CacheCounters { blks_hit: 1, blks_read: 1 }]),
        None,
        None,
    );
    assert_eq!(half[0].description, "Cache hit ratio is 50.00%, should be > 90%");
    let none = ConfigAnalyzer::detect_performance_issues(
        Some(vec![CacheCounters { blks_hit: 0, blks_read: 10 }]),
        None,
        None,
    );
    assert_eq!(none[0].description, "Cache hit ratio is 0.00%, should be > 90%");
    let small = ConfigAnalyzer::detect_performance_issues(
        Some(vec![CacheCounters { blks_hit: 1, blks_read: 19 }]),
        None,
        None,
    );
    assert_eq!(small[0].description, "Cache hit ratio is 5.00%, should be > 90%");
    let near = ConfigAnalyzer::detect_performance_issues(
        Some(vec![CacheCounters { blks_hit: 8999, blks_read: 1001 }]),
        None,
        None,
    );
    assert_eq!(near[0].description, "Cache hit ratio is 89.99%, should be > 90%");
}

#[test]
fn cache_hit_ratio_of_ninety_or_more_is_fine() {
    let at = CacheCounters { blks_hit: 90, blks_read: 10 };
    assert!(ConfigAnalyzer::detect_performance_issues(Some(vec![at]), None, None).is_empty());
    let idle = CacheCounters { blks_hit: 0, blks_read: 0 };
    assert!(ConfigAnalyzer::detect_performance_issues(Some(vec![idle]), None, None).is_empty());
    let large = CacheCounters { blks_hit: u64::MAX, blks_read: u64::MAX / 100 };
    assert!(ConfigAnalyzer::detect_performance_issues(Some(vec![large]), None, None).is_empty());
}

#[test]
fn heavily_scanned_tables_are_reported_most_read_first() {
    let rows = vec![
        table("public", "small", 5000, 200_000),
        table("public", "quiet", 10, 9_000_000),
        table("public", "big", 2000, 900_000),
        table("app", "few_rows", 2000, 100_000),
        table("app", "mid", 1001, 500_000),
    ];
    let issues = ConfigAnalyzer::detect_performance_issues(None, Some(rows), None);
    assert_eq!(issues.len(), 3);
    assert_eq!(issues[0].description, "Table public.big has 2000 sequential scans");
    assert_eq!(issues[1].description, "Table app.mid has 1001 sequential scans");
    assert_eq!(issues[2].description, "Table public.small has 5000 sequential scans");
    assert_eq!(issues[0].issue_type, "High Sequential Scans");
    assert_eq!(issues[0].severity, IssueSeverity::Warning);
    assert_eq!(
        issues[0].recommendation,
        "Consider adding indexes to reduce sequential scans"
    );
    assert_eq!(issues[0].details, Some("Table: public.big".to_string()));
}

#[test]
fn at_most_five_tables_are_reported() {
    let mut rows = Vec::new();
    for i in 0..8i64 {
        rows.push(table("public", &format!("t{}", i), 2000, 200_000 + i));
    }
    let issues = ConfigAnalyzer::detect_performance_issues(None, Some(rows), None);
    let shown: Vec<&str> = issues.iter().map(|i| i.description.as_str()).collect();
    assert_eq!(
        shown,
        vec![
            "Table public.t7 has 2000 sequential scans",
            "Table public.t6 has 2000 sequential scans",
            "Table public.t5 has 2000 sequential scans",
            "Table public.t4 has 2000 sequential scans",
            "Table public.t3 has 2000 sequential scans",
        ]
    );
}

#[test]
fn tables_that_read_equally_many_rows_keep_their_order() {
    let rows = vec![
        table("public", "first", 2000, 300_000),
        table("public", "second", 2000, 300_000),
        table("public", "top", 2000, 400_000),
    ];
    let issues = ConfigAnalyzer::detect_performance_issues(None, Some(rows), None);
    assert_eq!(issues[0].details, Some("Table: public.top".to_string()));
    assert_eq!(issues[1].details, Some("Table: public.first".to_string()));
    assert_eq!(issues[2].details, Some("Table: public.second".to_string()));
}

#[test]
fn unused_indexes_are_reported_without_primary_keys() {
    let rows = vec![
        index("public", "orders", "orders_pkey", 0),
        index("public", "orders", "orders_customer_idx", 0),
        index("public", "orders", "orders_date_idx", 12),
        index("public", "items", "pkey", 0),
    ];
    let issues = ConfigAnalyzer::detect_performance_issues(None, None, Some(rows));
    assert_eq!(issues.len(), 2);
    assert_eq!(issues[0].issue_type, "Unused Index");
    assert_eq!(issues[0].severity, IssueSeverity::Info);
    assert_eq!(
        issues[0].description,
        "Index orders_customer_idx on public.orders is never used"
    );
    assert_eq!(
        issues[0].recommendation,
        "Consider dropping unused indexes to improve write performance"
    );
    assert_eq!(issues[0].details, Some("Index: orders_customer_idx".to_string()));
    assert_eq!(issues[1].details, Some("Index: pkey".to_string()));
}

#[test]
fn at_most_ten_unused_indexes_are_reported() {
    let mut rows = Vec::new();
    for i in 0..14 {
        rows.push(index("public", "t", &format!("idx{}", i), 0));
    }
    let issues = ConfigAnalyzer::detect_performance_issues(None, None, Some(rows));
    assert_eq!(issues.len(), 10);
    assert_eq!(issues[0].details, Some("Index: idx0".to_string()));
    assert_eq!(issues[9].details, Some("Index: idx9".to_string()));
}

#[test]
fn a_failed_read_adds_nothing_and_stops_nothing() {
    let rows = vec![index("public", "orders", "orders_customer_idx", 0)];
    let cache = CacheCounters { blks_hit: 1, blks_read: 9 };
    let issues = ConfigAnalyzer::detect_performance_issues(Some(vec![cache]), None, Some(rows));
    assert_eq!(issues.len(), 2);
    assert_eq!(issues[0].issue_type, "Low Cache Hit Ratio");
    assert_eq!(issues[1].issue_type, "Unused Index");
    assert!(ConfigAnalyzer::detect_performance_issues(None, None, None).is_empty());
}

#[test]
fn findings_come_in_the_order_of_the_rules() {
    let issues = ConfigAnalyzer::detect_performance_issues(
        Some(vec![CacheCounters { blks_hit: 1, blks_read: 9 }]),
        Some(vec![table("public", "big", 2000, 900_000)]),
        Some(vec![index("public", "big", "big_idx", 0)]),
    );
    let kinds: Vec<&str> = issues.iter().map(|i| i.issue_type.as_str()).collect();
    assert_eq!(kinds, vec!["Low Cache Hit Ratio", "High Sequential Scans", "Unused Index"]);
}

#[test]
fn an_index_name_ending_in_pkey_after_any_character_counts_as_a_primary_key() {
    let rows = vec![
        index("public", "t", "xpkey", 0),
        index("public", "t", "t_pkey", 0),
        index("public", "t", "pkey_old", 0),
        index("public", "t", "t_pkeys", 0),
    ];
    let issues = ConfigAnalyzer::detect_performance_issues(None, None, Some(rows));
    let shown: Vec<Option<String>> = issues.into_iter().map(|i| i.details).collect();
    assert_eq!(
        shown,
        vec![Some("Index: pkey_old".to_string()), Some("Index: t_pkeys".to_string())]
    );
}

#[test]
fn cache_counters_of_all_databases_are_summed() {
    let rows = vec![
        CacheCounters { blks_hit: 10, blks_read: 1 },
        CacheCounters { blks_hit: 0, blks_read: 0 },
        CacheCounters { blks_hit: 5, blks_read: 20 },
    ];
    assert_eq!(CacheCounters::total(&rows), Some(CacheCounters { blks_hit: 15, blks_read: 21 }));
    assert_eq!(CacheCounters::total(&Vec::new()), Some(CacheCounters { blks_hit: 0, blks_read: 0 }));
}

#[test]
fn cache_counters_beyond_64_bits_give_no_sum() {
    let rows = vec![
        CacheCounters { blks_hit: u64::MAX, blks_read: 1 },
        CacheCounters { blks_hit: 1, blks_read: 1 },
    ];
    assert_eq!(CacheCounters::total(&rows), None);
    let reads = vec![
        CacheCounters { blks_hit: 0, blks_read: u64::MAX },
        CacheCounters { blks_hit: 0, blks_read: 1 },
    ];
    assert_eq!(CacheCounters::total(&reads), None);
}

#[test]
fn the_counts_of_all_databases_decide_the_cache_finding() {
    let rows = vec![
        CacheCounters { blks_hit: 80, blks_read: 0 },
        CacheCounters { blks_hit: 0, blks_read: 20 },
    ];
    let issues = ConfigAnalyzer::detect_performance_issues(Some(rows), None, None);
    assert_eq!(issues.len(), 1);
    assert_eq!(issues[0].description, "Cache hit ratio is 80.00%, should be > 90%");
}

#[test]
fn counts_too_large_to_sum_find_nothing() {
    let rows = vec![
        CacheCounters { blks_hit: 1, blks_read: u64::MAX },
        CacheCounters { blks_hit: 1, blks_read: u64::MAX },
    ];
    assert!(ConfigAnalyzer::detect_performance_issues(Some(rows), None, None).is_empty());
    assert!(ConfigAnalyzer::detect_performance_issues(Some(Vec::new()), None, None).is_empty());
}
