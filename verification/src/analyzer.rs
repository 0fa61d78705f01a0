//! Findings about a server's configuration and its running performance.

use vstd::prelude::*;
use crate::config::{opt_text, HardwareInfo, PostgresConfig};
use crate::text::{decimal_string, decimal_text, parse_decimal, parse_i32, parse_i64};

verus! {

/// How serious a finding is.
#[derive(Debug, Clone, Copy, PartialEq, Eq, Structural)]
pub enum IssueSeverity {
    Critical,
    Warning,
    Info,
}

/// A setting whose value is out of line with the estimated hardware.
#[derive(Debug)]
pub struct ConfigIssue {
    pub parameter: String,
    pub current_value: String,
    pub recommended_value: String,
    pub severity: IssueSeverity,
    pub reason: String,
}

/// The content of a [`ConfigIssue`].
pub struct ConfigIssueView {
    pub parameter: Seq<char>,
    pub current_value: Seq<char>,
    pub recommended_value: Seq<char>,
    pub severity: IssueSeverity,
    pub reason: Seq<char>,
}

impl View for ConfigIssue {
    type V = ConfigIssueView;

    open spec fn view(&self) -> ConfigIssueView {
        ConfigIssueView {
            parameter: self.parameter@,
            current_value: self.current_value@,
            recommended_value: self.recommended_value@,
            severity: self.severity,
            reason: self.reason@,
        }
    }
}

impl Clone for ConfigIssue {
    fn clone(&self) -> (r: Self)
        ensures
            r == *self,
    {
        ConfigIssue {
            parameter: self.parameter.clone(),
            current_value: self.current_value.clone(),
            recommended_value: self.recommended_value.clone(),
            severity: self.severity,
            reason: self.reason.clone(),
        }
    }
}

/// A finding about how the server runs.
#[derive(Debug)]
pub struct PerformanceIssue {
    pub issue_type: String,
    pub severity: IssueSeverity,
    pub description: String,
    pub recommendation: String,
    pub details: Option<String>,
}

/// The content of a [`PerformanceIssue`].
pub struct PerformanceIssueView {
    pub issue_type: Seq<char>,
    pub severity: IssueSeverity,
    pub description: Seq<char>,
    pub recommendation: Seq<char>,
    pub details: Option<Seq<char>>,
}

impl View for PerformanceIssue {
    type V = PerformanceIssueView;

    open spec fn view(&self) -> PerformanceIssueView {
        PerformanceIssueView {
            issue_type: self.issue_type@,
            severity: self.severity,
            description: self.description@,
            recommendation: self.recommendation@,
            details: opt_text(self.details),
        }
    }
}

impl Clone for PerformanceIssue {
    fn clone(&self) -> (r: Self)
        ensures
            r == *self,
    {
        PerformanceIssue {
            issue_type: self.issue_type.clone(),
            severity: self.severity,
            description: self.description.clone(),
            recommendation: self.recommendation.clone(),
            details: self.details.clone(),
        }
    }
}

/// The content of an optional performance finding.
pub open spec fn opt_issue(o: Option<PerformanceIssue>) -> Option<PerformanceIssueView> {
    match o {
        Some(issue) => Some(issue@),
        None => None,
    }
}

/// The contents of a list of performance findings, in order.
pub open spec fn performance_issue_views(issues: Seq<PerformanceIssue>) -> Seq<
    PerformanceIssueView,
> {
    issues.map_values(|i: PerformanceIssue| i@)
}

/// The contents of a list of configuration findings, in order.
pub open spec fn config_issue_views(issues: Seq<ConfigIssue>) -> Seq<ConfigIssueView> {
    issues.map_values(|i: ConfigIssue| i@)
}

/// The list that holds `o` if there is one, and nothing otherwise.
pub open spec fn optional<T>(o: Option<T>) -> Seq<T> {
    match o {
        Some(x) => seq![x],
        None => Seq::empty(),
    }
}

/// The quotient of `a` by a positive `b`, rounded toward zero.
pub open spec fn trunc_div(a: int, b: int) -> int
    recommends
        b > 0,
{
    if a >= 0 {
        a / b
    } else {
        -((-a) / b)
    }
}

/// A count of 8 KB blocks as whole megabytes.
pub open spec fn blocks_to_mb(blocks: int) -> int {
    trunc_div(blocks * 8, 1024)
}

/// The shared buffer size advised for a machine with `total_memory_mb` of
/// memory: a quarter of it, but no more than 8192 MB.
pub open spec fn recommended_shared_buffers_mb(total_memory_mb: int) -> int {
    let quarter = trunc_div(total_memory_mb, 4);
    if quarter < 8192 {
        quarter
    } else {
        8192
    }
}

/// The cache size that the planner should assume on a machine with
/// `total_memory_mb` of memory: three quarters of it.
pub open spec fn recommended_cache_mb(total_memory_mb: int) -> int {
    trunc_div(total_memory_mb * 3, 4)
}

/// The number of connections advised for `cpu_cores` cores: fifty for each
/// core, but no more than 200.
pub open spec fn recommended_connections(cpu_cores: int) -> int {
    if cpu_cores * 50 < 200 {
        cpu_cores * 50
    } else {
        200
    }
}

/// The text of a size in megabytes.
pub open spec fn megabytes_text(mb: int) -> Seq<char> {
    decimal_text(mb) + "MB"@
}

/// The finding on `shared_buffers`, given the setting's text and the memory
/// estimate. There is none where the text is no 64-bit integer, and none
/// where the size reaches half of the advised one.
pub open spec fn shared_buffers_issue(current: Seq<char>, total_memory_mb: int) -> Option<
    ConfigIssueView,
> {
    match parse_decimal(current, i64::MIN as int, i64::MAX as int) {
        Some(blocks) => {
            let current_mb = blocks_to_mb(blocks);
            let recommended_mb = recommended_shared_buffers_mb(total_memory_mb);
            if current_mb < trunc_div(recommended_mb, 2) {
                Some(
                    ConfigIssueView {
                        parameter: "shared_buffers"@,
                        current_value: megabytes_text(current_mb),
                        recommended_value: megabytes_text(recommended_mb),
                        severity: IssueSeverity::Warning,
                        reason: "shared_buffers is too low. Recommended: 25% of RAM (max 8GB)"@,
                    },
                )
            } else {
                None
            }
        },
        None => None,
    }
}

/// The finding on `effective_cache_size`, given the setting's text and the
/// memory estimate.
pub open spec fn effective_cache_size_issue(current: Seq<char>, total_memory_mb: int) -> Option<
    ConfigIssueView,
> {
    match parse_decimal(current, i64::MIN as int, i64::MAX as int) {
        Some(blocks) => {
            let current_mb = blocks_to_mb(blocks);
            let recommended_mb = recommended_cache_mb(total_memory_mb);
            if current_mb < trunc_div(recommended_mb, 2) {
                Some(
                    ConfigIssueView {
                        parameter: "effective_cache_size"@,
                        current_value: megabytes_text(current_mb),
                        recommended_value: megabytes_text(recommended_mb),
                        severity: IssueSeverity::Info,
                        reason: "effective_cache_size is low. Recommended: 50-75% of total RAM"@,
                    },
                )
            } else {
                None
            }
        },
        None => None,
    }
}

/// The finding on `work_mem`, given the setting's text in kilobytes.
pub open spec fn work_mem_issue(current: Seq<char>) -> Option<ConfigIssueView> {
    match parse_decimal(current, i64::MIN as int, i64::MAX as int) {
        Some(kilobytes) => {
            let current_mb = trunc_div(kilobytes, 1024);
            if current_mb < 4 {
                Some(
                    ConfigIssueView {
                        parameter: "work_mem"@,
                        current_value: megabytes_text(current_mb),
                        recommended_value: "10-50MB"@,
                        severity: IssueSeverity::Info,
                        reason: "work_mem is very low, may affect sort and hash operations"@,
                    },
                )
            } else {
                None
            }
        },
        None => None,
    }
}

/// The finding on `max_connections`, given the setting's text and the
/// estimated number of cores.
pub open spec fn max_connections_issue(current: Seq<char>, cpu_cores: int) -> Option<
    ConfigIssueView,
> {
    match parse_decimal(current, i32::MIN as int, i32::MAX as int) {
        Some(connections) => {
            let recommended = recommended_connections(cpu_cores);
            if connections > recommended * 2 {
                Some(
                    ConfigIssueView {
                        parameter: "max_connections"@,
                        current_value: decimal_text(connections),
                        recommended_value: decimal_text(recommended),
                        severity: IssueSeverity::Warning,
                        reason: "max_connections is very high, may cause resource exhaustion"@,
                    },
                )
            } else {
                None
            }
        },
        None => None,
    }
}

/// The text of the first setting named `name` at or after position `from`.
pub open spec fn setting_from(settings: Seq<PostgresConfig>, name: Seq<char>, from: int) -> Option<
    Seq<char>,
>
    decreases settings.len() - from,
{
    if from < 0 || from >= settings.len() {
        None
    } else if settings[from].name@ == name {
        Some(settings[from].setting@)
    } else {
        setting_from(settings, name, from + 1)
    }
}

/// The text of the first setting named `name`.
pub open spec fn setting_named(settings: Seq<PostgresConfig>, name: Seq<char>) -> Option<
    Seq<char>,
> {
    setting_from(settings, name, 0)
}

/// All configuration findings for `settings` on a machine estimated as
/// `cpu_cores` cores and `total_memory_mb` of memory. The four rules are
/// applied in a fixed order, each to the first setting of its name; a rule
/// whose setting is absent finds nothing.
pub open spec fn config_findings(
    settings: Seq<PostgresConfig>,
    cpu_cores: int,
    total_memory_mb: int,
) -> Seq<ConfigIssueView> {
    let shared = match setting_named(settings, "shared_buffers"@) {
        Some(text) => optional(shared_buffers_issue(text, total_memory_mb)),
        None => Seq::empty(),
    };
    let cache = match setting_named(settings, "effective_cache_size"@) {
        Some(text) => optional(effective_cache_size_issue(text, total_memory_mb)),
        None => Seq::empty(),
    };
    let work = match setting_named(settings, "work_mem"@) {
        Some(text) => optional(work_mem_issue(text)),
        None => Seq::empty(),
    };
    let connections = match setting_named(settings, "max_connections"@) {
        Some(text) => optional(max_connections_issue(text, cpu_cores)),
        None => Seq::empty(),
    };
    shared + cache + work + connections
}

fn megabytes_string(mb: i64) -> (r: String)
    ensures
        r@ == megabytes_text(mb as int),
{
    let mut out = decimal_string(mb);
    out.append("MB");
    out
}

fn blocks_as_mb(blocks: i64) -> (r: i64)
    ensures
        r == blocks_to_mb(blocks as int),
{
    let wide: i128 = blocks as i128 * 8;
    (wide / 1024) as i64
}

fn find_setting<'a>(settings: &'a Vec<PostgresConfig>, name: &str) -> (r: Option<&'a String>)
    ensures
        opt_ref_text(r) == setting_named(settings@, name@),
{
    let wanted = String::from_str(name);
    let mut i: usize = 0;
    while i < settings.len()
        invariant
            i <= settings.len(),
            wanted@ == name@,
            setting_named(settings@, name@) == setting_from(settings@, name@, i as int),
        decreases settings.len() - i,
    {
        if settings[i].name == wanted {
            return Some(&settings[i].setting);
        }
        i = i + 1;
    }
    None
}

/// The text behind an optional reference to a string.
pub open spec fn opt_ref_text(o: Option<&String>) -> Option<Seq<char>> {
    match o {
        Some(s) => Some(s@),
        None => None,
    }
}

/// Applies the configuration rules.
pub struct ConfigAnalyzer;

impl ConfigAnalyzer {
    /// Applies the four configuration rules to `settings`, in their fixed
    /// order, against the hardware estimate.
    pub fn analyze_configuration(settings: &Vec<PostgresConfig>, hardware: &HardwareInfo) -> (r:
        Vec<ConfigIssue>)
        ensures
            config_issue_views(r@) == config_findings(
                settings@,
                hardware.cpu_cores as int,
                hardware.total_memory_mb as int,
            ),
    {
        let mut issues: Vec<ConfigIssue> = Vec::new();
        let ghost cores = hardware.cpu_cores as int;
        let ghost memory = hardware.total_memory_mb as int;
        let ghost shared = match setting_named(settings@, "shared_buffers"@) {
            Some(text) => optional(shared_buffers_issue(text, memory)),
            None => Seq::empty(),
        };
        let ghost cache = match setting_named(settings@, "effective_cache_size"@) {
            Some(text) => optional(effective_cache_size_issue(text, memory)),
            None => Seq::empty(),
        };
        let ghost work = match setting_named(settings@, "work_mem"@) {
            Some(text) => optional(work_mem_issue(text)),
            None => Seq::empty(),
        };
        let ghost connections = match setting_named(settings@, "max_connections"@) {
            Some(text) => optional(max_connections_issue(text, cores)),
            None => Seq::empty(),
        };
        if let Some(text) = find_setting(settings, "shared_buffers") {
            let mut found = Self::analyze_shared_buffers(text.as_str(), hardware);
            issues.append(&mut found);
        }
        assert(config_issue_views(issues@) =~= shared);
        if let Some(text) = find_setting(settings, "effective_cache_size") {
            let mut found = Self::analyze_effective_cache_size(text.as_str(), hardware);
            issues.append(&mut found);
        }
        assert(config_issue_views(issues@) =~= shared + cache);
        if let Some(text) = find_setting(settings, "work_mem") {
            let mut found = Self::analyze_work_mem(text.as_str(), hardware);
            issues.append(&mut found);
        }
        assert(config_issue_views(issues@) =~= shared + cache + work);
        if let Some(text) = find_setting(settings, "max_connections") {
            let mut found = Self::analyze_max_connections(text.as_str(), hardware);
            issues.append(&mut found);
        }
        assert(config_issue_views(issues@) =~= shared + cache + work + connections);
        issues
    }

    /// The rule for `shared_buffers`: `current` counts 8 KB blocks. A warning
    /// is due where the size is under half of the advised one.
    pub fn analyze_shared_buffers(current: &str, hardware: &HardwareInfo) -> (r: Vec<ConfigIssue>)
        ensures
            config_issue_views(r@) == optional(
                shared_buffers_issue(current@, hardware.total_memory_mb as int),
            ),
    {
        let mut issues: Vec<ConfigIssue> = Vec::new();
        if let Some(blocks) = parse_i64(current) {
            let current_mb = blocks_as_mb(blocks);
            let quarter = hardware.total_memory_mb / 4;
            let recommended_mb: i64 = if quarter < 8192 {
                quarter
            } else {
                8192
            };
            if current_mb < recommended_mb / 2 {
                issues.push(
                    ConfigIssue {
                        parameter: String::from_str("shared_buffers"),
                        current_value: megabytes_string(current_mb),
                        recommended_value: megabytes_string(recommended_mb),
                        severity: IssueSeverity::Warning,
                        reason: String::from_str(
                            "shared_buffers is too low. Recommended: 25% of RAM (max 8GB)",
                        ),
                    },
                );
            }
        }
        assert(config_issue_views(issues@) =~= optional(
            shared_buffers_issue(current@, hardware.total_memory_mb as int),
        ));
        issues
    }

    /// The rule for `effective_cache_size`: `current` counts 8 KB blocks. A
    /// note is due where the size is under half of the advised one.
    pub fn analyze_effective_cache_size(current: &str, hardware: &HardwareInfo) -> (r: Vec<
        ConfigIssue,
    >)
        ensures
            config_issue_views(r@) == optional(
                effective_cache_size_issue(current@, hardware.total_memory_mb as int),
            ),
    {
        let mut issues: Vec<ConfigIssue> = Vec::new();
        if let Some(blocks) = parse_i64(current) {
            let current_mb = blocks_as_mb(blocks);
            let tripled: i128 = hardware.total_memory_mb as i128 * 3;
            let recommended_mb: i64 = (tripled / 4) as i64;
            if current_mb < recommended_mb / 2 {
                issues.push(
                    ConfigIssue {
                        parameter: String::from_str("effective_cache_size"),
                        current_value: megabytes_string(current_mb),
                        recommended_value: megabytes_string(recommended_mb),
                        severity: IssueSeverity::Info,
                        reason: String::from_str(
                            "effective_cache_size is low. Recommended: 50-75% of total RAM",
                        ),
                    },
                );
            }
        }
        assert(config_issue_views(issues@) =~= optional(
            effective_cache_size_issue(current@, hardware.total_memory_mb as int),
        ));
        issues
    }

    /// The rule for `work_mem`: `current` counts kilobytes. A note is due
    /// where it is under 4 MB.
    pub fn analyze_work_mem(current: &str, _hardware: &HardwareInfo) -> (r: Vec<ConfigIssue>)
        ensures
            config_issue_views(r@) == optional(work_mem_issue(current@)),
    {
        let mut issues: Vec<ConfigIssue> = Vec::new();
        if let Some(kilobytes) = parse_i64(current) {
            let current_mb = kilobytes / 1024;
            if current_mb < 4 {
                issues.push(
                    ConfigIssue {
                        parameter: String::from_str("work_mem"),
                        current_value: megabytes_string(current_mb),
                        recommended_value: String::from_str("10-50MB"),
                        severity: IssueSeverity::Info,
                        reason: String::from_str(
                            "work_mem is very low, may affect sort and hash operations",
                        ),
                    },
                );
            }
        }
        assert(config_issue_views(issues@) =~= optional(work_mem_issue(current@)));
        issues
    }

    /// The rule for `max_connections`. A warning is due where the setting is
    /// over twice the advised number.
    pub fn analyze_max_connections(current: &str, hardware: &HardwareInfo) -> (r: Vec<ConfigIssue>)
        ensures
            config_issue_views(r@) == optional(
                max_connections_issue(current@, hardware.cpu_cores as int),
            ),
    {
        let mut issues: Vec<ConfigIssue> = Vec::new();
        if let Some(connections) = parse_i32(current) {
            let scaled: i64 = hardware.cpu_cores as i64 * 50;
            let recommended: i64 = if scaled < 200 {
                scaled
            } else {
                200
            };
            if connections as i64 > recommended * 2 {
                issues.push(
                    ConfigIssue {
                        parameter: String::from_str("max_connections"),
                        current_value: decimal_string(connections as i64),
                        recommended_value: decimal_string(recommended),
                        severity: IssueSeverity::Warning,
                        reason: String::from_str(
                            "max_connections is very high, may cause resource exhaustion",
                        ),
                    },
                );
            }
        }
        assert(config_issue_views(issues@) =~= optional(
            max_connections_issue(current@, hardware.cpu_cores as int),
        ));
        issues
    }
}

} // verus!
