//! Server settings and the hardware estimate derived from catalog reads.

use vstd::prelude::*;

verus! {

/// The text of an optional string.
pub open spec fn opt_text(o: Option<String>) -> Option<Seq<char>> {
    match o {
        Some(s) => Some(s@),
        None => None,
    }
}

/// One row of the server's settings catalog.
#[derive(Debug)]
pub struct PostgresConfig {
    pub name: String,
    pub setting: String,
    pub unit: Option<String>,
    pub category: String,
    pub short_desc: Option<String>,
    pub source: String,
    pub min_val: Option<String>,
    pub max_val: Option<String>,
}

/// The content of a [`PostgresConfig`].
pub struct PostgresConfigView {
    pub name: Seq<char>,
    pub setting: Seq<char>,
    pub unit: Option<Seq<char>>,
    pub category: Seq<char>,
    pub short_desc: Option<Seq<char>>,
    pub source: Seq<char>,
    pub min_val: Option<Seq<char>>,
    pub max_val: Option<Seq<char>>,
}

impl View for PostgresConfig {
    type V = PostgresConfigView;

    open spec fn view(&self) -> PostgresConfigView {
        PostgresConfigView {
            name: self.name@,
            setting: self.setting@,
            unit: opt_text(self.unit),
            category: self.category@,
            short_desc: opt_text(self.short_desc),
            source: self.source@,
            min_val: opt_text(self.min_val),
            max_val: opt_text(self.max_val),
        }
    }
}

impl Clone for PostgresConfig {
    fn clone(&self) -> (r: Self)
        ensures
            r == *self,
    {
        PostgresConfig {
            name: self.name.clone(),
            setting: self.setting.clone(),
            unit: self.unit.clone(),
            category: self.category.clone(),
            short_desc: self.short_desc.clone(),
            source: self.source.clone(),
            min_val: self.min_val.clone(),
            max_val: self.max_val.clone(),
        }
    }
}

/// An estimate of the machine behind a server. The figures are rough guesses
/// drawn from the catalog, not measurements of the hardware.
#[derive(Debug)]
pub struct HardwareInfo {
    pub cpu_cores: i32,
    pub total_memory_mb: i64,
    pub postgres_version: String,
    pub os_type: String,
}

/// The content of a [`HardwareInfo`].
pub struct HardwareInfoView {
    pub cpu_cores: int,
    pub total_memory_mb: int,
    pub postgres_version: Seq<char>,
    pub os_type: Seq<char>,
}

impl View for HardwareInfo {
    type V = HardwareInfoView;

    open spec fn view(&self) -> HardwareInfoView {
        HardwareInfoView {
            cpu_cores: self.cpu_cores as int,
            total_memory_mb: self.total_memory_mb as int,
            postgres_version: self.postgres_version@,
            os_type: self.os_type@,
        }
    }
}

impl Clone for HardwareInfo {
    fn clone(&self) -> (r: Self)
        ensures
            r == *self,
    {
        HardwareInfo {
            cpu_cores: self.cpu_cores,
            total_memory_mb: self.total_memory_mb,
            postgres_version: self.postgres_version.clone(),
            os_type: self.os_type.clone(),
        }
    }
}

/// Memory assumed when the shared buffer setting cannot be read, in MB.
pub const DEFAULT_MEMORY_MB: i64 = 8192;

/// The number of cores guessed from `active_backends`, the count of backends
/// that report a state: that count, but at least one.
pub open spec fn estimated_cores(active_backends: int) -> int {
    if active_backends < 1 {
        1
    } else {
        active_backends
    }
}

/// The memory guessed from the shared buffer setting in MB: four times that
/// setting, or the default where the setting is not known.
pub open spec fn estimated_memory_mb(shared_buffers_mb: Option<i64>) -> int {
    match shared_buffers_mb {
        Some(mb) => 4 * mb,
        None => DEFAULT_MEMORY_MB as int,
    }
}

/// Reads settings and derives the hardware estimate.
pub struct ConfigCollector;

impl ConfigCollector {
    /// Builds the hardware estimate from three catalog reads: the version
    /// text, the count of backends with a state, and the shared buffer
    /// setting in MB where that read succeeded.
    pub fn get_hardware_info(
        postgres_version: String,
        active_backends: i64,
        shared_buffers_mb: Option<i64>,
    ) -> (r: HardwareInfo)
        requires
            i64::MIN <= estimated_memory_mb(shared_buffers_mb) <= i64::MAX,
        ensures
            r.cpu_cores == estimated_cores(active_backends as int) as i32,
            r.total_memory_mb == estimated_memory_mb(shared_buffers_mb),
            r.postgres_version@ == postgres_version@,
            r.os_type@ == "Linux"@,
    {
        let cores: i64 = if active_backends < 1 {
            1
        } else {
            active_backends
        };
        let total_memory_mb: i64 = match shared_buffers_mb {
            Some(mb) => mb * 4,
            None => DEFAULT_MEMORY_MB,
        };
        HardwareInfo {
            cpu_cores: #[verifier::truncate]
            (cores as i32),
            total_memory_mb,
            postgres_version,
            os_type: String::from_str("Linux"),
        }
    }
}

} // verus!
