//! The records a node reports to a beacon chain explorer.
use vstd::prelude::*;

verus! {

broadcast use vstd::string::group_string_axioms;

/// The version of the report format.
pub const VERSION: u64 = 1;

/// An API error, as reported.
#[derive(Debug, Clone, PartialEq)]
pub struct ErrorMessage {
    pub code: u16,
    pub message: String,
    pub stacktraces: Vec<String>,
}

#[derive(Debug, Clone, Copy, PartialEq, Eq, Structural)]
pub enum ProcessType {
    Beacon,
    Validator,
    System,
}

/// What heads every report.
#[derive(Debug, Clone, Copy, PartialEq, Eq)]
pub struct Metadata {
    version: u64,
    timestamp: u64,
    process: ProcessType,
}

/// Relies on `std::time::SystemTime::elapsed` from the Unix epoch: the whole
/// seconds since then by the system clock, or `None` when the clock is set
/// before it. Nothing is known of the value.
#[verifier::external_body]
fn unix_time_secs() -> (r: Option<u64>) {
    std::time::UNIX_EPOCH.elapsed().ok().map(|d| d.as_secs())
}

impl Metadata {
    /// Metadata for a report of `process` made now. A clock set before the
    /// Unix epoch gives timestamp zero.
    pub fn new(process: ProcessType) -> (r: Metadata)
        ensures
            r.version() == VERSION,
            r.process() == process,
    {
        let timestamp = match unix_time_secs() {
            Some(t) => t,
            None => 0,
        };
        Metadata::at(process, timestamp)
    }

    /// Metadata for a report of `process` made at `timestamp`.
    pub fn at(process: ProcessType, timestamp: u64) -> (r: Metadata)
        ensures
            r.version() == VERSION,
            r.process() == process,
            r.timestamp() == timestamp,
    {
        Metadata { version: VERSION, timestamp, process }
    }

    pub closed spec fn version(&self) -> u64 {
        self.version
    }

    pub closed spec fn timestamp(&self) -> u64 {
        self.timestamp
    }

    pub closed spec fn process(&self) -> ProcessType {
        self.process
    }

    pub fn get_version(&self) -> (r: u64)
        ensures
            r == self.version(),
    {
        self.version
    }

    pub fn get_timestamp(&self) -> (r: u64)
        ensures
            r == self.timestamp(),
    {
        self.timestamp
    }

    pub fn get_process(&self) -> (r: ProcessType)
        ensures
            r == self.process(),
    {
        self.process
    }
}

/// Metrics common to every process.
#[derive(Debug, Default, Clone, PartialEq)]
pub struct ProcessMetrics {
    pub cpu_process_seconds_total: u64,
    pub memory_process_bytes: u64,
    pub client_name: String,
    pub client_version: String,
    pub client_build: u64,
}

/// Metrics of the host system.
#[derive(Debug, Default, Clone, PartialEq)]
pub struct SystemMetrics {
    pub cpu_cores: u64,
    pub cpu_threads: u64,
    pub cpu_node_system_seconds_total: u64,
    pub cpu_node_user_seconds_total: u64,
    pub cpu_node_iowait_seconds_total: u64,
    pub cpu_node_idle_seconds_total: u64,
    pub memory_node_bytes_total: u64,
    pub memory_node_bytes_free: u64,
    pub memory_node_bytes_cached: u64,
    pub memory_node_bytes_buffers: u64,
    pub disk_node_bytes_total: u64,
    pub disk_node_bytes_free: u64,
    pub disk_node_io_seconds: u64,
    pub disk_node_reads_total: u64,
    pub disk_node_writes_total: u64,
    pub network_node_bytes_total_receive: u64,
    pub network_node_bytes_total_transmit: u64,
    pub misc_node_boot_ts_seconds: u64,
    pub misc_os: String,
}

/// The client's name as reported.
pub fn client_name() -> (r: String)
    ensures
        r@ == "Lighthouse"@,
{
    "Lighthouse".to_string()
}

/// The client's build number as reported.
pub fn client_build() -> (r: u64)
    ensures
        r == 42,
{
    42
}

impl ProcessMetrics {
    /// The metrics of a process with the given CPU time and memory, reported
    /// under this client's name, version and build.
    pub fn new(cpu_process_seconds_total: u64, memory_process_bytes: u64, client_version: String) -> (r: ProcessMetrics)
        ensures
            r.cpu_process_seconds_total == cpu_process_seconds_total,
            r.memory_process_bytes == memory_process_bytes,
            r.client_name@ == "Lighthouse"@,
            r.client_version == client_version,
            r.client_build == 42,
    {
        ProcessMetrics {
            cpu_process_seconds_total,
            memory_process_bytes,
            client_name: client_name(),
            client_version,
            client_build: client_build(),
        }
    }
}

} // verus!
