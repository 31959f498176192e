//! Plain data the host's dispatch layer reports about the system and
//! about updates. The host gathers the raw numbers (core counts, memory
//! sizes, update metadata); the constructors here pin down the little
//! arithmetic involved, such as the byte-to-megabyte conversion.

use vstd::prelude::*;

verus! {

/// Descriptive information about the machine the host runs on.
pub struct SystemInfo {
    pub os: String,
    pub cpu_cores: usize,
    pub total_memory_mb: u64,
    pub gpu_name: Option<String>,
}

/// Whole megabytes contained in a byte count.
pub open spec fn mb_of_bytes(bytes: u64) -> u64 {
    (bytes / 1024 / 1024) as u64
}

/// Convert a byte count to whole megabytes.
pub fn bytes_to_mb(bytes: u64) -> (r: u64)
    ensures
        r == mb_of_bytes(bytes),
{
    bytes / 1024 / 1024
}

impl SystemInfo {
    /// Assemble the system description from the host's raw readings;
    /// memory arrives in bytes and is reported in whole megabytes.
    pub fn new(os: String, cpu_cores: usize, total_memory_bytes: u64, gpu_name: Option<String>) -> (
        info: Self)
        ensures
            info.os@ == os@,
            info.cpu_cores == cpu_cores,
            info.total_memory_mb == mb_of_bytes(total_memory_bytes),
            info.gpu_name == gpu_name,
    {
        SystemInfo { os, cpu_cores, total_memory_mb: bytes_to_mb(total_memory_bytes), gpu_name }
    }
}

/// What an update check found, as reported to the host's dispatch layer.
pub struct UpdateInfo {
    pub available: bool,
    pub version: Option<String>,
    pub body: Option<String>,
}

impl UpdateInfo {
    /// An update is available at `version`, with optional release notes.
    pub fn found(version: String, body: Option<String>) -> (info: Self)
        ensures
            info.available,
            info.version == Some(version),
            info.body == body,
    {
        UpdateInfo { available: true, version: Some(version), body }
    }

    /// The application is up to date.
    pub fn up_to_date() -> (info: Self)
        ensures
            !info.available,
            info.version is None,
            info.body is None,
    {
        UpdateInfo { available: false, version: None, body: None }
    }
}

} // verus!
