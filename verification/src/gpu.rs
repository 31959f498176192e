//! The GPU performance-counter sampler.
//!
//! The host owns one long-lived query handle into the platform's
//! performance-counter subsystem, registered for per-engine GPU utilization.
//! This module models that handle's lifecycle — primary counter path,
//! one alternative path on rejection, or a recorded unavailability reason —
//! and verifies the sampling protocol around it: the status classification
//! of each collection, the size-probe step of the variable-length result
//! buffer (where "buffer too small" is normal control flow, not an error),
//! and the aggregation policy over the per-engine results.
//!
//! Utilization is carried in hundredths of a percent (`0 ..= 10_000`), so
//! the aggregation — the maximum over all engines, clamped to 100% even
//! when counter noise pushes a raw value past it — is exact integer
//! arithmetic. The host converts the platform's floating-point counter
//! values into these units before handing them in.

use crate::vec_util::copy_bytes;
use vstd::prelude::*;

verus! {

/// Status code of the platform's counter subsystem that asks for a larger
/// result buffer; a normal step of the size negotiation.
pub const PDH_MORE_DATA: u32 = 0x800007D2;

/// 100%, in hundredths of a percent.
pub const MAX_USAGE_CENTI_PERCENT: u32 = 10000;

/// Milliseconds a cached sample stays fresh.
pub const GPU_CACHE_TTL_MS: u64 = 2000;

/// Why GPU monitoring is unavailable, with the status code the platform
/// reported.
#[derive(Debug, Clone, Copy, PartialEq, Eq, Structural)]
pub enum GpuError {
    /// Opening the counter query itself failed.
    QueryOpenFailed(u32),
    /// Neither the primary nor the alternative counter path could be
    /// registered (the status is the primary path's).
    CountersUnavailable(u32),
}

/// Which counter path the query ended up registered with.
#[derive(Debug, Clone, Copy, PartialEq, Eq, Structural)]
pub enum CounterSource {
    /// The per-engine utilization-percentage counter.
    Primary,
    /// The running-time counter, tried when the primary path is rejected.
    Alternate,
}

/// Outcome of the host's attempt to open the query and register a counter
/// path, in the order the attempts are made: open the query; on success
/// register the primary path; only if that is rejected, the alternative.
#[derive(Debug, Clone, Copy, PartialEq, Eq, Structural)]
pub enum CounterInit {
    /// Opening the query failed with this status.
    OpenFailed(u32),
    /// The primary counter path was registered.
    PrimaryAdded,
    /// The primary path was rejected with this status, but the
    /// alternative path was registered.
    AlternateAdded(u32),
    /// Both paths were rejected: primary status, then alternative status.
    Unavailable { primary_status: u32, alternate_status: u32 },
}

/// GPU usage statistics handed to the host's dispatch layer.
pub struct GpuStats {
    /// GPU utilization in hundredths of a percent, `0 ..= 10_000`.
    pub usage_centi_percent: u32,
    /// Adapter name, when a dedicated adapter was found.
    pub name: Option<Vec<u8>>,
    /// Dedicated video memory in MB.
    pub vram_total_mb: u64,
    /// Whether GPU monitoring is available.
    pub available: bool,
    /// Why monitoring is unavailable, if it is.
    pub error: Option<GpuError>,
}

impl Default for GpuStats {
    fn default() -> (d: Self)
        ensures
            d.usage_centi_percent == 0,
            d.name is None,
            d.vram_total_mb == 0,
            !d.available,
            d.error is None,
    {
        GpuStats {
            usage_centi_percent: 0,
            name: None,
            vram_total_mb: 0,
            available: false,
            error: None,
        }
    }
}

/// The view of an optional byte buffer.
pub open spec fn opt_bytes_view(o: Option<Vec<u8>>) -> Option<Seq<u8>> {
    match o {
        Some(v) => Some(v@),
        None => None,
    }
}

/// The largest sample, taken over the whole sequence; zero when there are
/// no samples.
pub open spec fn seq_max(s: Seq<u32>) -> u32
    decreases s.len(),
{
    if s.len() == 0 {
        0
    } else {
        let rest = seq_max(s.drop_last());
        if s.last() > rest {
            s.last()
        } else {
            rest
        }
    }
}

/// The aggregation policy over per-engine utilization samples: a
/// multi-engine GPU is as busy as its busiest engine, and never busier
/// than 100%.
pub open spec fn clamped_max(s: Seq<u32>) -> u32 {
    if seq_max(s) > MAX_USAGE_CENTI_PERCENT {
        MAX_USAGE_CENTI_PERCENT
    } else {
        seq_max(s)
    }
}

/// The maximum utilization across all engine samples, clamped to 100%.
pub fn aggregate_usage(samples: &Vec<u32>) -> (r: u32)
    ensures
        r == clamped_max(samples@),
        r <= MAX_USAGE_CENTI_PERCENT,
{
    let ghost s = samples@;
    let mut best: u32 = 0;
    let mut i: usize = 0;
    while i < samples.len()
        invariant
            s == samples@,
            0 <= i <= s.len(),
            best == seq_max(s.subrange(0, i as int)),
        decreases s.len() - i,
    {
        let v = samples[i];
        proof {
            assert(s.subrange(0, i + 1 as int).drop_last() =~= s.subrange(0, i as int));
            assert(s.subrange(0, i + 1 as int).last() == s[i as int]);
        }
        if v > best {
            best = v;
        }
        i = i + 1;
    }
    proof {
        assert(s.subrange(0, s.len() as int) =~= s);
    }
    if best > MAX_USAGE_CENTI_PERCENT {
        MAX_USAGE_CENTI_PERCENT
    } else {
        best
    }
}

/// Did a collection of fresh counter data succeed?
pub fn collect_succeeded(status: u32) -> (r: bool)
    ensures
        r == (status == 0),
{
    status == 0
}

/// What the size probe of the result buffer decided.
#[derive(Debug, Clone, Copy, PartialEq, Eq, Structural)]
pub enum SizeProbe {
    /// The probe failed outright; the sample is abandoned.
    Failed,
    /// There is nothing to read; the sample is zero.
    Empty,
    /// Read again with a buffer of `buffer_size` bytes for `item_count`
    /// entries.
    Sized { buffer_size: u32, item_count: u32 },
}

/// Classify the first, sizing call of the two-call read protocol: the
/// "more data" status is the normal request for a larger buffer, a zero
/// status with no items means an empty result, and anything else is a
/// failure.
pub fn size_probe_decision(status: u32, buffer_size: u32, item_count: u32) -> (r: SizeProbe)
    ensures
        r == (if status != 0 && status != PDH_MORE_DATA {
            SizeProbe::Failed
        } else if buffer_size == 0 || item_count == 0 {
            SizeProbe::Empty
        } else {
            SizeProbe::Sized { buffer_size, item_count }
        }),
{
    if status != 0 && status != PDH_MORE_DATA {
        SizeProbe::Failed
    } else if buffer_size == 0 || item_count == 0 {
        SizeProbe::Empty
    } else {
        SizeProbe::Sized { buffer_size, item_count }
    }
}

/// Model of the long-lived GPU counter query: which counter path it holds,
/// whether its baseline has been primed, the adapter description, and the
/// recorded unavailability reason when initialization failed.
pub struct GpuMonitor {
    counter: Option<CounterSource>,
    primed: bool,
    gpu_name: Option<Vec<u8>>,
    vram_mb: u64,
    initialized: bool,
    last_error: Option<GpuError>,
}

impl GpuMonitor {
    /// Is the monitor initialized (query open, one counter registered)?
    pub closed spec fn is_init(&self) -> bool {
        self.initialized
    }

    /// The counter path the query holds.
    pub closed spec fn counter_source(&self) -> Option<CounterSource> {
        self.counter
    }

    /// Has the first collection primed the baseline deltas?
    pub closed spec fn is_primed(&self) -> bool {
        self.primed
    }

    /// The adapter name, as reported by the host's enumeration.
    pub closed spec fn name_view(&self) -> Option<Seq<u8>> {
        opt_bytes_view(self.gpu_name)
    }

    /// Dedicated video memory in MB.
    pub closed spec fn vram_total_mb(&self) -> u64 {
        self.vram_mb
    }

    /// The recorded unavailability reason.
    pub closed spec fn error_view(&self) -> Option<GpuError> {
        self.last_error
    }

    /// A counter is held exactly when initialization succeeded, and the
    /// baseline is primed before any sample is taken.
    pub open spec fn well_formed(&self) -> bool {
        &&& self.is_init() <==> self.counter_source() is Some
        &&& self.is_init() ==> self.is_primed()
        &&& self.is_init() ==> self.error_view() is None
    }

    /// A fresh monitor: nothing registered, nothing primed, no adapter
    /// information, no error.
    pub fn new() -> (m: Self)
        ensures
            m.well_formed(),
            !m.is_init(),
            m.counter_source() is None,
            !m.is_primed(),
            m.name_view() is None,
            m.vram_total_mb() == 0,
            m.error_view() is None,
    {
        GpuMonitor {
            counter: None,
            primed: false,
            gpu_name: None,
            vram_mb: 0,
            initialized: false,
            last_error: None,
        }
    }

    /// Record what the host's adapter enumeration found.
    pub fn set_adapter_info(&mut self, name: Option<Vec<u8>>, vram_mb: u64)
        ensures
            final(self).name_view() == opt_bytes_view(name),
            final(self).vram_total_mb() == vram_mb,
            final(self).is_init() == old(self).is_init(),
            final(self).counter_source() == old(self).counter_source(),
            final(self).is_primed() == old(self).is_primed(),
            final(self).error_view() == old(self).error_view(),
            old(self).well_formed() ==> final(self).well_formed(),
    {
        self.gpu_name = name;
        self.vram_mb = vram_mb;
    }

    /// Apply the outcome of the one-time query setup: a registered path
    /// initializes the monitor and primes its baseline with the first
    /// collection; a failure records why monitoring is unavailable.
    /// The setup runs at most once per monitor.
    pub fn complete_initialization(&mut self, outcome: CounterInit)
        requires
            !old(self).is_init(),
        ensures
            final(self).is_init() == (outcome matches CounterInit::PrimaryAdded || outcome
                matches CounterInit::AlternateAdded(_)),
            final(self).counter_source() == (match outcome {
                CounterInit::PrimaryAdded => Some(CounterSource::Primary),
                CounterInit::AlternateAdded(_) => Some(CounterSource::Alternate),
                _ => None::<CounterSource>,
            }),
            final(self).error_view() == (match outcome {
                CounterInit::OpenFailed(status) => Some(GpuError::QueryOpenFailed(status)),
                CounterInit::Unavailable { primary_status, alternate_status: _ } => Some(
                    GpuError::CountersUnavailable(primary_status),
                ),
                _ => None::<GpuError>,
            }),
            final(self).is_primed() == (final(self).is_init() || old(self).is_primed()),
            final(self).name_view() == old(self).name_view(),
            final(self).vram_total_mb() == old(self).vram_total_mb(),
            final(self).well_formed(),
    {
        match outcome {
            CounterInit::OpenFailed(status) => {
                self.counter = None;
                self.initialized = false;
                self.last_error = Some(GpuError::QueryOpenFailed(status));
            },
            CounterInit::PrimaryAdded => {
                self.counter = Some(CounterSource::Primary);
                self.initialized = true;
                self.primed = true;
                self.last_error = None;
            },
            CounterInit::AlternateAdded(_) => {
                self.counter = Some(CounterSource::Alternate);
                self.initialized = true;
                self.primed = true;
                self.last_error = None;
            },
            CounterInit::Unavailable { primary_status, alternate_status: _ } => {
                self.counter = None;
                self.initialized = false;
                self.last_error = Some(GpuError::CountersUnavailable(primary_status));
            },
        }
    }

    /// Check if GPU monitoring is available.
    pub fn is_available(&self) -> (r: bool)
        ensures
            r == self.is_init(),
    {
        self.initialized
    }

    /// Current GPU usage from one collection's per-engine samples: the
    /// clamped maximum when the monitor is initialized, zero (a neutral
    /// reading, not an error) when it is not.
    pub fn get_usage(&self, samples: &Vec<u32>) -> (r: u32)
        ensures
            r == (if self.is_init() {
                clamped_max(samples@)
            } else {
                0u32
            }),
            r <= MAX_USAGE_CENTI_PERCENT,
    {
        if !self.initialized {
            return 0;
        }
        aggregate_usage(samples)
    }

    /// Full GPU stats for one collection's per-engine samples.
    pub fn get_stats(&self, samples: &Vec<u32>) -> (stats: GpuStats)
        ensures
            stats.usage_centi_percent == (if self.is_init() {
                clamped_max(samples@)
            } else {
                0u32
            }),
            opt_bytes_view(stats.name) == self.name_view(),
            stats.vram_total_mb == self.vram_total_mb(),
            stats.available == self.is_init(),
            stats.error == self.error_view(),
    {
        let name: Option<Vec<u8>> = match &self.gpu_name {
            Some(n) => Some(copy_bytes(n)),
            None => None,
        };
        GpuStats {
            usage_centi_percent: self.get_usage(samples),
            name,
            vram_total_mb: self.vram_mb,
            available: self.initialized,
            error: self.last_error,
        }
    }
}

/// A short-lived cache in front of the sampler, so a UI polling at high
/// frequency does not oversample the counter subsystem.
pub struct GpuSampleCache {
    value: u32,
    sampled_at_ms: u64,
    has_value: bool,
}

impl GpuSampleCache {
    /// The cached sample, if any: its value and when it was taken.
    pub closed spec fn cached(&self) -> Option<(u32, u64)> {
        if self.has_value {
            Some((self.value, self.sampled_at_ms))
        } else {
            None
        }
    }

    /// Is the cached sample still fresh at `now_ms`? A value returned to a
    /// caller is never older than the TTL.
    pub open spec fn fresh_at(&self, now_ms: u64) -> bool {
        match self.cached() {
            Some((_, at)) => at <= now_ms && now_ms - at <= GPU_CACHE_TTL_MS,
            None => false,
        }
    }

    /// An empty cache.
    pub fn new() -> (c: Self)
        ensures
            c.cached() is None,
    {
        GpuSampleCache { value: 0, sampled_at_ms: 0, has_value: false }
    }

    /// The cached value, if it is still fresh at `now_ms`; `None` asks the
    /// caller to take a real sample.
    pub fn lookup(&self, now_ms: u64) -> (r: Option<u32>)
        ensures
            r == (if self.fresh_at(now_ms) {
                Some(self.cached().unwrap().0)
            } else {
                None::<u32>
            }),
    {
        if self.has_value && self.sampled_at_ms <= now_ms && now_ms - self.sampled_at_ms
            <= GPU_CACHE_TTL_MS {
            Some(self.value)
        } else {
            None
        }
    }

    /// Remember a fresh sample taken at `now_ms`.
    pub fn store(&mut self, value: u32, now_ms: u64)
        ensures
            final(self).cached() == Some((value, now_ms)),
    {
        self.value = value;
        self.sampled_at_ms = now_ms;
        self.has_value = true;
    }
}

} // verus!
