//! Derived figures of one measurement window.

use vstd::prelude::*;

verus! {

/// Largest value a derived figure can take; larger quotients saturate here.
pub const FIGURE_MAX: u64 = 0xFFFF_FFFF;

/// Snapshot of the six accumulator registers of the profiling bank, taken
/// while the counters are frozen.
#[derive(Clone, Copy, Debug, PartialEq, Eq, Structural)]
pub struct RawCounters {
    pub total_cycles: u32,
    pub busy_cycles: u32,
    pub read_accesses: u32,
    pub write_accesses: u32,
    pub read_bytes: u32,
    pub write_bytes: u32,
}

/// The summary of one measurement window.
#[derive(Clone, Copy, Debug, PartialEq, Eq, Structural)]
pub struct ProfileResult {
    pub total_cycles: u32,
    pub busy_cycles: u32,
    pub read_accesses: u32,
    pub write_accesses: u32,
    pub read_bytes: u32,
    pub write_bytes: u32,
    pub data_load: u32,
    pub utilization: u32,
    pub access_utilization: u32,
    pub avg_write_burstsize: u32,
    pub avg_read_burstsize: u32,
}

/// A quotient as reported: kept below `FIGURE_MAX`, where it saturates.
pub open spec fn saturate(x: int) -> u32 {
    if x > FIGURE_MAX as int {
        FIGURE_MAX as u32
    } else {
        x as u32
    }
}

/// Bytes moved in both directions.
pub open spec fn bytes_moved(raw: RawCounters) -> int {
    raw.read_bytes as int + raw.write_bytes as int
}

/// Accesses in both directions.
pub open spec fn accesses(raw: RawCounters) -> int {
    raw.read_accesses as int + raw.write_accesses as int
}

/// Percentage of the bus's peak rate (16 bytes per busy cycle) that was used.
/// Zero when nothing moved or no busy cycle was counted.
pub open spec fn utilization_of(raw: RawCounters) -> u32 {
    if bytes_moved(raw) == 0 || raw.busy_cycles == 0 {
        0
    } else {
        saturate(bytes_moved(raw) * 100 / (16 * raw.busy_cycles as int))
    }
}

/// Percentage of all cycles in which the bus was busy.
/// Zero when nothing moved or no cycle was counted.
pub open spec fn data_load_of(raw: RawCounters) -> u32 {
    if bytes_moved(raw) == 0 || raw.total_cycles == 0 {
        0
    } else {
        saturate(raw.busy_cycles as int * 100 / raw.total_cycles as int)
    }
}

/// Bytes per access over both directions.
/// Zero when nothing moved or no access was counted.
pub open spec fn access_utilization_of(raw: RawCounters) -> u32 {
    if bytes_moved(raw) == 0 || accesses(raw) == 0 {
        0
    } else {
        saturate(bytes_moved(raw) / accesses(raw))
    }
}

/// Average burst size of one direction: bytes per access, zero without accesses.
pub open spec fn burst_of(bytes: u32, count: u32) -> u32 {
    if count > 0 {
        (bytes / count) as u32
    } else {
        0
    }
}

/// The summary that a snapshot determines.
pub open spec fn profile_of(raw: RawCounters) -> ProfileResult {
    ProfileResult {
        total_cycles: raw.total_cycles,
        busy_cycles: raw.busy_cycles,
        read_accesses: raw.read_accesses,
        write_accesses: raw.write_accesses,
        read_bytes: raw.read_bytes,
        write_bytes: raw.write_bytes,
        data_load: data_load_of(raw),
        utilization: utilization_of(raw),
        access_utilization: access_utilization_of(raw),
        avg_write_burstsize: burst_of(raw.write_bytes, raw.write_accesses),
        avg_read_burstsize: burst_of(raw.read_bytes, raw.read_accesses),
    }
}

/// The all-zero summary.
pub open spec fn zero_profile() -> ProfileResult {
    ProfileResult {
        total_cycles: 0,
        busy_cycles: 0,
        read_accesses: 0,
        write_accesses: 0,
        read_bytes: 0,
        write_bytes: 0,
        data_load: 0,
        utilization: 0,
        access_utilization: 0,
        avg_write_burstsize: 0,
        avg_read_burstsize: 0,
    }
}

/// `num / den`, saturated at `FIGURE_MAX`.
fn saturating_quotient(num: u64, den: u64) -> (r: u32)
    requires
        den > 0,
    ensures
        r == saturate(num as int / den as int),
{
    let q = num / den;
    if q > FIGURE_MAX {
        FIGURE_MAX as u32
    } else {
        q as u32
    }
}

impl Default for ProfileResult {
    fn default() -> (r: ProfileResult)
        ensures
            r == zero_profile(),
    {
        ProfileResult {
            total_cycles: 0,
            busy_cycles: 0,
            read_accesses: 0,
            write_accesses: 0,
            read_bytes: 0,
            write_bytes: 0,
            data_load: 0,
            utilization: 0,
            access_utilization: 0,
            avg_write_burstsize: 0,
            avg_read_burstsize: 0,
        }
    }
}

impl ProfileResult {
    /// Derives the summary of a frozen snapshot. Every quotient whose
    /// denominator is zero is left at zero; the three load figures stay zero
    /// when no byte moved.
    pub fn from_counters(raw: &RawCounters) -> (r: ProfileResult)
        ensures
            r == profile_of(*raw),
    {
        let mut result = ProfileResult::default();
        result.total_cycles = raw.total_cycles;
        result.busy_cycles = raw.busy_cycles;
        result.read_accesses = raw.read_accesses;
        result.write_accesses = raw.write_accesses;
        result.read_bytes = raw.read_bytes;
        result.write_bytes = raw.write_bytes;

        if raw.read_bytes != 0 || raw.write_bytes != 0 {
            let moved: u64 = raw.read_bytes as u64 + raw.write_bytes as u64;
            if raw.busy_cycles != 0 {
                result.utilization = saturating_quotient(moved * 100, 16 * raw.busy_cycles as u64);
            }
            if raw.total_cycles != 0 {
                result.data_load = saturating_quotient(
                    raw.busy_cycles as u64 * 100,
                    raw.total_cycles as u64,
                );
            }
            let count: u64 = raw.read_accesses as u64 + raw.write_accesses as u64;
            if count != 0 {
                result.access_utilization = saturating_quotient(moved, count);
            }
        }

        if raw.write_accesses > 0 {
            result.avg_write_burstsize = raw.write_bytes / raw.write_accesses;
        }
        if raw.read_accesses > 0 {
            result.avg_read_burstsize = raw.read_bytes / raw.read_accesses;
        }
        result
    }
}

/// Throughput of one measurement window, in hundredths of MB/s (1 MB being
/// 1024 * 1024 bytes), rounded to the nearest hundredth, halves upward.
#[derive(Clone, Copy, Debug, PartialEq, Eq, Structural)]
pub struct Throughput {
    pub read_centi_mbps: u64,
    pub write_centi_mbps: u64,
    pub total_centi_mbps: u64,
}

/// Bytes in one MB.
pub const BYTES_PER_MB: u64 = 1_048_576;

/// `bytes * 1000 / (BYTES_PER_MB * elapsed_ms)` MB/s, in hundredths,
/// rounded half up.
pub open spec fn centi_rate(bytes: int, elapsed_ms: int) -> int {
    (200_000 * bytes + BYTES_PER_MB as int * elapsed_ms) / (2 * BYTES_PER_MB as int * elapsed_ms)
}

/// The throughput of a window of `elapsed_ms` milliseconds.
pub open spec fn throughput_of(p: ProfileResult, elapsed_ms: u32) -> Throughput {
    Throughput {
        read_centi_mbps: centi_rate(p.read_bytes as int, elapsed_ms as int) as u64,
        write_centi_mbps: centi_rate(p.write_bytes as int, elapsed_ms as int) as u64,
        total_centi_mbps: centi_rate(
            p.read_bytes as int + p.write_bytes as int,
            elapsed_ms as int,
        ) as u64,
    }
}

/// Rate of `bytes` over `elapsed_ms` milliseconds in hundredths of MB/s.
pub fn centi_rate_of(bytes: u64, elapsed_ms: u32) -> (r: u64)
    requires
        elapsed_ms > 0,
        bytes <= 2 * FIGURE_MAX,
    ensures
        r == centi_rate(bytes as int, elapsed_ms as int),
{
    let span: u64 = BYTES_PER_MB * elapsed_ms as u64;
    assert(span <= 0x10_0000_0000_0000 && span as int == BYTES_PER_MB as int * elapsed_ms as int)
        by (nonlinear_arith)
        requires
            span == BYTES_PER_MB * elapsed_ms as u64,
            elapsed_ms <= 0xFFFF_FFFF,
    ;
    let num: u64 = 200_000 * bytes + span;
    let r = num / (2 * span);
    assert(2 * span as int == 2 * BYTES_PER_MB as int * elapsed_ms as int) by (nonlinear_arith)
        requires
            span as int == BYTES_PER_MB as int * elapsed_ms as int,
    ;
    r
}

impl ProfileResult {
    /// Read, write and total throughput of the window that this summary
    /// describes, given its length in milliseconds; `None` for an empty window.
    pub fn throughput(&self, elapsed_ms: u32) -> (r: Option<Throughput>)
        ensures
            elapsed_ms == 0 <==> r is None,
            elapsed_ms > 0 ==> r == Some(throughput_of(*self, elapsed_ms)),
    {
        if elapsed_ms == 0 {
            return None;
        }
        let read = centi_rate_of(self.read_bytes as u64, elapsed_ms);
        let write = centi_rate_of(self.write_bytes as u64, elapsed_ms);
        let total = centi_rate_of(self.read_bytes as u64 + self.write_bytes as u64, elapsed_ms);
        Some(Throughput { read_centi_mbps: read, write_centi_mbps: write, total_centi_mbps: total })
    }
}

/// When no byte was counted in either direction, the three load figures are
/// zero, whatever the other counters hold.
pub proof fn lemma_no_traffic_no_load(raw: RawCounters)
    requires
        raw.read_bytes == 0,
        raw.write_bytes == 0,
    ensures
        profile_of(raw).utilization == 0,
        profile_of(raw).data_load == 0,
        profile_of(raw).access_utilization == 0,
{
}

/// Without accesses in a direction, that direction's average burst size is zero.
pub proof fn lemma_no_accesses_no_burst(raw: RawCounters)
    ensures
        raw.write_accesses == 0 ==> profile_of(raw).avg_write_burstsize == 0,
        raw.read_accesses == 0 ==> profile_of(raw).avg_read_burstsize == 0,
{
}

/// With accesses in a direction, that direction's average burst size is the
/// byte count divided by the access count, truncated.
pub proof fn lemma_burst_is_truncated_quotient(raw: RawCounters)
    ensures
        raw.write_accesses > 0 ==> profile_of(raw).avg_write_burstsize as int
            == raw.write_bytes as int / raw.write_accesses as int,
        raw.read_accesses > 0 ==> profile_of(raw).avg_read_burstsize as int
            == raw.read_bytes as int / raw.read_accesses as int,
{
}

/// Deriving a summary twice from one snapshot gives the same summary.
pub proof fn lemma_derivation_deterministic(a: RawCounters, b: RawCounters)
    requires
        a == b,
    ensures
        profile_of(a) == profile_of(b),
{
}

} // verus!
