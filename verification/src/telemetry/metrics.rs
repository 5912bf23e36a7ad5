//! Metrics: instruments of user code, the catalog, and totals of the machine.

use vstd::prelude::*;

use crate::telemetry::config::{ProcessMetricToggles, SystemGlobalToggles};
use crate::text::{quote, quoted};

verus! {

/// Milliseconds after which the numbers of a process are read again.
pub const STALENESS_THRESHOLD_MS: u64 = 1000;

/// Whether numbers read so long ago are to be read again.
pub fn is_stale(elapsed_ms: u64) -> (out: bool)
    ensures
        out == (elapsed_ms >= STALENESS_THRESHOLD_MS),
{
    !(elapsed_ms < STALENESS_THRESHOLD_MS)
}

/// A setting of an instrument; an empty text is no setting.
pub fn instrument_setting(text: String) -> (out: Option<String>)
    ensures
        match out {
            Some(t) => t == text && text@.len() > 0,
            None => text@.len() == 0,
        },
{
    if text.as_str().is_empty() {
        None
    } else {
        Some(text)
    }
}

/// A metric of the framework as Python sees it.
#[derive(Debug)]
pub struct PyMetricDefinition {
    /// Name.
    pub name: &'static str,
    /// Description.
    pub description: &'static str,
    /// Unit.
    pub unit: &'static str,
    /// Group.
    pub group: &'static str,
    /// Where it is collected.
    pub scope: &'static str,
}

impl PyMetricDefinition {
    /// The text that stands for the definition in Python.
    pub fn repr(&self) -> (out: String)
        ensures
            out@ == "MetricDefinition(name="@ + quoted(self.name@) + ", group="@ + quoted(
                self.group@,
            ) + ", scope="@ + quoted(self.scope@) + ")"@,
    {
        let mut s = String::from_str("MetricDefinition(name=");
        s.append(&quote(self.name));
        s.append(", group=");
        s.append(&quote(self.group));
        s.append(", scope=");
        s.append(&quote(self.scope));
        s.append(")");
        s
    }
}

/// The sums over pairs of counters.
pub open spec fn totals(pairs: Seq<(u64, u64)>) -> (int, int)
    decreases pairs.len(),
{
    if pairs.len() == 0 {
        (0, 0)
    } else {
        let before = totals(pairs.drop_last());
        (before.0 + pairs.last().0, before.1 + pairs.last().1)
    }
}

/// Sums only grow.
proof fn totals_grow(pairs: Seq<(u64, u64)>, n: int)
    requires
        0 <= n <= pairs.len(),
    ensures
        totals(pairs.take(n)).0 <= totals(pairs).0,
        totals(pairs.take(n)).1 <= totals(pairs).1,
    decreases pairs.len() - n,
{
    if n < pairs.len() {
        assert(pairs.take(n + 1).drop_last() =~= pairs.take(n));
        totals_grow(pairs, n + 1);
    } else {
        assert(pairs.take(n) =~= pairs);
    }
}

/// Adds up the traffic of all disks or network interfaces: first the bytes read or received,
/// then the bytes written or sent.
pub fn io_totals(pairs: &[(u64, u64)]) -> (out: (u64, u64))
    requires
        totals(pairs@).0 <= u64::MAX,
        totals(pairs@).1 <= u64::MAX,
    ensures
        out.0 == totals(pairs@).0,
        out.1 == totals(pairs@).1,
{
    let mut first: u64 = 0;
    let mut second: u64 = 0;
    for i in 0..pairs.len()
        invariant
            totals(pairs@).0 <= u64::MAX,
            totals(pairs@).1 <= u64::MAX,
            first == totals(pairs@.take(i as int)).0,
            second == totals(pairs@.take(i as int)).1,
    {
        proof {
            assert(pairs@.take(i + 1).drop_last() =~= pairs@.take(i as int));
            totals_grow(pairs@, i + 1);
        }
        first = first + pairs[i].0;
        second = second + pairs[i].1;
    }
    assert(pairs@.take(pairs@.len() as int) =~= pairs@);
    (first, second)
}

/// A gauge of the framework.
#[derive(Clone, Copy, PartialEq, Eq, Structural, Debug)]
pub enum FrameworkGauge {
    /// Processor use of the machine.
    SystemCpu,
    /// Memory use of the machine.
    SystemMemory,
    /// Swap use of the machine.
    SystemSwap,
    /// Disk traffic.
    DiskIo,
    /// Network traffic.
    NetworkIo,
    /// Processor use of the process.
    ProcessCpu,
    /// Memory use of the process.
    ProcessMemory,
    /// Threads of the process.
    ProcessThreads,
}

/// The gauge, if it is wanted.
pub open spec fn gauge_if(wanted: bool, gauge: FrameworkGauge) -> Seq<FrameworkGauge> {
    if wanted {
        seq![gauge]
    } else {
        Seq::empty()
    }
}

/// The gauges of the machine that are wanted.
pub fn system_gauges(toggles: &SystemGlobalToggles) -> (out: Vec<FrameworkGauge>)
    ensures
        out@ == gauge_if(toggles.system_cpu, FrameworkGauge::SystemCpu) + gauge_if(
            toggles.system_memory,
            FrameworkGauge::SystemMemory,
        ) + gauge_if(toggles.system_paging, FrameworkGauge::SystemSwap) + gauge_if(
            toggles.system_disk_io,
            FrameworkGauge::DiskIo,
        ) + gauge_if(toggles.system_network_io, FrameworkGauge::NetworkIo),
{
    let mut out: Vec<FrameworkGauge> = Vec::new();
    if toggles.system_cpu {
        out.push(FrameworkGauge::SystemCpu);
    }
    if toggles.system_memory {
        out.push(FrameworkGauge::SystemMemory);
    }
    if toggles.system_paging {
        out.push(FrameworkGauge::SystemSwap);
    }
    if toggles.system_disk_io {
        out.push(FrameworkGauge::DiskIo);
    }
    if toggles.system_network_io {
        out.push(FrameworkGauge::NetworkIo);
    }
    out
}

/// The gauges of the process that are wanted.
pub fn register_process_metrics(toggles: &ProcessMetricToggles) -> (out: Vec<FrameworkGauge>)
    ensures
        out@ == gauge_if(toggles.process_cpu, FrameworkGauge::ProcessCpu) + gauge_if(
            toggles.process_memory,
            FrameworkGauge::ProcessMemory,
        ) + gauge_if(toggles.process_threads, FrameworkGauge::ProcessThreads),
{
    let mut out: Vec<FrameworkGauge> = Vec::new();
    if toggles.process_cpu {
        out.push(FrameworkGauge::ProcessCpu);
    }
    if toggles.process_memory {
        out.push(FrameworkGauge::ProcessMemory);
    }
    if toggles.process_threads {
        out.push(FrameworkGauge::ProcessThreads);
    }
    out
}

/// Totals add up what is read and what is written, each by itself.
pub proof fn totals_add_up(pairs: Seq<(u64, u64)>, read: u64, written: u64)
    ensures
        totals(Seq::empty()) == (0int, 0int),
        totals(pairs.push((read, written))).0 == totals(pairs).0 + read,
        totals(pairs.push((read, written))).1 == totals(pairs).1 + written,
{
    assert(pairs.push((read, written)).drop_last() =~= pairs);
}

/// A gauge is there exactly if it is wanted.
pub proof fn gauges_are_there_if_wanted(wanted: bool, gauge: FrameworkGauge, other: FrameworkGauge)
    ensures
        gauge_if(wanted, gauge).contains(other) <==> wanted && other == gauge,
        gauge_if(wanted, gauge).len() <= 1,
        STALENESS_THRESHOLD_MS == 1000,
{
    if wanted {
        assert(gauge_if(wanted, gauge)[0] == gauge);
    }
}

} // verus!
