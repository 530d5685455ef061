//! The metrics sampler: the application state that owns the operating
//! system's metrics snapshot and turns it into readings and frames. The
//! snapshot comes from the `sysinfo` crate and is reached only through the
//! trusted calls below; every reading is carried as plain integers from
//! there on.

use crate::control::Frame;
use crate::control::build_frame;
use crate::layout::layout_of;
use crate::metrics::MonitorError;
use crate::metrics::cpu_mean_hundredths;
use crate::metrics::memory_percent_hundredths;
use vstd::prelude::*;

verus! {

/// Declares sysinfo's `System`, the provider's snapshot of the host's CPU
/// and memory state, so that it can sit in a field. The verifier sees
/// nothing inside a value of it.
#[verifier::external_type_specification]
#[verifier::external_body]
pub struct ExSystem(sysinfo::System);

/// Relies on sysinfo's `System::new_all`: builds a snapshot with every kind
/// of information loaded once.
#[verifier::external_body]
fn system_new_all() -> sysinfo::System {
    sysinfo::System::new_all()
}

/// Relies on sysinfo's `System::refresh_all`: re-queries every figure from
/// the operating system; a side effect on the snapshot only.
#[verifier::external_body]
fn system_refresh_all(system: &mut sysinfo::System) {
    system.refresh_all();
}

/// Relies on sysinfo's `System::refresh_cpu_usage`: re-samples per-core
/// load; the figures are meaningful only from the second sample on, since
/// CPU load is a difference between two readings.
#[verifier::external_body]
fn system_refresh_cpu_usage(system: &mut sysinfo::System) {
    system.refresh_cpu_usage();
}

/// Relies on sysinfo's `System::cpus` and `Cpu::cpu_usage`: one utilization
/// figure per logical core as of the last CPU refresh, truncated to whole
/// percents. What comes back depends on the host and the moment, so nothing
/// is promised of the values.
#[verifier::external_body]
fn system_cpu_percents(system: &sysinfo::System) -> Vec<u32> {
    system.cpus().iter().map(|cpu| cpu.cpu_usage() as u32).collect()
}

/// Relies on sysinfo's `System::total_memory`: the host's RAM size in bytes
/// as of the last memory refresh.
#[verifier::external_body]
fn system_total_memory(system: &sysinfo::System) -> u64 {
    system.total_memory()
}

/// Relies on sysinfo's `System::used_memory`: the used RAM in bytes as of
/// the last memory refresh.
#[verifier::external_body]
fn system_used_memory(system: &sysinfo::System) -> u64 {
    system.used_memory()
}

/// Main application state: owns the provider snapshot that every reading is
/// taken from.
#[derive(Debug)]
pub struct App {
    system: sysinfo::System,
}

impl App {
    /// Creates the monitor state and takes a first full snapshot. The first
    /// CPU reading after construction may still be near zero: CPU load only
    /// becomes meaningful from the second sample on.
    pub fn new() -> App {
        let mut system = system_new_all();
        system_refresh_all(&mut system);
        App { system }
    }

    /// Re-queries the provider for fresh CPU and memory figures; a side
    /// effect on the snapshot only.
    pub fn update(&mut self) {
        system_refresh_all(&mut self.system);
    }

    /// Mean CPU load over all logical cores after a CPU-specific re-sample,
    /// in hundredths of a percent. The only error is the fatal zero-core
    /// configuration error; a reading is never a division by zero, and is
    /// bounded by the widest per-core figure the provider can hand back.
    pub fn get_cpu_usage(&mut self) -> (r: Result<u64, MonitorError>)
        ensures
            r matches Err(e) ==> e == MonitorError::NoCpuCores,
            r matches Ok(m) ==> m <= 100 * (u32::MAX as int),
    {
        system_refresh_cpu_usage(&mut self.system);
        let readings = system_cpu_percents(&self.system);
        cpu_mean_hundredths(&readings)
    }

    /// Memory load as hundredths of a percent of total, from the figures of
    /// the last full refresh; does not itself refresh. The only error is
    /// the fatal zero-total-memory configuration error.
    pub fn get_memory_usage(&mut self) -> (r: Result<u64, MonitorError>)
        ensures
            r matches Err(e) ==> e == MonitorError::NoTotalMemory,
    {
        let total = system_total_memory(&self.system);
        let used = system_used_memory(&self.system);
        memory_percent_hundredths(used, total)
    }

    /// One tick's computation: a full refresh, a CPU re-sample, and the
    /// frame for a `width`-by-`height` screen. A returned frame carries
    /// exactly the layout partition of that screen and two displayable
    /// gauge percents; an error is one of the two fatal configuration
    /// errors.
    pub fn sample_frame(&mut self, width: u16, height: u16) -> (r: Result<Frame, MonitorError>)
        ensures
            r matches Ok(f) ==> {
                &&& f.layout == layout_of(width, height)
                &&& f.cpu_percent <= 100
                &&& f.memory_percent <= 100
            },
            r matches Err(e) ==> (e == MonitorError::NoCpuCores || e
                == MonitorError::NoTotalMemory),
    {
        system_refresh_all(&mut self.system);
        system_refresh_cpu_usage(&mut self.system);
        let readings = system_cpu_percents(&self.system);
        let total = system_total_memory(&self.system);
        let used = system_used_memory(&self.system);
        build_frame(width, height, &readings, used, total)
    }
}

} // verus!
