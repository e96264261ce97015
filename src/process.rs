//! CPU and resident memory of the running process, read through sysinfo.
//!
//! Memory is an instantaneous quantity and is read from a fresh snapshot.
//! CPU usage is a delta between two refreshes, so it is read through one
//! [`ProcessMonitor`] that lives as long as the process does.

use sysinfo::{Process, System};
use vstd::prelude::*;

verus! {

#[verifier::external_type_specification]
#[verifier::external_body]
pub struct ExSystem(System);

#[verifier::external_type_specification]
#[verifier::external_body]
pub struct ExProcess(Process);

pub assume_specification[ System::new ]() -> System;

pub assume_specification[ Process::memory ](p: &Process) -> u64;

/// Relies on `sysinfo::get_current_pid`: the identifier of the running process,
/// where the platform gives one.
#[verifier::external_body]
fn current_pid() -> (r: Option<u32>) {
    sysinfo::get_current_pid().ok().map(|pid| pid.as_u32())
}

/// Relies on `System::refresh_processes`: reloads everything sysinfo tracks of
/// process `pid`, and forgets it where it is gone.
#[verifier::external_body]
fn refresh_process(system: &mut System, pid: u32) {
    let pids = [sysinfo::Pid::from_u32(pid)];
    system.refresh_processes(sysinfo::ProcessesToUpdate::Some(&pids), true);
}

/// Relies on `System::refresh_processes_specifics`: reloads the CPU accounting of
/// process `pid` alone, and forgets it where it is gone.
#[verifier::external_body]
fn refresh_process_cpu(system: &mut System, pid: u32) {
    let pids = [sysinfo::Pid::from_u32(pid)];
    let kind = sysinfo::ProcessRefreshKind::new().with_cpu();
    system.refresh_processes_specifics(sysinfo::ProcessesToUpdate::Some(&pids), true, kind);
}

/// Relies on `System::process`: the process `pid` as of the last refresh, if the
/// snapshot holds it.
#[verifier::external_body]
fn lookup_process(system: &System, pid: u32) -> (r: Option<&Process>) {
    system.process(sysinfo::Pid::from_u32(pid))
}

/// The reading could not be taken right now.
#[derive(Clone, Copy, Debug, PartialEq, Eq, Structural)]
pub enum Unavailable {
    /// The running process could not be found: the platform gives no identifier
    /// for it, or the accounting snapshot does not hold it.
    ProcessNotFound,
}

impl Unavailable {
    /// The message shown to the caller.
    pub fn message(&self) -> (r: String)
        ensures
            r@ == self.message_spec(),
    {
        match self {
            Unavailable::ProcessNotFound => "Could not find current process".to_string(),
        }
    }

    pub open spec fn message_spec(&self) -> Seq<char> {
        match self {
            Unavailable::ProcessNotFound => "Could not find current process"@,
        }
    }
}

/// The outcome of a sample: the identifier of the running process, if the
/// platform gave one, and whether the refreshed snapshot holds that process.
pub open spec fn sample_outcome_spec(pid: Option<u32>, found: bool) -> Result<u32, Unavailable> {
    match pid {
        Some(p) if found => Ok(p),
        _ => Err(Unavailable::ProcessNotFound),
    }
}

/// Decides a sample from the process identifier and the snapshot lookup alone;
/// nothing else, such as whether an earlier sample was taken, enters into it.
pub fn sample_outcome(pid: Option<u32>, found: bool) -> (r: Result<u32, Unavailable>)
    ensures
        r == sample_outcome_spec(pid, found),
{
    match pid {
        Some(p) => if found {
            Ok(p)
        } else {
            Err(Unavailable::ProcessNotFound)
        },
        None => Err(Unavailable::ProcessNotFound),
    }
}

/// Resident memory of the running process, in bytes, from a fresh snapshot.
pub fn current_memory_bytes() -> (r: Result<u64, Unavailable>)
    ensures
        r is Err ==> r == Err::<u64, Unavailable>(Unavailable::ProcessNotFound),
{
    let pid = match current_pid() {
        Some(pid) => pid,
        None => return Err(Unavailable::ProcessNotFound),
    };
    let mut system = System::new();
    refresh_process(&mut system, pid);
    match lookup_process(&system, pid) {
        Some(process) => Ok(process.memory()),
        None => Err(Unavailable::ProcessNotFound),
    }
}

/// Resident memory of the running process, in bytes, or the message that says
/// why it could not be read.
pub fn get_memory_usage() -> (r: Result<u64, String>)
    ensures
        r is Err ==> r->Err_0@ == "Could not find current process"@,
{
    match current_memory_bytes() {
        Ok(bytes) => Ok(bytes),
        Err(e) => Err(e.message()),
    }
}

/// The process-accounting state through which CPU usage is sampled. It is built
/// on the first sample and reused by every later one, so that each sample is
/// measured from the one before.
pub struct ProcessMonitor {
    system: Option<System>,
    built: Ghost<nat>,
}

impl ProcessMonitor {
    pub closed spec fn wf(&self) -> bool {
        self.built@ == (if self.system is Some {
            1nat
        } else {
            0nat
        })
    }

    /// Whether the accounting state has been built.
    pub closed spec fn is_built(&self) -> bool {
        self.system is Some
    }

    /// How many accounting states this monitor has built. This is bookkeeping
    /// kept by the monitor's own code: an opaque sysinfo `System` cannot be
    /// followed by a contract, so it records where `System::new` is called,
    /// not which instance a refresh goes to.
    pub closed spec fn builds(&self) -> nat {
        self.built@
    }

    /// A monitor whose accounting state is not built yet.
    pub fn new() -> (r: Self)
        ensures
            r.wf(),
            !r.is_built(),
            r.builds() == 0,
    {
        ProcessMonitor { system: None, built: Ghost(0) }
    }

    /// Refreshes the CPU accounting of the running process and returns its
    /// identifier, to be read with [`ProcessMonitor::process`]. The accounting
    /// state is built here on the first call and kept for later ones. The result
    /// is [`sample_outcome`] of the identifier and of the lookup in the refreshed
    /// snapshot, so the first call fails only where a later one would.
    pub fn sample_cpu(&mut self) -> (r: Result<u32, Unavailable>)
        requires
            old(self).wf(),
        ensures
            final(self).wf(),
            r is Ok ==> final(self).is_built(),
            old(self).is_built() ==> final(self).is_built(),
            final(self).builds() <= 1,
            old(self).is_built() ==> final(self).builds() == old(self).builds(),
            r is Err ==> r == Err::<u32, Unavailable>(Unavailable::ProcessNotFound),
    {
        let pid = match current_pid() {
            Some(pid) => pid,
            None => return sample_outcome(None, false),
        };
        let mut system = match self.system.take() {
            Some(system) => system,
            None => {
                self.built = Ghost(1);
                System::new()
            },
        };
        refresh_process_cpu(&mut system, pid);
        let found = lookup_process(&system, pid).is_some();
        self.system = Some(system);
        sample_outcome(Some(pid), found)
    }

    /// Process `pid` as of the last sample, if the accounting state holds it.
    pub fn process(&self, pid: u32) -> (r: Option<&Process>)
        ensures
            !self.is_built() ==> r is None,
    {
        match &self.system {
            Some(system) => lookup_process(system, pid),
            None => None,
        }
    }
}

} // verus!
