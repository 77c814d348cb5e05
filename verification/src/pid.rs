//! Singleton-instance enforcement: the pidfile record and the startup gate.
//!
//! At most one daemon instance may own a runtime directory. On startup the
//! pidfile is read; a recorded pid that is currently alive stops startup. A
//! missing, unreadable or stale record is not trusted on its own: a secondary
//! scan of running processes by name guards against a corrupted pidfile.
//! Only then is the current pid written (overwriting any stale record).

use vstd::prelude::*;
use vstd::string::*;
use crate::util::{spec_all_digits, spec_dec, spec_dec_value};

verus! {

/// Get the path for replayd's pidfile.
pub fn get_pidfile(runtime_dir: &str) -> (r: String)
    ensures
        r@ == runtime_dir@ + "/replayd.pid"@,
{
    let mut s = runtime_dir.to_owned();
    s.append("/replayd.pid");
    s
}

/// Why startup was refused.
#[derive(Clone, Copy, Debug, PartialEq, Eq, Structural)]
pub enum Error {
    /// Another daemon instance owns the runtime directory already.
    InstanceRunning(u32),
}

impl Error {
    /// The diagnostic line printed for this error.
    pub fn message(&self) -> (r: String)
        ensures
            self matches Error::InstanceRunning(pid) ==> r@ == "replayd is already running (pid "@
                + spec_dec(pid as nat) + ")"@,
    {
        match self {
            Error::InstanceRunning(pid) => {
                let mut m = ("replayd is already running (pid ").to_owned();
                let num = crate::util::u32_to_string(*pid);
                m.append(num.as_str());
                m.append(")");
                m
            },
        }
    }
}

/// The pid a pidfile's text records: the text must be exactly the decimal
/// digits of a number a `u32` can hold.
pub open spec fn spec_recorded_pid(content: Seq<char>) -> Option<u32> {
    if content.len() > 0 && spec_all_digits(content) && spec_dec_value(content) <= u32::MAX {
        Some(spec_dec_value(content) as u32)
    } else {
        None
    }
}

/// Read the pid recorded in the pidfile's text; `None` for anything that is
/// not a plain decimal pid.
pub fn get_pid(content: &str) -> (r: Option<u32>)
    ensures
        r == spec_recorded_pid(content@),
{
    crate::util::parse_u32(content)
}

/// Render the pid record to be written into the pidfile.
pub fn set_pid(pid: u32) -> (r: String)
    ensures
        r@ == spec_dec(pid as nat),
        spec_recorded_pid(r@) == Some(pid),
{
    proof {
        crate::util::lemma_decimal_round_trip(pid);
    }
    crate::util::u32_to_string(pid)
}

/// The startup decision, from what the system shows: the pid the pidfile
/// records (if any), whether that pid is currently alive, the pid of some
/// other live process found by name (if any), and the starting process's own
/// pid. Startup proceeds exactly when neither check finds a live instance.
pub open spec fn spec_guard(
    recorded: Option<u32>,
    recorded_alive: bool,
    named: Option<u32>,
    self_pid: u32,
) -> Result<(), Error> {
    if recorded is Some && recorded_alive {
        Err(Error::InstanceRunning(recorded->0))
    } else if named is Some && named->0 != self_pid {
        Err(Error::InstanceRunning(named->0))
    } else {
        Ok(())
    }
}

/// Decide whether startup may proceed, given both liveness checks' findings.
/// The scan result `named` is disregarded when it names the starting process
/// itself, which is no second instance.
pub fn evaluate_guard(
    recorded: Option<u32>,
    recorded_alive: bool,
    named: Option<u32>,
    self_pid: u32,
) -> (r: Result<(), Error>)
    ensures
        r == spec_guard(recorded, recorded_alive, named, self_pid),
{
    match recorded {
        Some(pid) if recorded_alive => Err(Error::InstanceRunning(pid)),
        _ => match named {
            Some(other) if other != self_pid => Err(Error::InstanceRunning(other)),
            _ => Ok(()),
        },
    }
}

/// A live pidfile owner always stops startup, whatever the name scan sees.
pub proof fn lemma_singleton_invariant(pid: u32, named: Option<u32>, self_pid: u32)
    ensures
        spec_guard(Some(pid), true, named, self_pid) == Err::<(), Error>(Error::InstanceRunning(
            pid,
        )),
{
}

/// A stale record never stops startup on its own: with the recorded pid dead
/// (or no record at all) and no other live instance found by name, startup
/// proceeds, and the caller overwrites the record with its own pid.
pub proof fn lemma_singleton_recovery(recorded: Option<u32>, self_pid: u32)
    ensures
        spec_guard(recorded, false, None, self_pid) is Ok,
        spec_guard(recorded, false, Some(self_pid), self_pid) is Ok,
{
}

/// Relies on sysinfo (System::refresh_processes, System::process): whether
/// the operating system's process table currently lists `pid`.
#[verifier::external_body]
fn pid_alive(pid: u32) -> (r: bool) {
    let mut sys = sysinfo::System::new();
    sys.refresh_processes(
        sysinfo::ProcessesToUpdate::Some(&[sysinfo::Pid::from_u32(pid)]),
        false,
    );
    sys.process(sysinfo::Pid::from_u32(pid)).is_some()
}

/// Relies on sysinfo (System::refresh_processes, System::processes_by_name):
/// the pid of some currently running process whose name contains `name`, if
/// the process table holds one.
#[verifier::external_body]
fn process_named(name: &str) -> (r: Option<u32>) {
    let mut sys = sysinfo::System::new();
    sys.refresh_processes(sysinfo::ProcessesToUpdate::All, false);
    let found = sys.processes_by_name(name.as_ref()).next().map(|p| p.pid().as_u32());
    found
}

/// The pid recorded by a pidfile that may be absent or unreadable.
pub open spec fn spec_content_pid(content: Option<&str>) -> Option<u32> {
    match content {
        Some(c) => spec_recorded_pid(c@),
        None => None,
    }
}

/// The whole startup gate: parse the pidfile's content (`None` where the file
/// is absent or unreadable), ask the process table about the recorded pid,
/// scan for a live instance by name where the record clears, and decide.
/// Whatever the process table answers, the decision is the guard rule applied
/// to the recorded pid and those answers.
pub fn check_singleton(pidfile_content: Option<&str>, self_pid: u32) -> (r: Result<(), Error>)
    ensures
        exists|recorded_alive: bool, named: Option<u32>|
            r == #[trigger] spec_guard(
                spec_content_pid(pidfile_content),
                recorded_alive,
                named,
                self_pid,
            ),
{
    let recorded = match pidfile_content {
        Some(content) => get_pid(content),
        None => None,
    };
    let recorded_alive = match recorded {
        Some(pid) => pid_alive(pid),
        None => false,
    };
    let named = if recorded.is_some() && recorded_alive {
        // The record already decides; the scan is not consulted.
        None
    } else {
        process_named("replayd")
    };
    let r = evaluate_guard(recorded, recorded_alive, named, self_pid);
    proof {
        assert(r == spec_guard(recorded, recorded_alive, named, self_pid));
    }
    r
}

} // verus!
