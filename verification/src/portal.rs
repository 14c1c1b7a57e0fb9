//! Discovery of the desktop portal daemons and the plan of a detached
//! launch.
//!
//! Portals are found by a deep name search: the pattern may appear in the
//! command name, in the first argument, or in the executable link.  A
//! launch proceeds only when the binary exists on disk; it then detaches
//! the child into a session of its own, redirects its standard output and
//! error onto the log pipe, closes the remaining inherited descriptor, and
//! replaces the child with the target executable.  The surrounding
//! program performs the fork, the descriptor work and the exec that the
//! plan prescribes.

use vstd::prelude::*;
use crate::process::CallerId;
use crate::process::ProcEntry;
use crate::process::ProcessRecord;
use crate::process::QueryModel;
use crate::process::ScanQuery;
use crate::process::lemma_scan_result_ownership;
use crate::process::matching_records;
use crate::process::owned_by_caller;
use crate::process::records_model;
use crate::process::scan_snapshot;

verus! {

/// The name pattern every portal daemon carries.
pub open spec fn portal_pattern() -> Seq<char> {
    "xdg-desktop-portal"@
}

/// The query a portal scan runs: the pattern may appear in the command
/// name, the first argument, or the executable link.
pub open spec fn portal_query() -> QueryModel {
    QueryModel::DeepName { pattern: portal_pattern() }
}

/// Scans a snapshot for portal daemons.  A process is kept exactly when
/// its command name, its first argument, or its executable link contains
/// the portal pattern; the caller's own process and processes of other
/// users are never kept.
pub fn find_portal_processes(entries: &Vec<ProcEntry>, caller: &CallerId) -> (r: Vec<ProcessRecord>)
    ensures
        records_model(r@) == matching_records(portal_query(), *caller, entries@),
        forall|i: int| 0 <= i < r@.len() ==> (#[trigger] r@[i]).pid != caller.pid,
        forall|i: int|
            0 <= i < r@.len() ==> owned_by_caller(entries@, *caller, (#[trigger] r@[i]).pid as int),
{
    let q = ScanQuery::DeepName { pattern: String::from_str("xdg-desktop-portal") };
    let r = scan_snapshot(&q, caller, entries);
    proof {
        lemma_scan_result_ownership(portal_query(), *caller, entries@, r@);
    }
    r
}

/// Immutable description of one supervisable daemon.
#[derive(Debug, Clone)]
pub struct DaemonSpec {
    /// Where the binary lives on disk.
    pub executable_path: String,
    /// The name log lines carry for this daemon.
    pub display_name: String,
    /// Arguments the daemon is launched with.
    pub launch_args: Vec<String>,
}

/// The desktop-environment portal daemon, launched verbose.
pub fn hyprland_portal_spec() -> (d: DaemonSpec)
    ensures
        d.executable_path@ == "/usr/lib/xdg-desktop-portal-hyprland"@,
        d.display_name@ == "Hyprland portal"@,
        d.launch_args@.len() == 1,
        d.launch_args@[0]@ == "-v"@,
{
    let mut launch_args: Vec<String> = Vec::new();
    launch_args.push(String::from_str("-v"));
    DaemonSpec {
        executable_path: String::from_str("/usr/lib/xdg-desktop-portal-hyprland"),
        display_name: String::from_str("Hyprland portal"),
        launch_args,
    }
}

/// The generic fallback portal daemon, launched verbose.
pub fn xdg_portal_spec() -> (d: DaemonSpec)
    ensures
        d.executable_path@ == "/usr/lib/xdg-desktop-portal"@,
        d.display_name@ == "XDG portal"@,
        d.launch_args@.len() == 1,
        d.launch_args@[0]@ == "-v"@,
{
    let mut launch_args: Vec<String> = Vec::new();
    launch_args.push(String::from_str("-v"));
    DaemonSpec {
        executable_path: String::from_str("/usr/lib/xdg-desktop-portal"),
        display_name: String::from_str("XDG portal"),
        launch_args,
    }
}

/// One step of the child's descriptor setup before the exec.
#[derive(Clone, Copy, PartialEq, Eq, Structural, Debug)]
pub enum FdStep {
    /// Close this inherited descriptor.
    Close { fd: i32 },
    /// Point this descriptor at the write end of the log pipe.
    RedirectToLog { fd: i32 },
}

/// The supervised side's setup: detach into a fresh session, rewire the
/// standard descriptors, then exec the target with its arguments.
#[derive(Debug)]
pub struct LaunchPlan {
    /// The child becomes its own session leader, so it survives the
    /// orchestrator's exit and its terminal.
    pub new_session: bool,
    /// Descriptor work, in order: close stdin, point stdout and stderr at
    /// the log pipe.  The read end of the pipe is closed afterwards.
    pub fd_steps: Vec<FdStep>,
    /// The executable and its arguments, in exec order.
    pub argv: Vec<String>,
}

/// What one launch request does.
pub enum LaunchDecision {
    /// The binary is missing on disk: log an error and create no child.
    /// The miss surfaces only through the later verification polls.
    SkipMissingBinary,
    /// The binary exists: fork and run this plan on the supervised side.
    Spawn(LaunchPlan),
}

/// Decides one launch from the daemon description and the precondition
/// check on its binary.  A missing binary never creates a child; an
/// existing one is launched detached, with both output streams captured,
/// and with the daemon's own arguments after the executable path.
pub fn launch_decision(daemon: &DaemonSpec, binary_exists: bool) -> (d: LaunchDecision)
    ensures
        (d is SkipMissingBinary) <==> !binary_exists,
        d is Spawn ==> ({
            let p = d->0;
            &&& p.new_session
            &&& p.fd_steps@.len() == 3
            &&& p.fd_steps@[0] == (FdStep::Close { fd: 0 })
            &&& p.fd_steps@[1] == (FdStep::RedirectToLog { fd: 1 })
            &&& p.fd_steps@[2] == (FdStep::RedirectToLog { fd: 2 })
            &&& p.argv@.len() == 1 + daemon.launch_args@.len()
            &&& p.argv@[0]@ == daemon.executable_path@
            &&& forall|i: int|
                1 <= i < p.argv@.len() ==> (#[trigger] p.argv@[i])@ == daemon.launch_args@[i - 1]@
        }),
{
    if !binary_exists {
        return LaunchDecision::SkipMissingBinary;
    }
    let mut fd_steps: Vec<FdStep> = Vec::new();
    fd_steps.push(FdStep::Close { fd: 0 });
    fd_steps.push(FdStep::RedirectToLog { fd: 1 });
    fd_steps.push(FdStep::RedirectToLog { fd: 2 });
    let mut argv: Vec<String> = Vec::new();
    argv.push(daemon.executable_path.clone());
    let mut i: usize = 0;
    while i < daemon.launch_args.len()
        invariant
            i <= daemon.launch_args@.len(),
            argv@.len() == 1 + i,
            argv@[0]@ == daemon.executable_path@,
            forall|k: int|
                1 <= k < argv@.len() ==> (#[trigger] argv@[k])@ == daemon.launch_args@[k - 1]@,
        decreases daemon.launch_args@.len() - i,
    {
        argv.push(daemon.launch_args[i].clone());
        i += 1;
    }
    LaunchDecision::Spawn(LaunchPlan { new_session: true, fd_steps, argv })
}

} // verus!
