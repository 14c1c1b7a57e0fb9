//! Discovery of the session message bus and the plan of a fresh restart.
//!
//! The bus is found by an exact command-name match together with a
//! session-marker argument.  A fresh-restart pass terminates every found
//! instance gracefully, waits for the set to drain (best effort), and
//! spawns exactly one new session-scoped instance; when none is found the
//! pass does nothing at all.  The surrounding program performs the
//! termination, the waits and the spawn that the plan prescribes.

use vstd::prelude::*;
use crate::process::CallerId;
use crate::process::ProcEntry;
use crate::process::ProcessRecord;
use crate::process::QueryModel;
use crate::process::ScanQuery;
use crate::process::lemma_matching_records_elements;
use crate::process::lemma_scan_result_ownership;
use crate::process::matching_records;
use crate::process::owned_by_caller;
use crate::process::records_model;
use crate::process::scan_snapshot;

verus! {

/// The exact command name of the session bus daemon.
pub open spec fn bus_command() -> Seq<char> {
    "dbus-daemon"@
}

/// The argument that marks a session-scoped bus instance.
pub open spec fn bus_marker() -> Seq<char> {
    "--session"@
}

/// The query a bus scan runs: exact command name plus session marker.
pub open spec fn bus_query() -> QueryModel {
    QueryModel::ExactWithMarker { command: bus_command(), marker: bus_marker() }
}

/// Scans a snapshot for session bus daemons.  A process is kept exactly
/// when its command name equals the bus daemon's and its argument vector
/// contains the session marker; the caller's own process and processes of
/// other users are never kept.
pub fn find_dbus_processes(entries: &Vec<ProcEntry>, caller: &CallerId) -> (r: Vec<ProcessRecord>)
    ensures
        records_model(r@) == matching_records(bus_query(), *caller, entries@),
        forall|i: int| 0 <= i < r@.len() ==> (#[trigger] r@[i]).pid != caller.pid,
        forall|i: int|
            0 <= i < r@.len() ==> owned_by_caller(entries@, *caller, (#[trigger] r@[i]).pid as int),
        forall|i: int| 0 <= i < r@.len() ==> (#[trigger] r@[i]).name@ == bus_command(),
{
    let q = ScanQuery::ExactWithMarker {
        command: String::from_str("dbus-daemon"),
        marker: String::from_str("--session"),
    };
    let r = scan_snapshot(&q, caller, entries);
    proof {
        lemma_scan_result_ownership(bus_query(), *caller, entries@, r@);
        assert forall|i: int| 0 <= i < r@.len() implies (#[trigger] r@[i]).name@
            == bus_command() by {
            assert(records_model(r@)[i] == r@[i]@);
            lemma_matching_records_elements(bus_query(), *caller, entries@, i);
        }
    }
    r
}

/// The work of one fresh-restart pass when stale instances exist.
pub struct BusRestart {
    /// Every bus instance found by the scan, each to be signalled once.
    pub to_terminate: Vec<ProcessRecord>,
    /// The pass terminates gracefully; it never escalates by itself.
    pub forceful: bool,
    /// Wait after the termination pass before the drain polls start.
    pub settle_millis: u64,
    /// How often to re-scan while waiting for the instances to be gone.
    /// Draining is best effort: the pass proceeds even if some remain.
    pub drain_polls: u32,
    /// Wait between two drain polls.
    pub drain_interval_millis: u64,
    /// Command name of the one new instance to spawn.
    pub spawn_command: String,
    /// Arguments of the new instance: session scope and a runtime address.
    pub spawn_args: Vec<String>,
    /// Wait after the spawn before the pass reports.
    pub post_spawn_settle_millis: u64,
}

/// What one `ensure_fresh` pass over the session bus does.
pub enum BusPlan {
    /// No bus instance exists: the pass touches nothing.
    AlreadyFresh,
    /// Stale instances exist: terminate them all and spawn one fresh bus.
    Restart(BusRestart),
}

/// How many termination signals a plan delivers.
pub open spec fn plan_signal_count(p: BusPlan) -> nat {
    match p {
        BusPlan::AlreadyFresh => 0,
        BusPlan::Restart(r) => r.to_terminate@.len(),
    }
}

/// How many new bus instances a plan spawns.
pub open spec fn plan_spawn_count(p: BusPlan) -> nat {
    match p {
        BusPlan::AlreadyFresh => 0,
        BusPlan::Restart(_) => 1,
    }
}

/// Plans one fresh-restart pass over the bus instances a scan found.
/// With no instance the plan is to do nothing; otherwise every found
/// instance is signalled gracefully exactly once, the set is given time to
/// drain, and exactly one new session-scoped instance is spawned.
pub fn ensure_fresh_plan(bus: Vec<ProcessRecord>) -> (p: BusPlan)
    ensures
        (p is AlreadyFresh) <==> bus@.len() == 0,
        plan_signal_count(p) == bus@.len(),
        plan_spawn_count(p) == (if bus@.len() == 0 {
            0nat
        } else {
            1nat
        }),
        p is Restart ==> ({
            let r = p->0;
            &&& r.to_terminate@ == bus@
            &&& !r.forceful
            &&& r.settle_millis == 500
            &&& r.drain_polls == 10
            &&& r.drain_interval_millis == 100
            &&& r.spawn_command@ == "dbus-daemon"@
            &&& r.spawn_args@.len() == 2
            &&& r.spawn_args@[0]@ == "--session"@
            &&& r.spawn_args@[1]@ == "--address=unix:runtime=yes"@
            &&& r.post_spawn_settle_millis == 500
        }),
{
    if bus.len() == 0 {
        BusPlan::AlreadyFresh
    } else {
        let mut spawn_args: Vec<String> = Vec::new();
        spawn_args.push(String::from_str("--session"));
        spawn_args.push(String::from_str("--address=unix:runtime=yes"));
        BusPlan::Restart(
            BusRestart {
                to_terminate: bus,
                forceful: false,
                settle_millis: 500,
                drain_polls: 10,
                drain_interval_millis: 100,
                spawn_command: String::from_str("dbus-daemon"),
                spawn_args,
                post_spawn_settle_millis: 500,
            },
        )
    }
}

/// Law: a fresh-restart pass is idempotent.  When no bus instance exists
/// it delivers zero signals and spawns nothing, so running it again
/// changes nothing; and no plan ever spawns more than one instance, so a
/// single pass over one live instance leaves one live instance, never
/// two.
pub proof fn lemma_ensure_fresh_idempotent(bus: Seq<ProcessRecord>, p: BusPlan)
    requires
        (p is AlreadyFresh) <==> bus.len() == 0,
        plan_signal_count(p) == bus.len(),
        plan_spawn_count(p) == (if bus.len() == 0 {
            0nat
        } else {
            1nat
        }),
    ensures
        bus.len() == 0 ==> plan_signal_count(p) == 0 && plan_spawn_count(p) == 0,
        plan_spawn_count(p) <= 1,
{
}

} // verus!
