//! Process-table scanning and signal-based termination.
//!
//! The scanner works on a snapshot of the process table handed in as plain
//! values: one [`ProcEntry`] per numeric entry, with the fields the kernel
//! exposes for it.  Entries whose fields could not be read are either left
//! out of the snapshot or handed in with those fields empty; both ways they
//! fail the match, which is the swallow-read-errors behaviour the scanner
//! promises.  The terminator turns a set of records into exactly one signal
//! request per record and delivers them.

use vstd::prelude::*;
use crate::strutil::basename;
use crate::strutil::basename_spec;
use crate::strutil::contains_seq;
use crate::strutil::str_contains;
use crate::strutil::str_eq;

verus! {

/// Identity of the calling process: its own pid, which a scan never
/// returns, and its real user id, which every returned entry must own.
#[derive(Clone, Copy, PartialEq, Eq, Structural, Debug)]
pub struct CallerId {
    pub pid: i32,
    pub uid: u32,
}

/// One process-table entry of a snapshot: the numeric entry name, the
/// owning user id, the reported command name, the argument vector, and the
/// target of the executable link.
#[derive(Debug, Clone)]
pub struct ProcEntry {
    pub pid: i32,
    pub uid: u32,
    pub comm: String,
    pub args: Vec<String>,
    pub exe: String,
}

/// One discovered process: its pid and the name under which the scanner
/// matched it.  Never cached across a termination cycle, since the
/// operating system may reuse a pid.
#[derive(Debug, Clone)]
pub struct ProcessRecord {
    pub pid: i32,
    pub name: String,
}

impl View for ProcessRecord {
    type V = (int, Seq<char>);

    open spec fn view(&self) -> (int, Seq<char>) {
        (self.pid as int, self.name@)
    }
}

/// The mathematical content of a sequence of records.
pub open spec fn records_model(s: Seq<ProcessRecord>) -> Seq<(int, Seq<char>)> {
    s.map_values(|r: ProcessRecord| r@)
}

/// What a scan looks for, over character sequences.
pub enum QueryModel {
    /// The command name contains `pattern`; when `args_pattern` is given,
    /// some argument must contain it too.
    NameContains { pattern: Seq<char>, args_pattern: Option<Seq<char>> },
    /// The command name, the first argument, or the executable link
    /// contains `pattern`.
    DeepName { pattern: Seq<char> },
    /// The command name equals `command` and some argument contains
    /// `marker`.
    ExactWithMarker { command: Seq<char>, marker: Seq<char> },
}

/// An executable scan query; its view is the [`QueryModel`] it stands for.
pub enum ScanQuery {
    NameContains { pattern: String, args_pattern: Option<String> },
    DeepName { pattern: String },
    ExactWithMarker { command: String, marker: String },
}

impl View for ScanQuery {
    type V = QueryModel;

    open spec fn view(&self) -> QueryModel {
        match self {
            ScanQuery::NameContains { pattern, args_pattern } => (QueryModel::NameContains {
                pattern: pattern@,
                args_pattern: match args_pattern {
                    Some(ap) => Some(ap@),
                    None => None,
                },
            }),
            ScanQuery::DeepName { pattern } => (QueryModel::DeepName { pattern: pattern@ }),
            ScanQuery::ExactWithMarker { command, marker } => (QueryModel::ExactWithMarker {
                command: command@,
                marker: marker@,
            }),
        }
    }
}

/// Some argument of the vector contains `pat`.
pub open spec fn any_arg_contains(args: Seq<String>, pat: Seq<char>) -> bool {
    exists|i: int| 0 <= i < args.len() && contains_seq(#[trigger] args[i]@, pat)
}

/// The first argument exists and contains `pat`.
pub open spec fn first_arg_contains(args: Seq<String>, pat: Seq<char>) -> bool {
    args.len() > 0 && contains_seq(args[0]@, pat)
}

/// The name test of a query against one entry, before ownership checks.
pub open spec fn query_name_matches(q: QueryModel, e: ProcEntry) -> bool {
    match q {
        QueryModel::NameContains { pattern, args_pattern } => contains_seq(e.comm@, pattern)
            && match args_pattern {
            Some(ap) => any_arg_contains(e.args@, ap),
            None => true,
        },
        QueryModel::DeepName { pattern } => contains_seq(e.comm@, pattern) || first_arg_contains(
            e.args@,
            pattern,
        ) || contains_seq(e.exe@, pattern),
        QueryModel::ExactWithMarker { command, marker } => e.comm@ == command && any_arg_contains(
            e.args@,
            marker,
        ),
    }
}

/// An entry is kept when it is not the caller itself, is owned by the
/// caller's user, and passes the query's name test.
pub open spec fn entry_matches(q: QueryModel, caller: CallerId, e: ProcEntry) -> bool {
    e.pid != caller.pid && e.uid == caller.uid && query_name_matches(q, e)
}

/// The name a kept entry is reported under: the command name where it
/// matched, else the final path segment of the first argument, else that
/// of the executable link.
pub open spec fn record_name(q: QueryModel, e: ProcEntry) -> Seq<char> {
    match q {
        QueryModel::NameContains { .. } => e.comm@,
        QueryModel::ExactWithMarker { .. } => e.comm@,
        QueryModel::DeepName { pattern } => if contains_seq(e.comm@, pattern) {
            e.comm@
        } else if first_arg_contains(e.args@, pattern) {
            basename_spec(e.args[0]@)
        } else {
            basename_spec(e.exe@)
        },
    }
}

/// The records a scan of `entries` yields, in snapshot order.
pub open spec fn matching_records(q: QueryModel, caller: CallerId, entries: Seq<ProcEntry>) -> Seq<
    (int, Seq<char>),
>
    decreases entries.len(),
{
    if entries.len() == 0 {
        Seq::empty()
    } else {
        let front = matching_records(q, caller, entries.drop_last());
        if entry_matches(q, caller, entries.last()) {
            front.push((entries.last().pid as int, record_name(q, entries.last())))
        } else {
            front
        }
    }
}

/// Some entry of the snapshot is owned by the caller's user and carries
/// this pid.
pub open spec fn owned_by_caller(entries: Seq<ProcEntry>, caller: CallerId, pid: int) -> bool {
    exists|j: int|
        0 <= j < entries.len() && (#[trigger] entries[j]).uid == caller.uid && entries[j].pid as int
            == pid
}

/// Every element of a scan's result comes from a matching entry of the
/// snapshot; in particular no result carries the caller's own pid, and
/// every result's pid belongs to a process owned by the caller's user.
pub proof fn lemma_matching_records_elements(
    q: QueryModel,
    caller: CallerId,
    entries: Seq<ProcEntry>,
    i: int,
)
    requires
        0 <= i < matching_records(q, caller, entries).len(),
    ensures
        exists|j: int|
            0 <= j < entries.len() && entry_matches(q, caller, #[trigger] entries[j])
                && matching_records(q, caller, entries)[i] == (
            entries[j].pid as int,
            record_name(q, entries[j]),
            ),
    decreases entries.len(),
{
    let m = matching_records(q, caller, entries);
    let front = matching_records(q, caller, entries.drop_last());
    if i < front.len() {
        lemma_matching_records_elements(q, caller, entries.drop_last(), i);
        let j = choose|j: int|
            0 <= j < entries.drop_last().len() && entry_matches(
                q,
                caller,
                #[trigger] entries.drop_last()[j],
            ) && front[i] == (
                entries.drop_last()[j].pid as int,
                record_name(q, entries.drop_last()[j]),
            );
        assert(entries[j] == entries.drop_last()[j]);
    } else {
        assert(entry_matches(q, caller, entries.last()));
        assert(entries[entries.len() - 1] == entries.last());
    }
}

fn any_arg_matches(args: &Vec<String>, pat: &str) -> (r: bool)
    ensures
        r == any_arg_contains(args@, pat@),
{
    let mut i: usize = 0;
    while i < args.len()
        invariant
            i <= args@.len(),
            forall|k: int| 0 <= k < i ==> !contains_seq(#[trigger] args@[k]@, pat@),
        decreases args@.len() - i,
    {
        if str_contains(args[i].as_str(), pat) {
            return true;
        }
        i += 1;
    }
    false
}

/// Decides one entry: `Some` exactly when the entry matches, carrying the
/// pid and the reported name.
fn entry_record(q: &ScanQuery, caller: &CallerId, e: &ProcEntry) -> (r: Option<ProcessRecord>)
    ensures
        r is Some <==> entry_matches(q@, *caller, *e),
        r is Some ==> r->0.pid == e.pid && r->0.name@ == record_name(q@, *e),
{
    if e.pid == caller.pid || e.uid != caller.uid {
        return None;
    }
    match q {
        ScanQuery::NameContains { pattern, args_pattern } => {
            if !str_contains(e.comm.as_str(), pattern.as_str()) {
                return None;
            }
            match args_pattern {
                Some(ap) => {
                    if any_arg_matches(&e.args, ap.as_str()) {
                        Some(ProcessRecord { pid: e.pid, name: e.comm.clone() })
                    } else {
                        None
                    }
                },
                None => Some(ProcessRecord { pid: e.pid, name: e.comm.clone() }),
            }
        },
        ScanQuery::DeepName { pattern } => {
            if str_contains(e.comm.as_str(), pattern.as_str()) {
                Some(ProcessRecord { pid: e.pid, name: e.comm.clone() })
            } else if e.args.len() > 0 && str_contains(e.args[0].as_str(), pattern.as_str()) {
                Some(
                    ProcessRecord {
                        pid: e.pid,
                        name: String::from_str(basename(e.args[0].as_str())),
                    },
                )
            } else if str_contains(e.exe.as_str(), pattern.as_str()) {
                Some(ProcessRecord { pid: e.pid, name: String::from_str(basename(e.exe.as_str())) })
            } else {
                None
            }
        },
        ScanQuery::ExactWithMarker { command, marker } => {
            if str_eq(e.comm.as_str(), command.as_str()) && any_arg_matches(
                &e.args,
                marker.as_str(),
            ) {
                Some(ProcessRecord { pid: e.pid, name: e.comm.clone() })
            } else {
                None
            }
        },
    }
}

/// Walks a snapshot and keeps the matching entries, in order.
pub fn scan_snapshot(q: &ScanQuery, caller: &CallerId, entries: &Vec<ProcEntry>) -> (r: Vec<
    ProcessRecord,
>)
    ensures
        records_model(r@) == matching_records(q@, *caller, entries@),
{
    let mut out: Vec<ProcessRecord> = Vec::new();
    proof {
        assert(records_model(out@) =~= matching_records(q@, *caller, entries@.subrange(0, 0)));
    }
    let mut i: usize = 0;
    while i < entries.len()
        invariant
            i <= entries@.len(),
            records_model(out@) == matching_records(q@, *caller, entries@.subrange(0, i as int)),
        decreases entries@.len() - i,
    {
        let ghost pre = entries@.subrange(0, i as int);
        let ghost cur = entries@.subrange(0, i as int + 1);
        proof {
            assert(cur.drop_last() =~= pre);
            assert(cur.last() == entries@[i as int]);
        }
        match entry_record(q, caller, &entries[i]) {
            Some(rec) => {
                out.push(rec);
                proof {
                    assert(records_model(out@) =~= matching_records(q@, *caller, cur));
                }
            },
            None => {
                proof {
                    assert(records_model(out@) =~= matching_records(q@, *caller, cur));
                }
            },
        }
        i += 1;
    }
    proof {
        assert(entries@.subrange(0, entries@.len() as int) =~= entries@);
    }
    out
}

/// Scans a snapshot for processes whose command name contains
/// `name_pattern` and, when `args_pattern` is given, whose argument vector
/// contains it as a substring.  Read failures never surface: an entry
/// missing from the snapshot simply does not match.  The result never
/// holds the caller's own pid, and only processes owned by the caller's
/// user.
pub fn find_processes_by_name(
    entries: &Vec<ProcEntry>,
    caller: &CallerId,
    name_pattern: &str,
    args_pattern: Option<&str>,
) -> (r: Vec<ProcessRecord>)
    ensures
        records_model(r@) == matching_records(
            (QueryModel::NameContains {
                pattern: name_pattern@,
                args_pattern: match args_pattern {
                    Some(ap) => Some(ap@),
                    None => None,
                },
            }),
            *caller,
            entries@,
        ),
        forall|i: int| 0 <= i < r@.len() ==> (#[trigger] r@[i]).pid != caller.pid,
        forall|i: int|
            0 <= i < r@.len() ==> owned_by_caller(entries@, *caller, (#[trigger] r@[i]).pid as int),
{
    let q = ScanQuery::NameContains {
        pattern: name_pattern.to_owned(),
        args_pattern: match args_pattern {
            Some(ap) => Some(ap.to_owned()),
            None => None,
        },
    };
    let r = scan_snapshot(&q, caller, entries);
    proof {
        lemma_scan_result_ownership(q@, *caller, entries@, r@);
    }
    r
}

/// From `records_model(r) == matching_records(..)` it follows that every
/// record avoids the caller's pid and names a process of the caller's
/// user.
pub proof fn lemma_scan_result_ownership(
    q: QueryModel,
    caller: CallerId,
    entries: Seq<ProcEntry>,
    r: Seq<ProcessRecord>,
)
    requires
        records_model(r) == matching_records(q, caller, entries),
    ensures
        forall|i: int| 0 <= i < r.len() ==> (#[trigger] r[i]).pid != caller.pid,
        forall|i: int|
            0 <= i < r.len() ==> owned_by_caller(entries, caller, (#[trigger] r[i]).pid as int),
{
    assert forall|i: int| 0 <= i < r.len() implies (#[trigger] r[i]).pid != caller.pid
        && owned_by_caller(entries, caller, r[i].pid as int) by {
        assert(records_model(r)[i] == r[i]@);
        lemma_matching_records_elements(q, caller, entries, i);
        let j = choose|j: int|
            0 <= j < entries.len() && entry_matches(q, caller, #[trigger] entries[j])
                && matching_records(q, caller, entries)[i] == (
                entries[j].pid as int,
                record_name(q, entries[j]),
            );
        assert(r[i].pid as int == entries[j].pid as int);
        assert(0 <= j < entries.len() && entries[j].uid == caller.uid && entries[j].pid as int
            == r[i].pid as int);
    }
}

/// The signal one termination pass uses: graceful or forceful.
#[derive(Clone, Copy, PartialEq, Eq, Structural, Debug)]
pub enum SignalKind {
    /// Graceful termination request.
    Term,
    /// Immediate, unconditional kill.
    Kill,
}

/// One planned delivery: a signal of `kind` to `pid`.
#[derive(Clone, Copy, PartialEq, Eq, Structural, Debug)]
pub struct SignalRequest {
    pub pid: i32,
    pub kind: SignalKind,
}

/// The kind a pass chooses: `Kill` when forceful, else `Term`.
pub open spec fn chosen_kind(forceful: bool) -> SignalKind {
    if forceful {
        SignalKind::Kill
    } else {
        SignalKind::Term
    }
}

/// Plans one termination pass: exactly one request per record, in order,
/// each carrying the record's pid and the graceful signal when `forceful`
/// is false, the forceful one when it is true.  Escalation from graceful
/// to forceful is the caller's business, never this function's.
pub fn termination_signals(records: &Vec<ProcessRecord>, forceful: bool) -> (plan: Vec<
    SignalRequest,
>)
    ensures
        plan@.len() == records@.len(),
        forall|i: int|
            0 <= i < plan@.len() ==> #[trigger] plan@[i] == (SignalRequest {
                pid: records@[i].pid,
                kind: chosen_kind(forceful),
            }),
{
    let mut plan: Vec<SignalRequest> = Vec::new();
    let kind = if forceful {
        SignalKind::Kill
    } else {
        SignalKind::Term
    };
    let mut i: usize = 0;
    while i < records.len()
        invariant
            i <= records@.len(),
            plan@.len() == i,
            kind == chosen_kind(forceful),
            forall|k: int|
                0 <= k < i ==> #[trigger] plan@[k] == (SignalRequest {
                    pid: records@[k].pid,
                    kind: chosen_kind(forceful),
                }),
        decreases records@.len() - i,
    {
        plan.push(SignalRequest { pid: records[i].pid, kind });
        i += 1;
    }
    plan
}

/// Relies on nix::sys::signal::kill: delivers SIGTERM to `pid` and reports
/// whether the kernel accepted the delivery.  Whether it is accepted
/// depends on the live process table, so nothing more is promised.
#[verifier::external_body]
fn send_sigterm(pid: i32) -> bool {
    nix::sys::signal::kill(nix::unistd::Pid::from_raw(pid), nix::sys::signal::Signal::SIGTERM)
        .is_ok()
}

/// Relies on nix::sys::signal::kill: delivers SIGKILL to `pid` and reports
/// whether the kernel accepted the delivery.  Whether it is accepted
/// depends on the live process table, so nothing more is promised.
#[verifier::external_body]
fn send_sigkill(pid: i32) -> bool {
    nix::sys::signal::kill(nix::unistd::Pid::from_raw(pid), nix::sys::signal::Signal::SIGKILL)
        .is_ok()
}

/// Delivers one pass of termination signals, exactly one per record as
/// [`termination_signals`] plans it, and counts the deliveries the kernel
/// accepted.  A failed delivery (the process is already gone, say) is not
/// counted and not retried.  How many succeed depends on the live process
/// table, so only the bound is promised.
pub fn kill_processes(records: &Vec<ProcessRecord>, forceful: bool) -> (killed: usize)
    ensures
        killed <= records@.len(),
{
    let plan = termination_signals(records, forceful);
    let mut killed: usize = 0;
    let mut i: usize = 0;
    while i < plan.len()
        invariant
            i <= plan@.len(),
            killed <= i,
        decreases plan@.len() - i,
    {
        let delivered = match plan[i].kind {
            SignalKind::Term => send_sigterm(plan[i].pid),
            SignalKind::Kill => send_sigkill(plan[i].pid),
        };
        if delivered {
            killed += 1;
        }
        i += 1;
    }
    killed
}

} // verus!
