use portal_reset::dbus::BusPlan;
use portal_reset::dbus::ensure_fresh_plan;
use portal_reset::process::ProcessRecord;

fn bus(pid: i32) -> ProcessRecord {
    ProcessRecord { pid, name: "dbus-daemon".to_string() }
}

#[test]
fn no_bus_means_no_work() {
    // Idempotence: with no bus process the pass delivers no signal and
    // spawns nothing.
    match ensure_fresh_plan(Vec::new()) {
        BusPlan::AlreadyFresh => {}
        BusPlan::Restart(_) => panic!("an empty scan must plan no restart"),
    }
}

#[test]
fn one_stale_bus_is_replaced_by_exactly_one() {
    match ensure_fresh_plan(vec![bus(500)]) {
        BusPlan::AlreadyFresh => panic!("a stale bus must be restarted"),
        BusPlan::Restart(r) => {
            assert_eq!(r.to_terminate.len(), 1);
            assert_eq!(r.to_terminate[0].pid, 500);
            assert!(!r.forceful);
            // Exactly one new instance: the plan carries a single spawn.
            assert_eq!(r.spawn_command, "dbus-daemon");
            assert_eq!(r.spawn_args, vec!["--session", "--address=unix:runtime=yes"]);
        }
    }
}

#[test]
fn every_stale_bus_is_signalled_once() {
    match ensure_fresh_plan(vec![bus(500), bus(501), bus(502)]) {
        BusPlan::AlreadyFresh => panic!("stale buses must be restarted"),
        BusPlan::Restart(r) => {
            let pids: Vec<i32> = r.to_terminate.iter().map(|p| p.pid).collect();
            assert_eq!(pids, vec![500, 501, 502]);
        }
    }
}

#[test]
fn restart_waits_are_the_documented_ones() {
    match ensure_fresh_plan(vec![bus(500)]) {
        BusPlan::AlreadyFresh => panic!("a stale bus must be restarted"),
        BusPlan::Restart(r) => {
            assert_eq!(r.settle_millis, 500);
            assert_eq!(r.drain_polls, 10);
            assert_eq!(r.drain_interval_millis, 100);
            assert_eq!(r.post_spawn_settle_millis, 500);
        }
    }
}
