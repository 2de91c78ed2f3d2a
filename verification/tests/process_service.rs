use procmon::control::kill_process;
use procmon::listener::ProcessListener;
use procmon::record::TerminationOutcome;
use procmon::snapshot::get_processes;

fn busy_wait_ms(ms: u64) {
    let t = std::time::Instant::now();
    while (t.elapsed().as_millis() as u64) < ms {}
}

#[test]
fn test_get_processes() {
    let processes = get_processes().unwrap();
    assert!(!processes.is_empty(), "Process list should not be empty");
    assert!(
        processes.iter().all(|p| !p.name.is_empty()),
        "All Processes should have a name"
    );

    println!(
        "{:<10} {:<30} {:<10} {:<10}",
        "PID", "Name", "CPU (%)", "Memory (KB)"
    );
    for process in processes {
        println!(
            "{:<10} {:<30} {:<10.2} {:<10}",
            process.pid,
            process.name,
            process.cpu as f64 / 100.0,
            process.mem
        );
    }
}

#[test]
fn get_processes_cpu_within_one_core() {
    let processes = get_processes().unwrap();
    assert!(processes.iter().all(|p| p.cpu <= 10000));
}

#[test]
fn get_processes_pids_unique() {
    let processes = get_processes().unwrap();
    let mut pids: Vec<u32> = processes.iter().map(|p| p.pid).collect();
    let before = pids.len();
    pids.sort();
    pids.dedup();
    assert_eq!(pids.len(), before);
}

#[test]
fn listener_two_updates_within_seven_seconds() {
    // The polling loop's shape: snapshot, deliver, wait one period,
    // repeat while another delivery is due.
    let start = std::time::Instant::now();
    let mut listener = ProcessListener::new();
    assert!(listener.start());
    let mut deliveries: u32 = 0;
    while listener.should_poll() && deliveries < 2 {
        let update = get_processes().unwrap();
        assert!(!update.is_empty());
        deliveries += 1;
        if deliveries < 2 {
            busy_wait_ms(listener.period_ms);
        }
    }
    assert_eq!(deliveries, 2);
    assert!(start.elapsed().as_millis() < 7000);
    listener.stop();
    // Once the stop is observed, the loop owes the sink nothing more.
    assert!(!listener.should_poll());
}

#[test]
fn kill_unknown_pid_is_not_found() {
    // A pid far above any the OS hands out: asking to kill it is an
    // expected outcome, not a fault.
    let r = kill_process(3_999_999_999);
    assert_eq!(r.pid, 3_999_999_999);
    assert_eq!(r.outcome, TerminationOutcome::NotFound);
}

#[test]
fn kill_unknown_pid_twice_never_reports_killed() {
    let first = kill_process(3_999_999_998);
    let second = kill_process(3_999_999_998);
    let killed = [first.outcome, second.outcome]
        .iter()
        .filter(|o| **o == TerminationOutcome::Killed)
        .count();
    assert!(killed <= 1);
    assert_eq!(first.outcome, TerminationOutcome::NotFound);
    assert_eq!(second.outcome, TerminationOutcome::NotFound);
}
