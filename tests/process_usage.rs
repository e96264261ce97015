use std::sync::{Arc, Mutex};
use telemetry::process::{
    current_memory_bytes, get_memory_usage, sample_outcome, ProcessMonitor, Unavailable,
};
use telemetry::unsupported_gpu_percent;

#[test]
fn first_cpu_sample_needs_no_baseline() {
    let mut monitor = ProcessMonitor::new();
    let pid = monitor.sample_cpu().expect("first sample");
    let usage = monitor.process(pid).expect("process in snapshot").cpu_usage();
    assert!(usage >= 0.0);
    let pid_again = monitor.sample_cpu().expect("second sample");
    assert_eq!(pid, pid_again);
}

#[test]
fn memory_reads_are_stable() {
    let a = current_memory_bytes().expect("first read");
    let b = current_memory_bytes().expect("second read");
    assert!(a > 0 && b > 0);
    let (lo, hi) = if a < b { (a, b) } else { (b, a) };
    assert!(hi - lo < 256 * 1024 * 1024);
}

#[test]
fn shared_monitor_many_callers() {
    let monitor = Arc::new(Mutex::new(ProcessMonitor::new()));
    let callers: Vec<Arc<Mutex<ProcessMonitor>>> = (0..8).map(|_| Arc::clone(&monitor)).collect();
    for caller in callers {
        let reading = match caller.lock() {
            Ok(mut guard) => match guard.sample_cpu() {
                Ok(pid) => match guard.process(pid) {
                    Some(p) => Ok(p.cpu_usage()),
                    None => Err(Unavailable::ProcessNotFound),
                },
                Err(e) => Err(e),
            },
            Err(_) => Err(Unavailable::ProcessNotFound),
        };
        match reading {
            Ok(v) => assert!(v.is_finite() && v >= 0.0),
            Err(e) => assert_eq!(e, Unavailable::ProcessNotFound),
        }
    }
}

#[test]
fn fresh_process_end_to_end() {
    let bytes = get_memory_usage().expect("memory");
    assert!(bytes > 0);
    let mut monitor = ProcessMonitor::new();
    let pid = monitor.sample_cpu().expect("cpu");
    let v = monitor.process(pid).unwrap().cpu_usage();
    assert!(0.0 <= v);
    assert_eq!(unsupported_gpu_percent(), None);
}

#[test]
fn unavailable_messages() {
    assert_eq!(Unavailable::ProcessNotFound.message(), "Could not find current process");
}

#[test]
fn monitor_without_sample_holds_nothing() {
    let monitor = ProcessMonitor::new();
    assert!(monitor.process(1).is_none());
}

#[test]
fn sample_outcome_depends_on_pid_and_lookup() {
    assert_eq!(sample_outcome(Some(42), true), Ok(42));
    assert_eq!(sample_outcome(Some(42), false), Err(Unavailable::ProcessNotFound));
    assert_eq!(sample_outcome(None, true), Err(Unavailable::ProcessNotFound));
    assert_eq!(sample_outcome(None, false), Err(Unavailable::ProcessNotFound));
}
