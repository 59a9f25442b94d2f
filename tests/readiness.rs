use tauri_plugin_radkit::readiness::{
    next_probe_step, ProbeStep, StartupError, PROBE_INTERVAL_MS, RETRY_BUDGET,
};

fn run_poll(probes: &[bool]) -> (ProbeStep, usize) {
    let mut failures: u32 = 0;
    let mut used = 0;
    for &reachable in probes {
        used += 1;
        match next_probe_step(failures, RETRY_BUDGET, reachable) {
            ProbeStep::Retry { failures: f, delay_ms } => {
                assert_eq!(delay_ms, PROBE_INTERVAL_MS);
                failures = f;
            }
            done => return (done, used),
        }
    }
    (ProbeStep::Retry { failures, delay_ms: PROBE_INTERVAL_MS }, used)
}

#[test]
fn ready_after_three_failures() {
    let (step, used) = run_poll(&[false, false, false, true, true]);
    assert_eq!(step, ProbeStep::Ready { retries: 3 });
    assert_eq!(used, 4);
}

#[test]
fn ready_at_first_probe() {
    assert_eq!(next_probe_step(0, RETRY_BUDGET, true), ProbeStep::Ready { retries: 0 });
}

#[test]
fn times_out_after_exactly_the_budget() {
    let probes = vec![false; 200];
    let (step, used) = run_poll(&probes);
    assert_eq!(step, ProbeStep::TimedOut { attempts: RETRY_BUDGET });
    assert_eq!(used, RETRY_BUDGET as usize);
}

#[test]
fn ready_on_last_allowed_probe() {
    let mut probes = vec![false; (RETRY_BUDGET - 1) as usize];
    probes.push(true);
    let (step, _) = run_poll(&probes);
    assert_eq!(step, ProbeStep::Ready { retries: RETRY_BUDGET - 1 });
}

#[test]
fn single_probe_budget() {
    assert_eq!(next_probe_step(0, 1, false), ProbeStep::TimedOut { attempts: 1 });
    assert_eq!(next_probe_step(0, 2, false), ProbeStep::Retry { failures: 1, delay_ms: 200 });
}

#[test]
fn startup_error_messages() {
    assert_eq!(StartupError::Timeout.message(), "Failed to start agent server");
    assert_eq!(
        StartupError::Bind("in use".to_string()).message(),
        "failed to bind a local port: in use"
    );
    assert_eq!(
        StartupError::Client("refused".to_string()).message(),
        "failed to connect to the agent server: refused"
    );
    assert_eq!(
        StartupError::Spawn("no runtime".to_string()).message(),
        "failed to start the agent server: no runtime"
    );
}
