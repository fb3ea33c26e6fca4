use forza::metrics::{metric_names, MemoryUsage, PluginKind, Sample};
use forza::plugins::{start_plugin, Heartbeat, Plugin, Processes, PERIOD_SECONDS};
use forza::scheduler::{simulate, Action, Event, Phase, Scheduler};

#[test]
fn first_sample_comes_at_once() {
    let mut s = Scheduler::new(10);
    assert_eq!(s.step(Event::Start), Action::Sample);
    assert_eq!(s.phase, Phase::Sampling);
    assert_eq!(s.step(Event::SampleDone), Action::Sleep(10));
    assert_eq!(s.step(Event::WakeUp), Action::Sample);
}

#[test]
fn heartbeat_over_thirty_five_seconds_ticks_four_times() {
    let batches = simulate(&Sample::Heartbeat, 10, 35);
    assert_eq!(batches.len(), 4);
    for b in &batches {
        assert_eq!(b.len(), 1);
        assert_eq!(b[0].name, "heartbeat");
        assert_eq!(b[0].value, 1);
    }
}

#[test]
fn whole_periods_give_one_batch_each() {
    let usage = MemoryUsage { total: 1000, used: 400, free: 600 };
    let names = metric_names(PluginKind::Memory);
    for n in 0..6u64 {
        let batches = simulate(&Sample::Memory(usage), 7, n * 7);
        assert_eq!(batches.len() as u64, n);
        for b in &batches {
            let got: Vec<String> = b.iter().map(|r| r.name.clone()).collect();
            assert_eq!(got, names);
        }
    }
}

#[test]
fn simulate_edges() {
    assert_eq!(simulate(&Sample::Heartbeat, 10, 0).len(), 0);
    assert_eq!(simulate(&Sample::Heartbeat, 10, 1).len(), 1);
    assert_eq!(simulate(&Sample::Heartbeat, 10, 10).len(), 1);
    assert_eq!(simulate(&Sample::Heartbeat, 10, 11).len(), 2);
    assert_eq!(simulate(&Sample::Heartbeat, u64::MAX, u64::MAX).len(), 1);
}

#[test]
fn slow_sample_is_never_overlapped() {
    let mut s = Scheduler::new(10);
    assert_eq!(s.step(Event::Start), Action::Sample);
    // The sample runs longer than the period: wake-ups that arrive meanwhile
    // start nothing.
    assert_eq!(s.step(Event::WakeUp), Action::Nothing);
    assert_eq!(s.step(Event::WakeUp), Action::Nothing);
    assert_eq!(s.step(Event::Start), Action::Nothing);
    assert_eq!(s.step(Event::SampleDone), Action::Sleep(10));
    assert_eq!(s.step(Event::WakeUp), Action::Sample);
}

#[test]
fn failing_plugin_does_not_stop_another() {
    let mut failing = Scheduler::new(10);
    let mut healthy = Scheduler::new(10);
    assert_eq!(failing.step(Event::Start), Action::Sample);
    assert_eq!(healthy.step(Event::Start), Action::Sample);
    assert_eq!(failing.step(Event::SampleFailed), Action::Stop);
    let mut ticks = 1;
    for _ in 0..5 {
        assert_eq!(failing.step(Event::WakeUp), Action::Nothing);
        assert_eq!(healthy.step(Event::SampleDone), Action::Sleep(10));
        assert_eq!(healthy.step(Event::WakeUp), Action::Sample);
        ticks += 1;
    }
    assert_eq!(ticks, 6);
    assert_eq!(failing.phase, Phase::Stopped);
    assert_eq!(healthy.phase, Phase::Sampling);
}

#[test]
fn start_plugin_samples_first() {
    let mut p = Processes::new();
    assert_eq!(p.kind(), PluginKind::Processes);
    assert_eq!(start_plugin(&mut p), Action::Sample);
    assert_eq!(p.step(Event::SampleDone), Action::Sleep(PERIOD_SECONDS));
    let mut h = Heartbeat::new();
    assert_eq!(start_plugin(&mut h), Action::Sample);
    assert_eq!(start_plugin(&mut h), Action::Nothing);
}
