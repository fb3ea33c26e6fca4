use forza::metrics::{metric_names, readings, start_marker, MemoryUsage, PluginKind, ProcessCounts, Sample};
use forza::plugins::{Heartbeat, Memory, Processes};

fn pairs(v: &[forza::metrics::Reading]) -> Vec<(String, u64)> {
    v.iter().map(|r| (r.name.clone(), r.value)).collect()
}

#[test]
fn memory_sample_gives_three_readings() {
    let r = Memory::send(MemoryUsage { total: 1000, used: 400, free: 600 });
    assert_eq!(
        pairs(&r),
        vec![
            ("memory.total".to_string(), 1000),
            ("memory.used".to_string(), 400),
            ("memory.free".to_string(), 600),
        ]
    );
}

#[test]
fn memory_usage_from_total_and_free() {
    assert_eq!(MemoryUsage::from_total_free(1000, 600), MemoryUsage { total: 1000, used: 400, free: 600 });
    assert_eq!(MemoryUsage::from_total_free(5, 9).used, 0);
}

#[test]
fn processes_sample_gives_three_readings() {
    let r = Processes::send(ProcessCounts { total: 512, running: 3, blocked: 1 });
    assert_eq!(
        pairs(&r),
        vec![
            ("processes".to_string(), 512),
            ("processes.running".to_string(), 3),
            ("processes.blocked".to_string(), 1),
        ]
    );
}

#[test]
fn heartbeat_sample_gives_one_reading() {
    assert_eq!(pairs(&Heartbeat::send()), vec![("heartbeat".to_string(), 1)]);
    assert_eq!(pairs(&readings(&Sample::Heartbeat)), vec![("heartbeat".to_string(), 1)]);
}

#[test]
fn load_average_names() {
    assert_eq!(
        metric_names(PluginKind::LoadAverage),
        vec!["load_average.1".to_string(), "load_average.5".to_string(), "load_average.15".to_string()]
    );
}

#[test]
fn start_marker_name() {
    assert_eq!(start_marker(), "forza.start");
}
