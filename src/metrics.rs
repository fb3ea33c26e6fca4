use vstd::prelude::*;

verus! {

/// The kinds of plugin the agent runs, one instance of each.
#[derive(PartialEq, Eq, Structural, Clone, Copy, Debug)]
pub enum PluginKind {
    Heartbeat,
    Memory,
    LoadAverage,
    Processes,
}

/// One named numeric observation, forwarded to the sink as soon as it is made.
#[derive(Clone, Debug)]
pub struct Reading {
    pub name: String,
    pub value: u64,
}

impl View for Reading {
    type V = (Seq<char>, u64);

    open spec fn view(&self) -> (Seq<char>, u64) {
        (self.name@, self.value)
    }
}

/// Total, used and free memory, as the memory plugin's data source reports them.
#[derive(PartialEq, Eq, Structural, Clone, Copy, Debug)]
pub struct MemoryUsage {
    pub total: u64,
    pub used: u64,
    pub free: u64,
}

impl MemoryUsage {
    /// The usage for the total and free amounts the data source reports: what
    /// is not free is used.
    pub fn from_total_free(total: u64, free: u64) -> (r: MemoryUsage)
        ensures
            r.total == total,
            r.free == free,
            r.used == if free <= total { (total - free) as u64 } else { 0 },
    {
        let used: u64 = if free <= total { total - free } else { 0 };
        MemoryUsage { total, used, free }
    }
}

/// Process counts, as the processes plugin's data source reports them.
#[derive(PartialEq, Eq, Structural, Clone, Copy, Debug)]
pub struct ProcessCounts {
    pub total: u32,
    pub running: u32,
    pub blocked: u32,
}

/// What one call of a plugin's sample operation read from its data source.
/// Load averages are fractional and are emitted by the host program itself.
#[derive(PartialEq, Eq, Structural, Clone, Copy, Debug)]
pub enum Sample {
    Heartbeat,
    Memory(MemoryUsage),
    Processes(ProcessCounts),
}

/// The value of the heartbeat counter at each tick.
pub const HEARTBEAT_VALUE: u64 = 1;

/// The metric marking the start of the whole agent.
pub open spec fn start_marker_spec() -> Seq<char> {
    "forza.start"@
}

/// The fixed names a plugin of the given kind emits at each tick, in order.
pub open spec fn metric_names_spec(kind: PluginKind) -> Seq<Seq<char>> {
    match kind {
        PluginKind::Heartbeat => seq!["heartbeat"@],
        PluginKind::Memory => seq!["memory.total"@, "memory.used"@, "memory.free"@],
        PluginKind::LoadAverage => seq![
            "load_average.1"@,
            "load_average.5"@,
            "load_average.15"@,
        ],
        PluginKind::Processes => seq![
            "processes"@,
            "processes.running"@,
            "processes.blocked"@,
        ],
    }
}

/// The kind of plugin that takes a sample of this shape.
pub open spec fn sample_kind(s: Sample) -> PluginKind {
    match s {
        Sample::Heartbeat => PluginKind::Heartbeat,
        Sample::Memory(_) => PluginKind::Memory,
        Sample::Processes(_) => PluginKind::Processes,
    }
}

/// The values emitted for a sample, in the order of the kind's names.
pub open spec fn sample_values(s: Sample) -> Seq<u64> {
    match s {
        Sample::Heartbeat => seq![HEARTBEAT_VALUE],
        Sample::Memory(m) => seq![m.total, m.used, m.free],
        Sample::Processes(p) => seq![p.total as u64, p.running as u64, p.blocked as u64],
    }
}

/// The batch of readings one tick emits: each fixed name with its value.
pub open spec fn batch_spec(s: Sample) -> Seq<(Seq<char>, u64)> {
    let names = metric_names_spec(sample_kind(s));
    let values = sample_values(s);
    Seq::new(names.len(), |i: int| (names[i], values[i]))
}

/// The view of a sequence of readings.
pub open spec fn readings_view(v: Seq<Reading>) -> Seq<(Seq<char>, u64)> {
    v.map_values(|r: Reading| r@)
}

/// The contents of a sequence of strings.
pub open spec fn strings_view(v: Seq<String>) -> Seq<Seq<char>> {
    v.map_values(|n: String| n@)
}

/// The names of a batch of readings, in order.
pub open spec fn names_of(b: Seq<(Seq<char>, u64)>) -> Seq<Seq<char>> {
    b.map_values(|r: (Seq<char>, u64)| r.0)
}

/// Every batch carries exactly the fixed names of its plugin's kind.
pub proof fn lemma_batch_names(s: Sample)
    ensures
        names_of(batch_spec(s)) == metric_names_spec(sample_kind(s)),
        batch_spec(s).len() == sample_values(s).len(),
{
    reveal_strlit("heartbeat");
    assert(names_of(batch_spec(s)) =~= metric_names_spec(sample_kind(s)));
}

/// The name of the marker metric emitted once when the agent starts.
pub fn start_marker() -> (r: String)
    ensures
        r@ == start_marker_spec(),
{
    "forza.start".to_owned()
}

/// The fixed names a plugin of the given kind emits at each tick.
pub fn metric_names(kind: PluginKind) -> (r: Vec<String>)
    ensures
        strings_view(r@) == metric_names_spec(kind),
        r@.len() == metric_names_spec(kind).len(),
{
    let mut r: Vec<String> = Vec::new();
    match kind {
        PluginKind::Heartbeat => {
            r.push("heartbeat".to_owned());
        },
        PluginKind::Memory => {
            r.push("memory.total".to_owned());
            r.push("memory.used".to_owned());
            r.push("memory.free".to_owned());
        },
        PluginKind::LoadAverage => {
            r.push("load_average.1".to_owned());
            r.push("load_average.5".to_owned());
            r.push("load_average.15".to_owned());
        },
        PluginKind::Processes => {
            r.push("processes".to_owned());
            r.push("processes.running".to_owned());
            r.push("processes.blocked".to_owned());
        },
    }
    assert(strings_view(r@) =~= metric_names_spec(kind));
    r
}

/// The readings one tick emits for what the sample operation read: one per
/// fixed name of the plugin's kind, in order.
pub fn readings(s: &Sample) -> (r: Vec<Reading>)
    ensures
        readings_view(r@) == batch_spec(*s),
{
    let mut r: Vec<Reading> = Vec::new();
    match s {
        Sample::Heartbeat => {
            let names = metric_names(PluginKind::Heartbeat);
            assert(names@[0]@ == strings_view(names@)[0]);
            r.push(Reading { name: names[0].clone(), value: HEARTBEAT_VALUE });
        },
        Sample::Memory(m) => {
            let names = metric_names(PluginKind::Memory);
            assert(names@.len() == 3);
            assert(forall|i: int|
                0 <= i < 3 ==> names@[i]@ == #[trigger] strings_view(names@)[i]);
            r.push(Reading { name: names[0].clone(), value: m.total });
            r.push(Reading { name: names[1].clone(), value: m.used });
            r.push(Reading { name: names[2].clone(), value: m.free });
        },
        Sample::Processes(p) => {
            let names = metric_names(PluginKind::Processes);
            assert(names@.len() == 3);
            assert(forall|i: int|
                0 <= i < 3 ==> names@[i]@ == #[trigger] strings_view(names@)[i]);
            r.push(Reading { name: names[0].clone(), value: p.total as u64 });
            r.push(Reading { name: names[1].clone(), value: p.running as u64 });
            r.push(Reading { name: names[2].clone(), value: p.blocked as u64 });
        },
    }
    assert(readings_view(r@) =~= batch_spec(*s));
    r
}

} // verus!
