use vstd::prelude::*;
use crate::metrics::{
    MemoryUsage, PluginKind, ProcessCounts, Reading, Sample, batch_spec, readings, readings_view,
};
use crate::scheduler::{Action, Event, Scheduler, fresh, next};

verus! {

/// The period, in seconds, between two samples of every plugin.
pub const PERIOD_SECONDS: u64 = 10;

/// A plugin: one kind of host signal, sampled on its own recurring schedule.
/// The host program performs each action a plugin returns and reports back.
pub trait Plugin {
    /// The state of the plugin's recurring loop.
    spec fn schedule(&self) -> Scheduler;

    /// The kind of signal this plugin samples.
    spec fn plugin_kind(&self) -> PluginKind;

    /// The kind of signal this plugin samples.
    fn kind(&self) -> (r: PluginKind)
        ensures
            r == self.plugin_kind(),
    ;

    /// Feeds one event to the plugin's loop and returns what to do next.
    fn step(&mut self, e: Event) -> (r: Action)
        ensures
            (final(self).schedule(), r) == next(old(self).schedule(), e),
    ;
}

/// Starts a plugin: its loop takes the first sample at once.
pub fn start_plugin<T: Plugin>(plugin: &mut T) -> (r: Action)
    ensures
        (final(plugin).schedule(), r) == next(old(plugin).schedule(), Event::Start),
        old(plugin).schedule() == fresh(old(plugin).schedule().period) ==> r == Action::Sample,
{
    plugin.step(Event::Start)
}

/// The liveness plugin: a constant counter at each tick.
pub struct Heartbeat {
    scheduler: Scheduler,
}

/// The memory plugin: total, used and free memory at each tick.
pub struct Memory {
    scheduler: Scheduler,
}

/// The load-average plugin: the 1, 5 and 15 minute load averages at each tick.
pub struct LoadAverage {
    scheduler: Scheduler,
}

/// The processes plugin: total, running and blocked process counts at each tick.
pub struct Processes {
    scheduler: Scheduler,
}

impl Heartbeat {
    pub fn new() -> (r: Heartbeat)
        ensures
            r.schedule() == fresh(PERIOD_SECONDS),
            r.plugin_kind() == PluginKind::Heartbeat,
    {
        Heartbeat { scheduler: Scheduler::new(PERIOD_SECONDS) }
    }

    /// The readings of one tick.
    pub fn send() -> (r: Vec<Reading>)
        ensures
            readings_view(r@) == batch_spec(Sample::Heartbeat),
    {
        readings(&Sample::Heartbeat)
    }
}

impl Memory {
    pub fn new() -> (r: Memory)
        ensures
            r.schedule() == fresh(PERIOD_SECONDS),
            r.plugin_kind() == PluginKind::Memory,
    {
        Memory { scheduler: Scheduler::new(PERIOD_SECONDS) }
    }

    /// The readings of one tick, from what the data source reported.
    pub fn send(usage: MemoryUsage) -> (r: Vec<Reading>)
        ensures
            readings_view(r@) == batch_spec(Sample::Memory(usage)),
    {
        readings(&Sample::Memory(usage))
    }
}

impl LoadAverage {
    pub fn new() -> (r: LoadAverage)
        ensures
            r.schedule() == fresh(PERIOD_SECONDS),
            r.plugin_kind() == PluginKind::LoadAverage,
    {
        LoadAverage { scheduler: Scheduler::new(PERIOD_SECONDS) }
    }
}

impl Processes {
    pub fn new() -> (r: Processes)
        ensures
            r.schedule() == fresh(PERIOD_SECONDS),
            r.plugin_kind() == PluginKind::Processes,
    {
        Processes { scheduler: Scheduler::new(PERIOD_SECONDS) }
    }

    /// The readings of one tick, from what the data source reported.
    pub fn send(counts: ProcessCounts) -> (r: Vec<Reading>)
        ensures
            readings_view(r@) == batch_spec(Sample::Processes(counts)),
    {
        readings(&Sample::Processes(counts))
    }
}

impl Plugin for Heartbeat {
    closed spec fn schedule(&self) -> Scheduler {
        self.scheduler
    }

    open spec fn plugin_kind(&self) -> PluginKind {
        PluginKind::Heartbeat
    }

    fn kind(&self) -> (r: PluginKind) {
        PluginKind::Heartbeat
    }

    fn step(&mut self, e: Event) -> (r: Action) {
        self.scheduler.step(e)
    }
}

impl Plugin for Memory {
    closed spec fn schedule(&self) -> Scheduler {
        self.scheduler
    }

    open spec fn plugin_kind(&self) -> PluginKind {
        PluginKind::Memory
    }

    fn kind(&self) -> (r: PluginKind) {
        PluginKind::Memory
    }

    fn step(&mut self, e: Event) -> (r: Action) {
        self.scheduler.step(e)
    }
}

impl Plugin for LoadAverage {
    closed spec fn schedule(&self) -> Scheduler {
        self.scheduler
    }

    open spec fn plugin_kind(&self) -> PluginKind {
        PluginKind::LoadAverage
    }

    fn kind(&self) -> (r: PluginKind) {
        PluginKind::LoadAverage
    }

    fn step(&mut self, e: Event) -> (r: Action) {
        self.scheduler.step(e)
    }
}

impl Plugin for Processes {
    closed spec fn schedule(&self) -> Scheduler {
        self.scheduler
    }

    open spec fn plugin_kind(&self) -> PluginKind {
        PluginKind::Processes
    }

    fn kind(&self) -> (r: PluginKind) {
        PluginKind::Processes
    }

    fn step(&mut self, e: Event) -> (r: Action) {
        self.scheduler.step(e)
    }
}

} // verus!
