use vstd::prelude::*;
use crate::config::{ConfigError, MetricsVar, sink_address, sink_address_spec};
use crate::metrics::{PluginKind, start_marker, start_marker_spec};
use crate::scheduler::{Action, Event, Phase, Scheduler, next, run};

verus! {

/// The plugins the agent runs, one of each kind, in launch order.
pub open spec fn all_kinds() -> Seq<PluginKind> {
    seq![PluginKind::Heartbeat, PluginKind::Memory, PluginKind::LoadAverage, PluginKind::Processes]
}

/// What the host program does at startup, in order: connect the sink to
/// `address`, emit the marker metric `marker`, then launch one independent
/// execution path per plugin kind and keep the process alive for good.
pub struct Startup {
    pub address: String,
    pub marker: String,
    pub plugins: Vec<PluginKind>,
}

/// The plugins the agent runs, one of each kind, in launch order.
pub fn plugin_kinds() -> (r: Vec<PluginKind>)
    ensures
        r@ == all_kinds(),
{
    let r: Vec<PluginKind> = vec![
        PluginKind::Heartbeat,
        PluginKind::Memory,
        PluginKind::LoadAverage,
        PluginKind::Processes,
    ];
    assert(r@ =~= all_kinds());
    r
}

/// Decides the startup for what the environment holds about the collector's
/// address; an address that is not text aborts before any plugin starts.
pub fn startup(var: MetricsVar) -> (r: Result<Startup, ConfigError>)
    ensures
        match (r, sink_address_spec(var)) {
            (Ok(s), Ok(a)) => s.address@ == a && s.marker@ == start_marker_spec() && s.plugins@
                == all_kinds(),
            (Err(e), Err(f)) => e == f,
            _ => false,
        },
{
    match sink_address(var) {
        Ok(address) => Ok(Startup { address, marker: start_marker(), plugins: plugin_kinds() }),
        Err(e) => Err(e),
    }
}

/// The states of several plugins after a sequence of events, each addressed to
/// one plugin by its index, in the order in which they happened.
pub open spec fn run_all(ps: Seq<Scheduler>, trace: Seq<(int, Event)>) -> Seq<Scheduler>
    decreases trace.len(),
{
    if trace.len() == 0 {
        ps
    } else {
        let qs = run_all(ps, trace.drop_last());
        let (i, e) = trace.last();
        if 0 <= i < qs.len() {
            qs.update(i, next(qs[i], e).0)
        } else {
            qs
        }
    }
}

/// The events of a trace addressed to plugin `j`, in order.
pub open spec fn events_for(trace: Seq<(int, Event)>, j: int) -> Seq<Event>
    decreases trace.len(),
{
    if trace.len() == 0 {
        Seq::empty()
    } else if trace.last().0 == j {
        events_for(trace.drop_last(), j).push(trace.last().1)
    } else {
        events_for(trace.drop_last(), j)
    }
}

/// Plugins are isolated: however the events of several plugins interleave,
/// each plugin ends where its own events alone would take it. A plugin whose
/// samples fail, stall or tick cannot change how another one ticks.
pub proof fn lemma_plugins_isolated(ps: Seq<Scheduler>, trace: Seq<(int, Event)>, j: int)
    requires
        0 <= j < ps.len(),
    ensures
        run_all(ps, trace).len() == ps.len(),
        run_all(ps, trace)[j] == run(ps[j], events_for(trace, j)).0,
    decreases trace.len(),
{
    if trace.len() > 0 {
        let prefix = trace.drop_last();
        lemma_plugins_isolated(ps, prefix, j);
        let evs = events_for(prefix, j);
        if trace.last().0 == j {
            let full = evs.push(trace.last().1);
            assert(full.drop_last() == evs);
        }
    }
}

/// A plugin whose sample failed runs no more: every later event is ignored,
/// and the failure reaches no other plugin.
pub proof fn lemma_stopped_stays_stopped(s: Scheduler, evs: Seq<Event>)
    requires
        s.phase == Phase::Stopped,
    ensures
        run(s, evs).0 == s,
        forall|i: int| 0 <= i < evs.len() ==> #[trigger] run(s, evs).1[i] == Action::Nothing,
        run(s, evs).1.len() == evs.len(),
    decreases evs.len(),
{
    if evs.len() > 0 {
        lemma_stopped_stays_stopped(s, evs.drop_last());
    }
}

} // verus!
