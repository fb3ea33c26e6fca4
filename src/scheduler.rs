use vstd::prelude::*;
use crate::metrics::{Reading, Sample, batch_spec, names_of, metric_names_spec, readings, readings_view, sample_kind, lemma_batch_names};

verus! {

/// Where a plugin's recurring loop stands.
#[derive(PartialEq, Eq, Structural, Clone, Copy, Debug)]
pub enum Phase {
    /// Built, not yet started.
    Idle,
    /// A call of the plugin's sample operation is in progress.
    Sampling,
    /// Suspended between two samples.
    Waiting,
    /// The plugin's sample operation failed; this plugin runs no more.
    Stopped,
}

/// What the execution path that hosts a plugin reports back to its scheduler.
#[derive(PartialEq, Eq, Structural, Clone, Copy, Debug)]
pub enum Event {
    /// The plugin's execution path has been launched.
    Start,
    /// The sample operation returned normally.
    SampleDone,
    /// The sample operation failed (its data source was unreadable).
    SampleFailed,
    /// The timed suspension is over.
    WakeUp,
}

/// What the hosting execution path is to do next.
#[derive(PartialEq, Eq, Structural, Clone, Copy, Debug)]
pub enum Action {
    /// Call the plugin's sample operation once, then report how it went.
    Sample,
    /// Suspend this execution path for the given number of seconds, then wake up.
    Sleep(u64),
    /// End this plugin's execution path; other plugins go on.
    Stop,
    /// The event did not fit the current phase and was ignored.
    Nothing,
}

/// The decisions of one plugin's recurring loop: sample at once on start, then
/// alternate a wait of `period` seconds and a sample, strictly in sequence.
/// A failed sample stops this plugin only.
#[derive(PartialEq, Eq, Structural, Clone, Copy, Debug)]
pub struct Scheduler {
    pub period: u64,
    pub phase: Phase,
}

/// A scheduler that has not been started yet.
pub open spec fn fresh(period: u64) -> Scheduler {
    Scheduler { period, phase: Phase::Idle }
}

/// One transition: the next state and the action to perform.
pub open spec fn next(s: Scheduler, e: Event) -> (Scheduler, Action) {
    match (s.phase, e) {
        (Phase::Idle, Event::Start) => (Scheduler { phase: Phase::Sampling, ..s }, Action::Sample),
        (Phase::Sampling, Event::SampleDone) => (
            Scheduler { phase: Phase::Waiting, ..s },
            Action::Sleep(s.period),
        ),
        (Phase::Sampling, Event::SampleFailed) => (
            Scheduler { phase: Phase::Stopped, ..s },
            Action::Stop,
        ),
        (Phase::Waiting, Event::WakeUp) => (Scheduler { phase: Phase::Sampling, ..s }, Action::Sample),
        _ => (s, Action::Nothing),
    }
}


/// Runs a scheduler over a sequence of events: its last state and the actions it gave.
pub open spec fn run(s: Scheduler, evs: Seq<Event>) -> (Scheduler, Seq<Action>)
    decreases evs.len(),
{
    if evs.len() == 0 {
        (s, Seq::empty())
    } else {
        let (p, acts) = run(s, evs.drop_last());
        let (q, a) = next(p, evs.last());
        (q, acts.push(a))
    }
}

/// How many times the actions ask for a sample.
pub open spec fn count_samples(acts: Seq<Action>) -> nat
    decreases acts.len(),
{
    if acts.len() == 0 {
        0
    } else {
        count_samples(acts.drop_last()) + if acts.last() == Action::Sample { 1nat } else { 0nat }
    }
}

/// How many of the events report that a sample call returned, normally or by failing.
pub open spec fn count_returns(evs: Seq<Event>) -> nat
    decreases evs.len(),
{
    if evs.len() == 0 {
        0
    } else {
        count_returns(evs.drop_last()) + if evs.last() == Event::SampleDone || evs.last()
            == Event::SampleFailed {
            1nat
        } else {
            0nat
        }
    }
}

/// Sample calls never overlap: over any run of a fresh scheduler, the samples it
/// asked for exceed the sample calls reported as returned by at most one, and by
/// one exactly while a call is in progress. Since this holds of every prefix of a
/// run, a new sample is asked for only after the previous one has returned.
pub proof fn lemma_samples_never_overlap(period: u64, evs: Seq<Event>)
    ensures
        count_samples(run(fresh(period), evs).1) <= count_returns(evs) + if run(
            fresh(period),
            evs,
        ).0.phase == Phase::Sampling {
            1nat
        } else {
            0nat
        },
        count_samples(run(fresh(period), evs).1) <= count_returns(evs) + 1,
        run(fresh(period), evs).0.period == period,
    decreases evs.len(),
{
    if evs.len() > 0 {
        let prefix = evs.drop_last();
        lemma_samples_never_overlap(period, prefix);
        let (p, acts) = run(fresh(period), prefix);
        let (q, a) = next(p, evs.last());
        assert(run(fresh(period), evs) == (q, acts.push(a)));
        assert(acts.push(a).drop_last() == acts);
        assert(evs.drop_last() == prefix);
    }
}

impl Scheduler {
    pub fn new(period: u64) -> (r: Scheduler)
        ensures
            r == fresh(period),
    {
        Scheduler { period, phase: Phase::Idle }
    }

    /// Feeds one event to the loop and returns what to do next.
    pub fn step(&mut self, e: Event) -> (r: Action)
        ensures
            (*final(self), r) == next(*old(self), e),
    {
        match (self.phase, e) {
            (Phase::Idle, Event::Start) => {
                self.phase = Phase::Sampling;
                Action::Sample
            },
            (Phase::Sampling, Event::SampleDone) => {
                self.phase = Phase::Waiting;
                Action::Sleep(self.period)
            },
            (Phase::Sampling, Event::SampleFailed) => {
                self.phase = Phase::Stopped;
                Action::Stop
            },
            (Phase::Waiting, Event::WakeUp) => {
                self.phase = Phase::Sampling;
                Action::Sample
            },
            _ => Action::Nothing,
        }
    }
}

/// How many samples a scheduler with the given period takes within `duration`
/// seconds of starting: one at each whole multiple of the period before the end.
pub open spec fn ticks_within(period: nat, duration: nat) -> nat
    recommends
        period > 0,
{
    if duration == 0 {
        0
    } else {
        ((duration - 1) as nat / period + 1) as nat
    }
}

/// Over exactly `n` periods a scheduler takes exactly `n` samples, and each
/// sample's batch carries the fixed names of its plugin's kind.
pub proof fn lemma_whole_periods(s: Sample, period: u64, n: nat)
    requires
        period > 0,
    ensures
        ticks_within(period as nat, n * period as nat) == n,
        names_of(batch_spec(s)) == metric_names_spec(sample_kind(s)),
{
    lemma_batch_names(s);
    if n > 0 {
        assert(n * period >= period) by (nonlinear_arith)
            requires
                n > 0,
        ;
        let d = (n * period - 1) as nat;
        assert(d == (n - 1) * period + (period - 1)) by (nonlinear_arith)
            requires
                d == n * period - 1,
                n > 0,
        ;
        vstd::arithmetic::div_mod::lemma_fundamental_div_mod_converse(
            d as int,
            period as int,
            (n - 1) as int,
            (period - 1) as int,
        );
    } else {
        assert(n * period == 0);
    }
}

/// Drives a fresh scheduler on a simulated clock for `duration` seconds, where a
/// sample takes no time and a wait advances the clock by exactly the period
/// asked for; returns the batch emitted at each sample taken before the end.
pub fn simulate(sample: &Sample, period: u64, duration: u64) -> (r: Vec<Vec<Reading>>)
    requires
        period > 0,
    ensures
        r@.len() == ticks_within(period as nat, duration as nat),
        forall|i: int| 0 <= i < r@.len() ==> readings_view(#[trigger] r@[i]@) == batch_spec(*sample),
{
    let mut batches: Vec<Vec<Reading>> = Vec::new();
    if duration == 0 {
        return batches;
    }
    let mut sched = Scheduler::new(period);
    let mut action = sched.step(Event::Start);
    let mut clock: u64 = 0;
    let ghost mut k: nat = 0;
    loop
        invariant_except_break
            action == Action::Sample,
            sched == (Scheduler { period, phase: Phase::Sampling }),
            batches@.len() == k,
        invariant
            period > 0,
            clock == k * period,
            clock < duration,
            forall|i: int|
                0 <= i < batches@.len() ==> readings_view(#[trigger] batches@[i]@) == batch_spec(
                    *sample,
                ),
        ensures
            batches@.len() == k + 1,
            duration - clock <= period,
        decreases duration - clock,
    {
        batches.push(readings(sample));
        let wait = sched.step(Event::SampleDone);
        let secs: u64 = match wait {
            Action::Sleep(secs) => secs,
            _ => period,
        };
        if secs >= duration - clock {
            break;
        }
        clock = clock + secs;
        action = sched.step(Event::WakeUp);
        proof {
            k = k + 1;
            assert(clock == k * period) by (nonlinear_arith)
                requires
                    clock == (k - 1) * period + period,
            ;
        }
    }
    proof {
        let d = (duration - 1) as nat;
        assert(d == k * period + (d - clock));
        vstd::arithmetic::div_mod::lemma_fundamental_div_mod_converse(
            d as int,
            period as int,
            k as int,
            (d - clock) as int,
        );
    }
    batches
}

} // verus!
