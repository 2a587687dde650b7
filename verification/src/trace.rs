//! The supervisor and the slot taken together, over whole runs.
//!
//! A run starts in `Phase::Launching` with an empty slot and takes the
//! driver's signals one after the other. What is proved here holds of every
//! run, however long, and whatever the workers do.

use vstd::prelude::*;

use crate::event::{
    Channel, ExitInfo, LaunchFailure, UiEvent, UiEventView, WorkerEvent, WorkerEventView,
};
use crate::pump::{pumped, translated, PumpReport};
use crate::slot::slot_after;
use crate::supervisor::{
    directive_of, launch_failure_view, restarting_view, started_view, transition_of, Directive,
    Phase, Signal, RESTART_DELAY_SECS,
};

verus! {

/// The supervisor's phase, the slot's content, and all that the interface
/// has been told so far.
pub struct Bridge<H> {
    pub phase: Phase,
    pub slot: Option<H>,
    pub emitted: Seq<UiEventView>,
}

/// The state before the first signal.
pub open spec fn initial<H>() -> Bridge<H> {
    Bridge { phase: Phase::Launching, slot: None, emitted: Seq::empty() }
}

/// The state after one signal: the transition's phase, its slot operation
/// done, its event appended. `None` where the signal does not fit the phase.
pub open spec fn after<H>(bridge: Bridge<H>, signal: Signal<H>) -> Option<Bridge<H>> {
    match transition_of(bridge.phase, signal) {
        Some(transition) => Some(
            Bridge {
                phase: transition.next,
                slot: slot_after(bridge.slot, transition.slot),
                emitted: match transition.emit {
                    Some(ui) => bridge.emitted.push(ui),
                    None => bridge.emitted,
                },
            },
        ),
        None => None,
    }
}

/// The state after a run of signals from `start`; `None` where one of them
/// does not fit the phase in which it arrives.
pub open spec fn run<H>(start: Bridge<H>, signals: Seq<Signal<H>>) -> Option<Bridge<H>>
    decreases signals.len(),
{
    if signals.len() == 0 {
        Some(start)
    } else {
        match run(start, signals.drop_last()) {
            Some(bridge) => after(bridge, signals.last()),
            None => None,
        }
    }
}

/// Whether slot and phase agree: a handle is installed exactly while the
/// supervisor runs a worker or has yet to drain after one.
pub open spec fn coherent<H>(bridge: Bridge<H>) -> bool {
    bridge.slot is Some <==> (bridge.phase is Running || bridge.phase is Draining)
}

/// A transition keeps slot and phase in agreement.
pub proof fn lemma_after_keeps_coherent<H>(bridge: Bridge<H>, signal: Signal<H>)
    requires
        coherent(bridge),
    ensures
        after(bridge, signal) matches Some(next) ==> coherent(next),
{
}

/// In every state that a run from the start reaches, slot and phase agree.
pub proof fn lemma_run_keeps_coherent<H>(signals: Seq<Signal<H>>)
    ensures
        run(initial(), signals) matches Some(bridge) ==> coherent(bridge),
    decreases signals.len(),
{
    if signals.len() > 0 {
        lemma_run_keeps_coherent(signals.drop_last());
        match run(initial::<H>(), signals.drop_last()) {
            Some(bridge) => {
                lemma_after_keeps_coherent(bridge, signals.last());
            },
            None => {},
        }
    }
}

/// Whatever the workers do and however often they exit, outside
/// `Phase::Draining` the slot holds a handle if and only if the supervisor
/// is in `Phase::Running`. In `Phase::Draining` the handle of the worker
/// that has ended is still installed; the next transition clears it.
pub proof fn lemma_slot_holds_handle_iff_running<H>(signals: Seq<Signal<H>>)
    ensures
        run(initial(), signals) matches Some(bridge) ==> {
            &&& bridge.phase !is Draining ==> (bridge.slot is Some <==> bridge.phase is Running)
            &&& bridge.phase is Draining ==> bridge.slot is Some
        },
{
    lemma_run_keeps_coherent(signals);
}

/// The handle in the slot is the one that the last launch delivered.
pub proof fn lemma_installed_handle_is_the_launched<H>(bridge: Bridge<H>, handle: H)
    requires
        bridge.phase is Launching,
    ensures
        after(bridge, Signal::Launched(handle)) matches Some(next) && next.slot == Some(handle)
            && next.phase is Running,
{
}

/// A run over `first` and then `second` is the run over `second` from where
/// `first` ended.
pub proof fn lemma_run_concat<H>(start: Bridge<H>, first: Seq<Signal<H>>, second: Seq<Signal<H>>)
    ensures
        run(start, first + second) == match run(start, first) {
            Some(middle) => run(middle, second),
            None => None,
        },
    decreases second.len(),
{
    if second.len() == 0 {
        assert(first + second =~= first);
    } else {
        assert((first + second).drop_last() =~= first + second.drop_last());
        assert((first + second).last() == second.last());
        lemma_run_concat(start, first, second.drop_last());
    }
}

/// The signals of a worker that is launched and exits at once: the launch,
/// the exit as the stream's first event, the draining, the delay.
pub open spec fn exit_cycle<H>(handle: H, info: ExitInfo) -> Seq<Signal<H>> {
    seq![
        Signal::Launched(handle),
        Signal::Worker(WorkerEvent::Terminated(info)),
        Signal::Continue,
        Signal::DelayElapsed,
    ]
}

/// What the interface is told in one such cycle.
pub open spec fn exit_cycle_events(info: ExitInfo) -> Seq<UiEventView> {
    seq![started_view(), translated(WorkerEventView::Terminated(info)), restarting_view()]
}

/// One such cycle after the other, one for each worker.
pub open spec fn exit_cycles<H>(workers: Seq<(H, ExitInfo)>) -> Seq<Signal<H>>
    decreases workers.len(),
{
    if workers.len() == 0 {
        Seq::empty()
    } else {
        exit_cycles(workers.drop_last()) + exit_cycle(workers.last().0, workers.last().1)
    }
}

/// What the interface is told over these cycles.
pub open spec fn exit_cycles_events<H>(workers: Seq<(H, ExitInfo)>) -> Seq<UiEventView>
    decreases workers.len(),
{
    if workers.len() == 0 {
        Seq::empty()
    } else {
        exit_cycles_events(workers.drop_last()) + exit_cycle_events(workers.last().1)
    }
}

/// A worker that exits as soon as it is launched takes the supervisor from
/// `Phase::Launching` to `Phase::CoolingDown` with one event pumped and the
/// slot empty again. There the driver is told to wait the configured delay,
/// and the end of the delay leads back to `Phase::Launching`. The interface
/// has been told of the start, of the exit and of the coming restart.
pub proof fn lemma_exit_cycle<H>(start: Bridge<H>, handle: H, info: ExitInfo)
    requires
        start.phase is Launching,
        start.slot is None,
    ensures
        run(start, exit_cycle(handle, info).take(3)) == Some(
            Bridge {
                phase: Phase::CoolingDown,
                slot: None::<H>,
                emitted: start.emitted + exit_cycle_events(info),
            },
        ),
        directive_of(Phase::CoolingDown) == (Directive::Sleep { secs: RESTART_DELAY_SECS }),
        run(start, exit_cycle(handle, info)) == Some(
            Bridge {
                phase: Phase::Launching,
                slot: None::<H>,
                emitted: start.emitted + exit_cycle_events(info),
            },
        ),
{
    let cycle = exit_cycle(handle, info);
    let s0 = Seq::<Signal<H>>::empty();
    let s1 = cycle.take(1);
    let s2 = cycle.take(2);
    let s3 = cycle.take(3);
    assert(s1.drop_last() =~= s0);
    assert(s2.drop_last() =~= s1);
    assert(s3.drop_last() =~= s2);
    assert(cycle.drop_last() =~= s3);
    assert(run(start, s0) == Some(start));
    let b1 = Bridge {
        phase: Phase::Running,
        slot: Some(handle),
        emitted: start.emitted.push(started_view()),
    };
    assert(run(start, s1) == Some(b1));
    let b2 = Bridge {
        phase: Phase::Draining,
        slot: Some(handle),
        emitted: b1.emitted.push(translated(WorkerEventView::Terminated(info))),
    };
    assert(WorkerEvent::Terminated(info)@ == WorkerEventView::Terminated(info));
    assert(run(start, s2) == Some(b2));
    let b3 = Bridge {
        phase: Phase::CoolingDown,
        slot: None::<H>,
        emitted: b2.emitted.push(restarting_view()),
    };
    assert(run(start, s3) == Some(b3));
    assert(b3.emitted =~= start.emitted + exit_cycle_events(info));
}

/// Workers that each exit as soon as they are launched are restarted without
/// end: after any number of them the supervisor is launching again with an
/// empty slot, and the interface has been told of each start, each exit and
/// each restart, in that order and nothing else.
pub proof fn lemma_exit_cycles_restart_forever<H>(workers: Seq<(H, ExitInfo)>)
    ensures
        run(initial(), exit_cycles(workers)) == Some(
            Bridge {
                phase: Phase::Launching,
                slot: None::<H>,
                emitted: exit_cycles_events(workers),
            },
        ),
        exit_cycles_events(workers).len() == 3 * workers.len(),
    decreases workers.len(),
{
    if workers.len() > 0 {
        let before = workers.drop_last();
        let (handle, info) = workers.last();
        lemma_exit_cycles_restart_forever(before);
        let middle = Bridge {
            phase: Phase::Launching,
            slot: None::<H>,
            emitted: exit_cycles_events(before),
        };
        lemma_run_concat(initial(), exit_cycles(before), exit_cycle(handle, info));
        lemma_exit_cycle(middle, handle, info);
    }
}

/// No phase is the last: in each of them some signal is answered. A launch
/// can fail, a stream can close, and the draining and the delay come to an
/// end on their own.
pub proof fn lemma_no_phase_is_final<H>(phase: Phase, failure: LaunchFailure)
    ensures
        exists|signal: Signal<H>| transition_of(phase, signal) is Some,
{
    match phase {
        Phase::Launching => {
            assert(transition_of(phase, Signal::<H>::LaunchFailed(failure)) is Some);
        },
        Phase::Running => {
            assert(transition_of(phase, Signal::<H>::StreamClosed) is Some);
        },
        Phase::Draining => {
            assert(transition_of(phase, Signal::<H>::Continue) is Some);
        },
        Phase::CoolingDown => {
            assert(transition_of(phase, Signal::<H>::DelayElapsed) is Some);
        },
    }
}

/// Nothing but the end of the delay leads out of `Phase::CoolingDown`, and
/// it leads to `Phase::Launching` with the slot as it was and nothing told.
pub proof fn lemma_cooling_down_ends_with_the_delay<H>(bridge: Bridge<H>, signal: Signal<H>)
    requires
        bridge.phase is CoolingDown,
    ensures
        after(bridge, signal) is Some <==> signal is DelayElapsed,
        after(bridge, signal) matches Some(next) ==> next == (Bridge {
            phase: Phase::Launching,
            ..bridge
        }),
{
}

/// The signals of launches that all fail: each failure, then the delay.
pub open spec fn failed_launches<H>(failures: Seq<LaunchFailure>) -> Seq<Signal<H>>
    decreases failures.len(),
{
    if failures.len() == 0 {
        Seq::empty()
    } else {
        failed_launches(failures.drop_last()).push(Signal::LaunchFailed(failures.last())).push(
            Signal::DelayElapsed,
        )
    }
}

/// What the interface is told of these failures: one event each, with the
/// failure's reason.
pub open spec fn failed_launches_events(failures: Seq<LaunchFailure>) -> Seq<UiEventView> {
    Seq::new(failures.len(), |i: int| launch_failure_view(failures[i]@))
}

/// A launch that fails is tried again after the delay, and so is every one
/// after it: after any number of failures the supervisor is launching again
/// with an empty slot. The interface has been told of each failure, in
/// order, on the error channel, and of no start.
pub proof fn lemma_failed_launches_are_retried<H>(failures: Seq<LaunchFailure>)
    ensures
        run(initial::<H>(), failed_launches(failures)) == Some(
            Bridge {
                phase: Phase::Launching,
                slot: None::<H>,
                emitted: failed_launches_events(failures),
            },
        ),
        forall|i: int|
            0 <= i < failures.len() ==> (#[trigger] failed_launches_events(failures)[i]).channel
                == Channel::Error,
    decreases failures.len(),
{
    if failures.len() == 0 {
        assert(failed_launches_events(failures) =~= Seq::empty());
    } else {
        let before = failures.drop_last();
        lemma_failed_launches_are_retried::<H>(before);
        let signals = failed_launches::<H>(failures);
        let failed = failed_launches::<H>(before).push(Signal::LaunchFailed(failures.last()));
        assert(signals.drop_last() =~= failed);
        assert(failed.drop_last() =~= failed_launches::<H>(before));
        assert(failed_launches_events(failures) =~= failed_launches_events(before).push(
            launch_failure_view(failures.last()@),
        ));
        let cooling = Bridge {
            phase: Phase::CoolingDown,
            slot: None::<H>,
            emitted: failed_launches_events(failures),
        };
        assert(run(initial::<H>(), failed) == Some(cooling));
    }
}

/// The signals by which the driver reports the events of `stream`.
pub open spec fn worker_signals<H>(stream: Seq<WorkerEvent>) -> Seq<Signal<H>> {
    Seq::new(stream.len(), |i: int| Signal::Worker(stream[i]))
}

/// The events of `emitted` as contracts speak of them.
pub open spec fn views(emitted: Seq<UiEvent>) -> Seq<UiEventView> {
    Seq::new(emitted.len(), |i: int| emitted[i]@)
}

proof fn lemma_running_takes_prefix<H>(
    start: Bridge<H>,
    stream: Seq<WorkerEvent>,
    report: PumpReport,
    k: int,
)
    requires
        start.phase is Running,
        pumped(stream, report),
        0 <= k <= report.consumed,
    ensures
        run(start, worker_signals(stream.take(k))) == Some(
            Bridge {
                phase: if k > 0 && stream[k - 1]@ is Terminated {
                    Phase::Draining
                } else {
                    Phase::Running
                },
                slot: start.slot,
                emitted: start.emitted + views(report.emitted@).take(k),
            },
        ),
    decreases k,
{
    let signals = worker_signals::<H>(stream.take(k));
    if k == 0 {
        assert(start.emitted + views(report.emitted@).take(0) =~= start.emitted);
    } else {
        lemma_running_takes_prefix(start, stream, report, k - 1);
        assert(signals.drop_last() =~= worker_signals::<H>(stream.take(k - 1)));
        assert(signals.last() == Signal::<H>::Worker(stream[k - 1]));
        if k - 1 > 0 {
            assert(!(stream[k - 2]@ is Terminated));
        }
        assert(report.emitted@[k - 1]@ == translated(stream[k - 1]@));
        assert(views(report.emitted@).take(k) =~= views(report.emitted@).take(k - 1).push(
            report.emitted@[k - 1]@,
        ));
        assert(start.emitted + views(report.emitted@).take(k) =~= (start.emitted + views(
            report.emitted@,
        ).take(k - 1)).push(report.emitted@[k - 1]@));
    }
}

/// While it runs a worker, the supervisor does what the pump does: fed the
/// events that the pump takes from `stream`, it tells the interface what the
/// pump emits, leaves the slot alone, and goes on to drain exactly where the
/// pump reports the worker's exit.
pub proof fn lemma_running_follows_the_pump<H>(
    start: Bridge<H>,
    stream: Seq<WorkerEvent>,
    report: PumpReport,
)
    requires
        start.phase is Running,
        pumped(stream, report),
    ensures
        run(start, worker_signals(stream.take(report.consumed as int))) == Some(
            Bridge {
                phase: if report.terminated {
                    Phase::Draining
                } else {
                    Phase::Running
                },
                slot: start.slot,
                emitted: start.emitted + views(report.emitted@),
            },
        ),
{
    lemma_running_takes_prefix(start, stream, report, report.consumed as int);
    assert(views(report.emitted@).take(report.consumed as int) =~= views(report.emitted@));
}

} // verus!
