//! What holds of all the calls on one plugin together, which threads make at the
//! same time, one after the other, and from within each other.

use crate::gate::{
    law_leave_undoes_enter, law_one_thread_inside, law_reentry, GateEvent, GateRun, GateView,
};
use crate::host_call::{kind_of, reply_for, HostCallView, HostEventView, RegistryAccess};
use crate::host_call_laws::{law_answer, outcome_for, plugin_found, HostRun};
use crate::types::RawMessage;
use vstd::prelude::*;

verus! {

/// A call, the thread that makes it, and the access to the registry that it needs.
pub struct ThreadCall<P, H, E> {
    pub thread: u64,
    pub access: RegistryAccess,
    pub run: HostRun<P, H, E>,
}

impl<P, H, E> ThreadCall<P, H, E> {
    /// The call has entered the plugin's dispatch gate and not left it. The plugin
    /// runs for it while it is `Dispatching`.
    pub open spec fn inside(self) -> bool {
        self.run.call is Dispatching || self.run.call is Leaving
    }

    /// The call has got the registry's lock, and has not been told that it is
    /// given back.
    pub open spec fn holds_lock(self) -> bool {
        match self.run.call {
            HostCallView::Locking { .. } => false,
            HostCallView::Releasing { .. } => true,
            HostCallView::Entering { locked, .. } => locked,
            HostCallView::Dispatching { locked, .. } => locked,
            HostCallView::Leaving { locked, .. } => locked,
            HostCallView::Unlocking { .. } => true,
            HostCallView::Finished => false,
        }
    }
}

/// What happens: a thread makes a call, or a call goes on.
pub enum TrafficEvent<P, S, M, H, E> {
    Begin { thread: u64, module: Seq<char>, access: RegistryAccess, message: RawMessage<H> },
    Progress { index: int, event: HostEventView<P, S, M, E> },
}

/// The calls on one plugin, in the order in which they were made, and what they
/// did at the plugin's dispatch gate.
pub struct Traffic<P, H, E> {
    pub calls: Seq<ThreadCall<P, H, E>>,
    pub gate_events: Seq<GateEvent>,
}

impl<P, H, E> Traffic<P, H, E> {
    pub open spec fn start() -> Self {
        Traffic { calls: Seq::empty(), gate_events: Seq::empty() }
    }

    pub open spec fn gate(self) -> GateRun {
        GateRun::after(self.gate_events)
    }

    /// No other call keeps the call from getting the registry's lock: those that
    /// read share it, and one that changes the registry has it alone.
    pub open spec fn lock_open(self, index: int) -> bool {
        forall|other: int|
            0 <= other < self.calls.len() && other != index && (
            #[trigger] self.calls[other]).holds_lock() ==> {
                &&& self.calls[other].access == RegistryAccess::Shared
                &&& self.calls[index].access == RegistryAccess::Shared
            }
    }

    /// The event can come now. Calls can be made at any time, also from within a
    /// call. A call gets the lock when it is open, and enters the dispatch gate
    /// when its thread is let in; nothing else makes a call wait for another one.
    pub open spec fn allows<S, M>(self, event: TrafficEvent<P, S, M, H, E>) -> bool {
        match event {
            TrafficEvent::Begin { .. } => true,
            TrafficEvent::Progress { index, event } => {
                &&& 0 <= index < self.calls.len()
                &&& self.calls[index].run.call.expects(event)
                &&& event is Locked ==> self.lock_open(index)
                &&& event is Entered ==> self.gate().gate.admits(self.calls[index].thread)
            },
        }
    }

    pub open spec fn step<S, M>(self, event: TrafficEvent<P, S, M, H, E>) -> Self {
        match event {
            TrafficEvent::Begin { thread, module, access, message } => Traffic {
                calls: self.calls.push(
                    ThreadCall { thread, access, run: HostRun::start(module, access, message) },
                ),
                gate_events: self.gate_events,
            },
            TrafficEvent::Progress { index, event } => {
                let call = self.calls[index];
                Traffic {
                    calls: self.calls.update(
                        index,
                        ThreadCall { run: call.run.step(event), ..call },
                    ),
                    gate_events: match event {
                        HostEventView::Entered => self.gate_events.push(
                            GateEvent::Enter(call.thread),
                        ),
                        HostEventView::Left => self.gate_events.push(GateEvent::Leave(call.thread)),
                        _ => self.gate_events,
                    },
                }
            },
        }
    }

    /// What the events make of a plugin that nobody has called.
    pub open spec fn after<S, M>(events: Seq<TrafficEvent<P, S, M, H, E>>) -> Self
        decreases events.len(),
    {
        if events.len() == 0 {
            Traffic::start()
        } else {
            Self::after(events.drop_last()).step(events.last())
        }
    }

    /// Each of the events could come when it came.
    pub open spec fn legal<S, M>(events: Seq<TrafficEvent<P, S, M, H, E>>) -> bool
        decreases events.len(),
    {
        events.len() == 0 || {
            &&& Self::legal(events.drop_last())
            &&& Self::after(events.drop_last()).allows(events.last())
        }
    }

    spec fn inv(self) -> bool {
        &&& GateRun::legal(self.gate_events)
        &&& forall|thread: u64| #[trigger]
            self.gate().inside.count(thread) == inside_count(self.calls, thread)
        &&& forall|index: int|
            0 <= index < self.calls.len() ==> (#[trigger] self.calls[index]).run.inv(
                self.calls[index].access,
            )
        &&& forall|index: int|
            0 <= index < self.calls.len() && (#[trigger] self.calls[index]).holds_lock()
                ==> self.lock_open(index)
    }
}

/// How many calls of the thread are inside the plugin's dispatch gate.
pub open spec fn inside_count<P, H, E>(calls: Seq<ThreadCall<P, H, E>>, thread: u64) -> nat
    decreases calls.len(),
{
    if calls.len() == 0 {
        0
    } else {
        let last: nat = if calls.last().thread == thread && calls.last().inside() {
            1
        } else {
            0
        };
        inside_count(calls.drop_last(), thread) + last
    }
}

proof fn lemma_count_push<P, H, E>(
    calls: Seq<ThreadCall<P, H, E>>,
    call: ThreadCall<P, H, E>,
    thread: u64,
)
    requires
        !call.inside(),
    ensures
        inside_count(calls.push(call), thread) == inside_count(calls, thread),
{
    assert(calls.push(call).drop_last() == calls);
}

proof fn lemma_count_update<P, H, E>(
    calls: Seq<ThreadCall<P, H, E>>,
    index: int,
    call: ThreadCall<P, H, E>,
    thread: u64,
)
    requires
        0 <= index < calls.len(),
        call.thread == calls[index].thread,
    ensures
        call.thread != thread || call.inside() == calls[index].inside() ==> inside_count(
            calls.update(index, call),
            thread,
        ) == inside_count(calls, thread),
        call.thread == thread && call.inside() && !calls[index].inside() ==> inside_count(
            calls.update(index, call),
            thread,
        ) == inside_count(calls, thread) + 1,
        call.thread == thread && !call.inside() && calls[index].inside() ==> inside_count(
            calls.update(index, call),
            thread,
        ) + 1 == inside_count(calls, thread),
    decreases calls.len(),
{
    let updated = calls.update(index, call);
    if index == calls.len() - 1 {
        assert(updated.drop_last() == calls.drop_last());
    } else {
        assert(updated.drop_last() == calls.drop_last().update(index, call));
        lemma_count_update(calls.drop_last(), index, call, thread);
    }
}

proof fn lemma_count_positive<P, H, E>(calls: Seq<ThreadCall<P, H, E>>, index: int)
    requires
        0 <= index < calls.len(),
        calls[index].inside(),
    ensures
        inside_count(calls, calls[index].thread) > 0,
    decreases calls.len(),
{
    if index < calls.len() - 1 {
        lemma_count_positive(calls.drop_last(), index);
    }
}

proof fn lemma_step_keeps_inv<P, S, M, H, E>(
    traffic: Traffic<P, H, E>,
    event: TrafficEvent<P, S, M, H, E>,
)
    requires
        traffic.inv(),
        traffic.allows(event),
    ensures
        traffic.step(event).inv(),
{
    broadcast use vstd::multiset::group_multiset_axioms;

    let next = traffic.step(event);
    match event {
        TrafficEvent::Begin { thread, module, access, message } => {
            let call = next.calls.last();
            assert forall|thread: u64| #[trigger]
                next.gate().inside.count(thread) == inside_count(next.calls, thread) by {
                assert(traffic.gate().inside.count(thread) == inside_count(traffic.calls, thread));
                lemma_count_push(traffic.calls, call, thread);
            }
            assert forall|index: int|
                0 <= index < next.calls.len() && (#[trigger] next.calls[index]).holds_lock() implies
                next.lock_open(index) by {
                assert(next.calls[index] == traffic.calls[index]);
                assert(traffic.lock_open(index));
            }
        },
        TrafficEvent::Progress { index, event } => {
            let call = traffic.calls[index];
            let advanced = next.calls[index];
            assert(call.run.inv(call.access));
            assert(advanced.run.inv(advanced.access));
            if event is Entered || event is Left {
                assert(next.gate_events.drop_last() == traffic.gate_events);
            }
            if event is Left {
                lemma_count_positive(traffic.calls, index);
                assert(traffic.gate().inside.count(call.thread) > 0);
            }
            assert(GateRun::legal(next.gate_events));
            assert forall|thread: u64| #[trigger]
                next.gate().inside.count(thread) == inside_count(next.calls, thread) by {
                assert(traffic.gate().inside.count(thread) == inside_count(traffic.calls, thread));
                lemma_count_update(traffic.calls, index, advanced, thread);
            }
            assert forall|holder: int|
                0 <= holder < next.calls.len() && (
                #[trigger] next.calls[holder]).holds_lock() implies next.lock_open(holder) by {
                if holder != index {
                    assert(next.calls[holder] == traffic.calls[holder]);
                    assert(traffic.lock_open(holder));
                    assert(call.holds_lock() || event is Locked || !advanced.holds_lock());
                    if event is Locked {
                        assert(traffic.lock_open(index));
                    }
                } else {
                    if event is Locked {
                        assert(traffic.lock_open(index));
                    } else {
                        assert(call.holds_lock());
                        assert(traffic.lock_open(index));
                    }
                }
            }
        },
    }
}

proof fn lemma_inv<P, S, M, H, E>(events: Seq<TrafficEvent<P, S, M, H, E>>)
    requires
        Traffic::<P, H, E>::legal(events),
    ensures
        Traffic::<P, H, E>::after(events).inv(),
    decreases events.len(),
{
    if events.len() > 0 {
        lemma_inv(events.drop_last());
        lemma_step_keeps_inv(Traffic::<P, H, E>::after(events.drop_last()), events.last());
    } else {
        broadcast use vstd::multiset::group_multiset_axioms;

    }
}

/// The dispatch gate serializes the threads: at any time, all the calls for which
/// the plugin runs, or which have not left it yet, are calls of one thread. So
/// the runs of two threads never overlap.
pub proof fn law_threads_never_overlap<P, S, M, H, E>(
    events: Seq<TrafficEvent<P, S, M, H, E>>,
    first: int,
    second: int,
)
    requires
        Traffic::<P, H, E>::legal(events),
        0 <= first < Traffic::<P, H, E>::after(events).calls.len(),
        0 <= second < Traffic::<P, H, E>::after(events).calls.len(),
        Traffic::<P, H, E>::after(events).calls[first].inside(),
        Traffic::<P, H, E>::after(events).calls[second].inside(),
    ensures
        Traffic::<P, H, E>::after(events).calls[first].thread == Traffic::<P, H, E>::after(
            events,
        ).calls[second].thread,
{
    let traffic = Traffic::<P, H, E>::after(events);
    lemma_inv(events);
    lemma_count_positive(traffic.calls, first);
    lemma_count_positive(traffic.calls, second);
    law_one_thread_inside(traffic.gate_events);
    assert(traffic.gate().inside.count(traffic.calls[first].thread) > 0);
    assert(traffic.gate().inside.count(traffic.calls[second].thread) > 0);
}

/// As long as a call is inside, a call that waits to be let in is let in at once
/// if it is one of the same thread, and not at all if it is one of another.
pub proof fn law_same_thread_is_let_in<P, S, M, H, E>(
    events: Seq<TrafficEvent<P, S, M, H, E>>,
    outer: int,
    inner: int,
)
    requires
        Traffic::<P, H, E>::legal(events),
        0 <= outer < Traffic::<P, H, E>::after(events).calls.len(),
        0 <= inner < Traffic::<P, H, E>::after(events).calls.len(),
        Traffic::<P, H, E>::after(events).calls[outer].inside(),
        Traffic::<P, H, E>::after(events).calls[inner].run.call is Entering,
    ensures
        Traffic::<P, H, E>::after(events).allows(
            TrafficEvent::<P, S, M, H, E>::Progress { index: inner, event: HostEventView::Entered },
        ) <==> Traffic::<P, H, E>::after(events).calls[inner].thread == Traffic::<P, H, E>::after(
            events,
        ).calls[outer].thread,
{
    let traffic = Traffic::<P, H, E>::after(events);
    lemma_inv(events);
    lemma_count_positive(traffic.calls, outer);
    assert(traffic.gate().inside.count(traffic.calls[outer].thread) > 0);
    law_reentry(
        traffic.gate_events,
        traffic.calls[outer].thread,
        traffic.calls[inner].thread,
    );
}

/// While a call that needs exclusive access runs its plugin, no other call holds
/// the registry's lock.
pub proof fn law_exclusive_call_has_the_lock_alone<P, S, M, H, E>(
    events: Seq<TrafficEvent<P, S, M, H, E>>,
    index: int,
    other: int,
)
    requires
        Traffic::<P, H, E>::legal(events),
        0 <= index < Traffic::<P, H, E>::after(events).calls.len(),
        0 <= other < Traffic::<P, H, E>::after(events).calls.len(),
        other != index,
        Traffic::<P, H, E>::after(events).calls[index].access == RegistryAccess::Exclusive,
        Traffic::<P, H, E>::after(events).calls[index].run.call is Dispatching,
    ensures
        !Traffic::<P, H, E>::after(events).calls[other].holds_lock(),
{
    let traffic = Traffic::<P, H, E>::after(events);
    lemma_inv(events);
    assert(traffic.calls[index].run.inv(RegistryAccess::Exclusive));
    assert(traffic.calls[index].holds_lock());
    assert(traffic.lock_open(index));
}

/// The events of one call, as they come among the calls.
pub open spec fn events_of<P, S, M, H, E>(
    index: int,
    events: Seq<HostEventView<P, S, M, E>>,
) -> Seq<TrafficEvent<P, S, M, H, E>> {
    Seq::new(events.len(), |i: int| TrafficEvent::Progress { index, event: events[i] })
}

/// No thread but `thread` has a call that is not over, and what it has are calls
/// that run the plugin with shared access.
pub open spec fn alone<P, H, E>(traffic: Traffic<P, H, E>, thread: u64) -> bool {
    forall|index: int|
        0 <= index < traffic.calls.len() ==> {
            ||| (#[trigger] traffic.calls[index]).run.call is Finished
            ||| {
                &&& traffic.calls[index].thread == thread
                &&& traffic.calls[index].access == RegistryAccess::Shared
                &&& traffic.calls[index].run.call is Dispatching
            }
        }
}

proof fn lemma_nested<P, S, M, H, E>(
    events: Seq<TrafficEvent<P, S, M, H, E>>,
    outer: int,
    inner: int,
    nested: Seq<HostEventView<P, S, M, E>>,
    base: GateView,
)
    requires
        Traffic::<P, H, E>::legal(events),
        ({
            let traffic = Traffic::<P, H, E>::after(events);
            &&& 0 <= outer < traffic.calls.len()
            &&& 0 <= inner < traffic.calls.len()
            &&& outer != inner
            &&& traffic.calls[outer].run.call is Dispatching
            &&& traffic.calls[outer].thread == traffic.calls[inner].thread
            &&& forall|other: int|
                0 <= other < traffic.calls.len() && other != inner ==> !(
                #[trigger] traffic.calls[other]).holds_lock()
            &&& traffic.calls[inner].run.legal(nested)
            &&& base.wf()
            &&& base.owner == Some(traffic.calls[outer].thread)
            &&& traffic.gate().gate == (if traffic.calls[inner].inside() {
                base.entered(traffic.calls[outer].thread)
            } else {
                base
            })
        }),
    ensures
        ({
            let before = Traffic::<P, H, E>::after(events);
            let traffic = Traffic::<P, H, E>::after(events + events_of(inner, nested));
            &&& Traffic::<P, H, E>::legal(events + events_of(inner, nested))
            &&& traffic.calls == before.calls.update(
                inner,
                ThreadCall { run: before.calls[inner].run.after(nested), ..before.calls[inner] },
            )
            &&& traffic.gate().gate == (if traffic.calls[inner].inside() {
                base.entered(before.calls[outer].thread)
            } else {
                base
            })
        }),
    decreases nested.len(),
{
    let before = Traffic::<P, H, E>::after(events);
    let all = events_of::<P, S, M, H, E>(inner, nested);
    if nested.len() == 0 {
        assert(events + all == events);
        assert(before.calls.update(inner, before.calls[inner]) == before.calls);
    } else {
        let event = TrafficEvent::<P, S, M, H, E>::Progress { index: inner, event: nested.first() };
        let first = events.push(event);
        let rest = nested.drop_first();
        let thread = before.calls[inner].thread;
        assert(first.drop_last() == events);
        assert(before.allows(event));
        assert(Traffic::<P, H, E>::legal(first));
        let next = Traffic::<P, H, E>::after(first);
        assert(next == before.step(event));
        if nested.first() is Entered || nested.first() is Left {
            assert(next.gate_events.drop_last() == before.gate_events);
        }
        law_leave_undoes_enter(base, thread);
        assert forall|other: int| 0 <= other < next.calls.len() && other != inner implies !(
        #[trigger] next.calls[other]).holds_lock() by {
            assert(next.calls[other] == before.calls[other]);
        }
        lemma_nested(first, outer, inner, rest, base);
        assert(events + all == first + events_of(inner, rest));
    }
}

/// A call from within a call gets through. If a thread is in the code of the
/// plugin, by an ordinary action, and no other thread is calling, then whatever
/// call the thread makes, with whatever action, nothing keeps it waiting: neither
/// the registry's lock nor the plugin's dispatch gate. The inner message reaches
/// the plugin, and the answer is the one that the inner call would get alone. It
/// leaves the outer call and the dispatch gate as they were, and no other thread
/// is let in throughout.
pub proof fn law_call_within_call<P, S, M, H, E>(
    events: Seq<TrafficEvent<P, S, M, H, E>>,
    outer: int,
    module: Seq<char>,
    access: RegistryAccess,
    message: RawMessage<H>,
    nested: Seq<HostEventView<P, S, M, E>>,
)
    requires
        Traffic::<P, H, E>::legal(events),
        0 <= outer < Traffic::<P, H, E>::after(events).calls.len(),
        Traffic::<P, H, E>::after(events).calls[outer].run.call is Dispatching,
        alone(
            Traffic::<P, H, E>::after(events),
            Traffic::<P, H, E>::after(events).calls[outer].thread,
        ),
        HostRun::<P, H, E>::start(module, access, message).legal(nested),
    ensures
        ({
            let before = Traffic::<P, H, E>::after(events);
            let thread = before.calls[outer].thread;
            let inner = before.calls.len() as int;
            let begun = events.push(TrafficEvent::Begin { thread, module, access, message });
            let within = begun + events_of(inner, nested);
            let traffic = Traffic::<P, H, E>::after(within);
            let run = HostRun::<P, H, E>::start(module, access, message).after(nested);
            &&& Traffic::<P, H, E>::legal(within)
            &&& traffic.calls == before.calls.push(ThreadCall { thread, access, run })
            &&& forall|other: u64| other != thread ==> !#[trigger] traffic.gate().gate.admits(other)
            &&& run.call is Finished ==> {
                &&& traffic.gate().gate == before.gate().gate
                &&& run.trail.dispatched == (match plugin_found(nested[0]->Locked_0, module) {
                    None => Seq::empty(),
                    Some(plugin) => seq![(plugin, message)],
                })
                &&& run.trail.reply == Some(
                    reply_for(
                        kind_of(message),
                        module,
                        outcome_for(
                            nested[0]->Locked_0,
                            module,
                            nested[if access == RegistryAccess::Shared {
                                3
                            } else {
                                2
                            }],
                        ),
                    ),
                )
            }
        }),
{
    let before = Traffic::<P, H, E>::after(events);
    let thread = before.calls[outer].thread;
    let inner = before.calls.len() as int;
    let begin = TrafficEvent::<P, S, M, H, E>::Begin { thread, module, access, message };
    let begun = events.push(begin);
    assert(begun.drop_last() == events);
    let traffic = Traffic::<P, H, E>::after(begun);
    assert(traffic == before.step(begin));
    lemma_inv(events);
    lemma_count_positive(before.calls, outer);
    assert(before.gate().inside.count(thread) > 0);
    law_one_thread_inside(before.gate_events);
    assert forall|other: int| 0 <= other < traffic.calls.len() && other != inner implies !(
    #[trigger] traffic.calls[other]).holds_lock() by {
        assert(traffic.calls[other] == before.calls[other]);
        assert(before.calls[other].run.inv(before.calls[other].access));
    }
    lemma_nested(begun, outer, inner, nested, before.gate().gate);
    let run = HostRun::<P, H, E>::start(module, access, message).after(nested);
    let call = ThreadCall { thread, access, run };
    assert(traffic.calls.update(inner, call) == before.calls.push(call));
    if run.call is Finished {
        law_answer(module, access, message, nested);
    }
}

} // verus!
