//! The dispatch gate that serializes the calls into one plugin.
//!
//! A host may call a plugin from several threads at a time, and may call it
//! again from within a call, on the same thread. The dispatch gate lets one
//! thread in at a time, and lets that thread in as often as it asks.

use vstd::multiset::Multiset;
use vstd::prelude::*;

verus! {

/// Who is inside the dispatch gate, and how many times over.
pub struct GateView {
    pub owner: Option<u64>,
    pub depth: nat,
}

impl GateView {
    /// Nobody is inside.
    pub open spec fn free() -> GateView {
        GateView { owner: None, depth: 0 }
    }

    /// A thread is inside exactly while it has calls to leave.
    pub open spec fn wf(self) -> bool {
        self.owner is Some <==> self.depth > 0
    }

    /// Whether `thread` may enter now. All others wait.
    pub open spec fn admits(self, thread: u64) -> bool {
        self.owner is None || self.owner == Some(thread)
    }

    /// The dispatch gate once `thread` has entered.
    pub open spec fn entered(self, thread: u64) -> GateView {
        GateView { owner: Some(thread), depth: self.depth + 1 }
    }

    /// The dispatch gate once its owner has left one time.
    pub open spec fn left(self) -> GateView {
        if self.depth == 1 {
            GateView::free()
        } else {
            GateView { owner: self.owner, depth: (self.depth - 1) as nat }
        }
    }
}

/// The state of a dispatch gate, which whoever reads or changes it holds alone.
pub struct DispatchGateState {
    owner: Option<u64>,
    depth: usize,
}

impl View for DispatchGateState {
    type V = GateView;

    closed spec fn view(&self) -> GateView {
        GateView { owner: self.owner, depth: self.depth as nat }
    }
}

impl DispatchGateState {
    #[verifier::type_invariant]
    spec fn inv(self) -> bool {
        self@.wf()
    }

    pub fn new() -> (gate: Self)
        ensures
            gate@ == GateView::free(),
    {
        DispatchGateState { owner: None, depth: 0 }
    }

    /// How many times the owner is inside.
    pub fn depth(&self) -> (depth: usize)
        ensures
            depth == self@.depth,
            self@.wf(),
    {
        proof {
            use_type_invariant(self);
        }
        self.depth
    }

    /// Asks for entry on behalf of `current_thread`: `true` when it is inside,
    /// `false` when it has to wait until the dispatch gate may have become free.
    pub fn enter(&mut self, current_thread: u64) -> (entered: bool)
        requires
            old(self)@.admits(current_thread) ==> old(self)@.depth < usize::MAX,
        ensures
            entered == old(self)@.admits(current_thread),
            final(self)@ == (if entered {
                old(self)@.entered(current_thread)
            } else {
                old(self)@
            }),
            final(self)@.wf(),
    {
        proof {
            use_type_invariant(&*self);
        }
        match self.owner {
            Some(owner) if owner != current_thread => false,
            _ => {
                *self = DispatchGateState { owner: Some(current_thread), depth: self.depth + 1 };
                true
            },
        }
    }

    /// Leaves the dispatch gate one time: `true` when it is free now, and one of
    /// those who wait is to be woken.
    pub fn leave(&mut self) -> (notify: bool)
        requires
            old(self)@.depth > 0,
        ensures
            final(self)@ == old(self)@.left(),
            notify == (final(self)@.owner is None),
            notify == (old(self)@.depth == 1),
            final(self)@.wf(),
    {
        proof {
            use_type_invariant(&*self);
        }
        let depth: usize = self.depth - 1;
        if depth == 0 {
            *self = DispatchGateState { owner: None, depth };
            true
        } else {
            *self = DispatchGateState { owner: self.owner, depth };
            false
        }
    }
}

/// What a thread does at the dispatch gate: ask for entry, or leave.
pub enum GateEvent {
    Enter(u64),
    Leave(u64),
}

/// A gate, and for each thread how many entries it has still to leave.
#[verifier::ext_equal]
pub struct GateRun {
    pub gate: GateView,
    pub inside: Multiset<u64>,
}

impl GateRun {
    pub open spec fn start() -> GateRun {
        GateRun { gate: GateView::free(), inside: Multiset::empty() }
    }

    /// Any thread may ask. Only one that entered leaves.
    pub open spec fn allows(self, event: GateEvent) -> bool {
        match event {
            GateEvent::Enter(_) => true,
            GateEvent::Leave(thread) => self.inside.count(thread) > 0,
        }
    }

    pub open spec fn step(self, event: GateEvent) -> GateRun {
        match event {
            GateEvent::Enter(thread) => if self.gate.admits(thread) {
                GateRun { gate: self.gate.entered(thread), inside: self.inside.insert(thread) }
            } else {
                self
            },
            GateEvent::Leave(thread) => GateRun {
                gate: self.gate.left(),
                inside: self.inside.remove(thread),
            },
        }
    }

    /// What `events` make of a gate that was free.
    pub open spec fn after(events: Seq<GateEvent>) -> GateRun
        decreases events.len(),
    {
        if events.len() == 0 {
            GateRun::start()
        } else {
            GateRun::after(events.drop_last()).step(events.last())
        }
    }

    /// Each of `events` was allowed when it came.
    pub open spec fn legal(events: Seq<GateEvent>) -> bool
        decreases events.len(),
    {
        events.len() == 0 || {
            &&& GateRun::legal(events.drop_last())
            &&& GateRun::after(events.drop_last()).allows(events.last())
        }
    }
}

/// The dispatch gate after its owner has left `times` times.
pub open spec fn left_times(gate: GateView, times: nat) -> GateView
    decreases times,
{
    if times == 0 {
        gate
    } else {
        left_times(gate, (times - 1) as nat).left()
    }
}

/// However threads enter and leave, at most one of them is inside at a time, the
/// gate knows which, and its depth is the number of entries still to leave.
pub proof fn law_one_thread_inside(events: Seq<GateEvent>)
    requires
        GateRun::legal(events),
    ensures
        GateRun::after(events).gate.wf(),
        GateRun::after(events).gate.depth == GateRun::after(events).inside.len(),
        forall|thread: u64| #[trigger]
            GateRun::after(events).inside.count(thread) > 0 ==> GateRun::after(events).gate.owner
                == Some(thread),
    decreases events.len(),
{
    broadcast use vstd::multiset::group_multiset_axioms;

    if events.len() > 0 {
        law_one_thread_inside(events.drop_last());
    }
}

/// A thread that is inside is let in again, at once, and no other thread is.
pub proof fn law_reentry(events: Seq<GateEvent>, inside: u64, thread: u64)
    requires
        GateRun::legal(events),
        GateRun::after(events).inside.count(inside) > 0,
    ensures
        GateRun::after(events).gate.admits(thread) == (thread == inside),
{
    law_one_thread_inside(events);
}

/// A thread that is inside can enter and leave once more. That brings everything
/// back to what it was, and no other thread can enter meanwhile or afterwards.
pub proof fn law_entry_within_entry(events: Seq<GateEvent>, thread: u64)
    requires
        GateRun::legal(events),
        GateRun::after(events).inside.count(thread) > 0,
    ensures
        ({
            let within = events.push(GateEvent::Enter(thread));
            let back = within.push(GateEvent::Leave(thread));
            &&& GateRun::legal(back)
            &&& GateRun::after(within).gate == GateRun::after(events).gate.entered(thread)
            &&& GateRun::after(back) == GateRun::after(events)
            &&& forall|other: u64|
                other != thread ==> {
                    &&& !#[trigger] GateRun::after(within).gate.admits(other)
                    &&& !GateRun::after(back).gate.admits(other)
                }
        }),
{
    broadcast use vstd::multiset::group_multiset_axioms;

    let within = events.push(GateEvent::Enter(thread));
    let back = within.push(GateEvent::Leave(thread));
    assert(within.drop_last() == events);
    assert(back.drop_last() == within);
    law_one_thread_inside(events);
    assert(GateRun::legal(within));
    law_one_thread_inside(within);
    law_leave_undoes_enter(GateRun::after(events).gate, thread);
    assert(GateRun::after(within) == GateRun::after(events).step(GateEvent::Enter(thread)));
    assert(GateRun::after(back) == GateRun::after(within).step(GateEvent::Leave(thread)));
    assert(GateRun::legal(back));
    assert(GateRun::after(back).inside =~= GateRun::after(events).inside);
}

/// Leaving undoes entering.
pub proof fn law_leave_undoes_enter(gate: GateView, thread: u64)
    requires
        gate.wf(),
        gate.admits(thread),
    ensures
        gate.entered(thread).left() == gate,
{
}

/// The owner stays inside until it has left as often as it entered. From then on
/// nobody is inside.
pub proof fn law_released_by_last_leave(gate: GateView, times: nat)
    requires
        gate.wf(),
        times <= gate.depth,
    ensures
        times < gate.depth ==> left_times(gate, times).owner == gate.owner,
        times == gate.depth ==> left_times(gate, times) == GateView::free(),
        left_times(gate, times).depth == gate.depth - times,
    decreases times,
{
    if times > 0 {
        law_released_by_last_leave(gate, (times - 1) as nat);
    }
}

/// A thread that had to wait can enter after a leave only if that leave was the
/// one that wakes a waiting thread, and after such a leave any thread can enter.
pub proof fn law_no_wakeup_lost(gate: GateView, thread: u64)
    requires
        gate.wf(),
        gate.depth > 0,
        !gate.admits(thread),
    ensures
        gate.left().admits(thread) <==> gate.depth == 1,
        gate.depth == 1 ==> forall|other: u64| #[trigger] gate.left().admits(other),
{
}

} // verus!
