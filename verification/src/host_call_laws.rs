//! What holds of every call that a host makes, from its first action to the
//! answer, whatever is registered and whatever the plugin does.

use crate::host_call::{
    access_for, is_lifecycle_action, kind_of, reply_for, CallKind, HostActionView, HostCallView,
    HostEventView, HostOutcomeView, HostReplyView, RegistryAccess, STATUS_FAILED,
};
use crate::registry::RegistryView;
use crate::types::{
    plugin_reply, CharPtr, Error, OfxPropertySetHandle, RawMessage, VoidPtr,
};
use std::sync::Arc;
use vstd::prelude::*;

verus! {

/// What one call has done so far: how it holds the registry's lock, inside which
/// plugin's dispatch gate it is, what it handed to plugins, and what it answered.
#[verifier::ext_equal]
pub struct HostTrail<P, H> {
    pub lock: Option<RegistryAccess>,
    pub inside: Option<Arc<P>>,
    pub dispatched: Seq<(Arc<P>, RawMessage<H>)>,
    pub reply: Option<HostReplyView>,
}

impl<P, H> HostTrail<P, H> {
    /// The lock was taken, which is the first action of every call.
    pub open spec fn start(access: RegistryAccess) -> Self {
        HostTrail { lock: Some(access), inside: None, dispatched: Seq::empty(), reply: None }
    }

    /// The registry's lock is held as it is to be while the call deals with the
    /// plugin: alone if the access is exclusive, and not at all if it is shared.
    pub open spec fn locked_for(self, access: RegistryAccess) -> bool {
        match access {
            RegistryAccess::Shared => self.lock is None,
            RegistryAccess::Exclusive => self.lock == Some(RegistryAccess::Exclusive),
        }
    }

    /// The action may be carried out now. The lock is neither taken twice nor
    /// given back twice; the plugin runs once at most, inside its own gate; that
    /// gate is left after the plugin ran, before the lock is given back; and the
    /// answer comes once, when neither is held.
    pub open spec fn allows(self, access: RegistryAccess, action: HostActionView<P, H>) -> bool {
        self.reply is None && match action {
            HostActionView::Lock(_) => self.lock is None && self.inside is None,
            HostActionView::Unlock => self.lock is Some && self.inside is None,
            HostActionView::Enter { .. } => {
                &&& self.inside is None
                &&& self.dispatched.len() == 0
                &&& self.locked_for(access)
            },
            HostActionView::Dispatch { plugin, .. } => {
                &&& self.inside == Some(plugin)
                &&& self.dispatched.len() == 0
                &&& self.locked_for(access)
            },
            HostActionView::Leave { plugin } => {
                &&& self.inside == Some(plugin)
                &&& self.dispatched.len() == 1
                &&& self.locked_for(access)
            },
            HostActionView::Return(_) => self.lock is None && self.inside is None,
        }
    }

    pub open spec fn extended(self, action: HostActionView<P, H>) -> Self {
        match action {
            HostActionView::Lock(access) => HostTrail { lock: Some(access), ..self },
            HostActionView::Unlock => HostTrail { lock: None, ..self },
            HostActionView::Enter { plugin } => HostTrail { inside: Some(plugin), ..self },
            HostActionView::Leave { .. } => HostTrail { inside: None, ..self },
            HostActionView::Dispatch { plugin, message } => HostTrail {
                dispatched: self.dispatched.push((plugin, message)),
                ..self
            },
            HostActionView::Return(reply) => HostTrail { reply: Some(reply), ..self },
        }
    }
}

/// A call, and its trail.
pub struct HostRun<P, H, E> {
    pub call: HostCallView<P, H, E>,
    pub trail: HostTrail<P, H>,
}

impl<P, H, E> HostRun<P, H, E> {
    /// The call for `message` to the plugin of `module`, once it has the lock.
    pub open spec fn start(
        module: Seq<char>,
        access: RegistryAccess,
        message: RawMessage<H>,
    ) -> Self {
        HostRun {
            call: HostCallView::Locking { module, access, message },
            trail: HostTrail::start(access),
        }
    }

    pub open spec fn step<S, M>(self, event: HostEventView<P, S, M, E>) -> Self {
        let step = self.call.next(event);
        HostRun { call: step.call, trail: self.trail.extended(step.action) }
    }

    /// Each event is one that the call expects when it comes.
    pub open spec fn legal<S, M>(self, events: Seq<HostEventView<P, S, M, E>>) -> bool
        decreases events.len(),
    {
        events.len() == 0 || {
            &&& self.call.expects(events.first())
            &&& self.step(events.first()).legal(events.drop_first())
        }
    }

    /// The run after the events.
    pub open spec fn after<S, M>(self, events: Seq<HostEventView<P, S, M, E>>) -> Self
        decreases events.len(),
    {
        if events.len() == 0 {
            self
        } else {
            self.step(events.first()).after(events.drop_first())
        }
    }

    /// Each action that the events lead to may be carried out when it comes.
    pub open spec fn orderly<S, M>(
        self,
        access: RegistryAccess,
        events: Seq<HostEventView<P, S, M, E>>,
    ) -> bool
        decreases events.len(),
    {
        events.len() == 0 || {
            &&& self.trail.allows(access, self.call.next(events.first()).action)
            &&& self.step(events.first()).orderly(access, events.drop_first())
        }
    }

    /// What holds of a run between two events, if the call asked for `access`.
    pub open spec fn inv(self, access: RegistryAccess) -> bool {
        match self.call {
            HostCallView::Locking { access: asked, .. } => {
                &&& asked == access
                &&& self.trail == HostTrail::<P, H>::start(access)
            },
            HostCallView::Releasing { .. } => {
                &&& access == RegistryAccess::Shared
                &&& self.trail.lock is None
                &&& self.trail.inside is None
                &&& self.trail.dispatched.len() == 0
                &&& self.trail.reply is None
            },
            HostCallView::Entering { plugin, locked, .. } => {
                &&& locked == (access == RegistryAccess::Exclusive)
                &&& self.trail.locked_for(access)
                &&& self.trail.inside == Some(plugin)
                &&& self.trail.dispatched.len() == 0
                &&& self.trail.reply is None
            },
            HostCallView::Dispatching { plugin, locked, .. } => {
                &&& locked == (access == RegistryAccess::Exclusive)
                &&& self.trail.locked_for(access)
                &&& self.trail.inside == Some(plugin)
                &&& self.trail.dispatched.len() == 1
                &&& self.trail.reply is None
            },
            HostCallView::Leaving { locked, .. } => {
                &&& locked == (access == RegistryAccess::Exclusive)
                &&& self.trail.locked_for(access)
                &&& self.trail.inside is None
                &&& self.trail.reply is None
            },
            HostCallView::Unlocking { .. } => {
                &&& self.trail.lock is None
                &&& self.trail.inside is None
                &&& self.trail.reply is None
            },
            HostCallView::Finished => self.trail.lock is None && self.trail.inside is None,
        }
    }
}

/// An action and the events that can come of it.
pub open spec fn answers<P, S, M, H, E>(
    action: HostActionView<P, H>,
    event: HostEventView<P, S, M, E>,
) -> bool {
    match action {
        HostActionView::Lock(_) => event is Locked,
        HostActionView::Unlock => event is Unlocked,
        HostActionView::Enter { .. } => event is Entered,
        HostActionView::Dispatch { .. } => event is Returned || event is Panicked,
        HostActionView::Leave { .. } => event is Left,
        HostActionView::Return(_) => false,
    }
}

/// Whoever reports what came of the last action reports an event that the call
/// expects, and the call expects no other. The first action is to take the lock.
pub proof fn law_events_answer_actions<P, S, M, H, E>(
    call: HostCallView<P, H, E>,
    event: HostEventView<P, S, M, E>,
    next: HostEventView<P, S, M, E>,
)
    requires
        call.expects(event),
    ensures
        call.next(event).call.expects(next) == answers(call.next(event).action, next),
        call matches HostCallView::Locking { access, .. } ==> answers(
            HostActionView::<P, H>::Lock(access),
            event,
        ),
{
}

proof fn lemma_orderly<P, S, M, H, E>(
    run: HostRun<P, H, E>,
    access: RegistryAccess,
    events: Seq<HostEventView<P, S, M, E>>,
)
    requires
        run.inv(access),
        run.legal(events),
    ensures
        run.orderly(access, events),
        run.after(events).inv(access),
    decreases events.len(),
{
    if events.len() > 0 {
        lemma_orderly(run.step(events.first()), access, events.drop_first());
    }
}

/// Every call keeps the order of its actions. In particular, a plugin that is
/// called with shared access runs without the registry's lock, and one that is
/// called with exclusive access runs under it.
pub proof fn law_actions_in_order<P, S, M, H, E>(
    module: Seq<char>,
    access: RegistryAccess,
    message: RawMessage<H>,
    events: Seq<HostEventView<P, S, M, E>>,
)
    requires
        HostRun::<P, H, E>::start(module, access, message).legal(events),
    ensures
        HostRun::<P, H, E>::start(module, access, message).orderly(access, events),
{
    lemma_orderly(HostRun::<P, H, E>::start(module, access, message), access, events);
}

/// Whenever the plugin of a main entry runs, the call holds the registry's lock
/// for itself if the action loads, unloads or describes the plugin, and does not
/// hold the lock at all if it is any other action, or none.
pub proof fn law_lock_while_main_entry_runs<P, S, M, H, E>(
    module: Seq<char>,
    action: Option<Seq<u8>>,
    message: RawMessage<H>,
    events: Seq<HostEventView<P, S, M, E>>,
)
    requires
        HostRun::<P, H, E>::start(module, access_for(action), message).legal(events),
        HostRun::<P, H, E>::start(module, access_for(action), message).after(
            events,
        ).call is Dispatching,
    ensures
        HostRun::<P, H, E>::start(module, access_for(action), message).after(events).trail.lock
            == if action matches Some(action) && is_lifecycle_action(action) {
            Some(RegistryAccess::Exclusive)
        } else {
            None
        },
{
    let access = access_for(action);
    lemma_orderly(HostRun::<P, H, E>::start(module, access, message), access, events);
}

/// How many events a call can still take.
pub open spec fn events_left<P, H, E>(call: HostCallView<P, H, E>) -> nat {
    match call {
        HostCallView::Locking { .. } => 5,
        HostCallView::Releasing { .. } => 4,
        HostCallView::Entering { locked, .. } => if locked {
            4
        } else {
            3
        },
        HostCallView::Dispatching { locked, .. } => if locked {
            3
        } else {
            2
        },
        HostCallView::Leaving { locked, .. } => if locked {
            2
        } else {
            1
        },
        HostCallView::Unlocking { .. } => 1,
        HostCallView::Finished => 0,
    }
}

/// A call takes no more events than `events_left` counts: every call ends.
pub proof fn law_call_ends<P, S, M, H, E>(
    run: HostRun<P, H, E>,
    events: Seq<HostEventView<P, S, M, E>>,
)
    requires
        run.legal(events),
    ensures
        events.len() <= events_left(run.call),
    decreases events.len(),
{
    if events.len() > 0 {
        law_call_ends(run.step(events.first()), events.drop_first());
    }
}

/// The plugin that a call finds in `registry`.
pub open spec fn plugin_found<P, S, M>(
    registry: Option<RegistryView<P, S, M>>,
    module: Seq<char>,
) -> Option<Arc<P>> {
    match registry {
        None => None,
        Some(registry) => registry.plugin_for_module(module),
    }
}

/// What comes of a call that finds `registry`, if `reply` is what the plugin does.
pub open spec fn outcome_for<P, S, M, E>(
    registry: Option<RegistryView<P, S, M>>,
    module: Seq<char>,
    reply: HostEventView<P, S, M, E>,
) -> HostOutcomeView<E> {
    if registry is None {
        HostOutcomeView::Panicked("registry not initialized"@)
    } else if plugin_found(registry, module) is None {
        HostOutcomeView::Finished(Err(Error::PluginNotFound))
    } else {
        match reply {
            HostEventView::Panicked(text) => HostOutcomeView::Panicked(text),
            _ => HostOutcomeView::Finished(plugin_reply(reply->Returned_0)),
        }
    }
}

/// A plugin is not found exactly where nothing was registered for the module.
pub proof fn law_plugin_not_found<P, S, M, E>(
    registry: RegistryView<P, S, M>,
    module: Seq<char>,
    reply: HostEventView<P, S, M, E>,
)
    requires
        registry.wf(),
        reply is Returned || reply is Panicked,
    ensures
        outcome_for(Some(registry), module, reply) == HostOutcomeView::<E>::Finished(
            Err(Error::PluginNotFound),
        ) <==> !registry.modules.contains_key(module),
{
}

/// A call that has come to its end has handed its message, unchanged, to the
/// plugin that stands for the module, and to no other; it has left the plugin's
/// dispatch gate and given the lock back; and it has answered with what the
/// plugin did, or with the failure that kept the plugin from being called.
pub proof fn law_answer<P, S, M, H, E>(
    module: Seq<char>,
    access: RegistryAccess,
    message: RawMessage<H>,
    events: Seq<HostEventView<P, S, M, E>>,
)
    requires
        HostRun::<P, H, E>::start(module, access, message).legal(events),
        HostRun::<P, H, E>::start(module, access, message).after(events).call is Finished,
    ensures
        ({
            let trail = HostRun::<P, H, E>::start(module, access, message).after(events).trail;
            let registry = events[0]->Locked_0;
            let reply = events[if access == RegistryAccess::Shared {
                3
            } else {
                2
            }];
            &&& trail.lock is None
            &&& trail.inside is None
            &&& trail.dispatched == (match plugin_found(registry, module) {
                None => Seq::empty(),
                Some(plugin) => seq![(plugin, message)],
            })
            &&& trail.reply == Some(
                reply_for(kind_of(message), module, outcome_for(registry, module, reply)),
            )
        }),
{
    let run0 = HostRun::<P, H, E>::start(module, access, message);
    law_call_ends(run0, events);
    reveal_with_fuel(HostRun::<_, _, _>::legal, 6);
    reveal_with_fuel(HostRun::<_, _, _>::after, 6);
}

/// A host that calls a main entry always gets a status, and it is the plugin's
/// own only if the plugin was found and returned one.
pub proof fn law_main_entry_has_status<P, S, M, E>(
    registry: Option<RegistryView<P, S, M>>,
    module: Seq<char>,
    reply: HostEventView<P, S, M, E>,
)
    requires
        reply is Returned || reply is Panicked,
    ensures
        reply_for(CallKind::MainEntry, module, outcome_for(registry, module, reply)).status == (
        match reply {
            HostEventView::Returned(Ok(status)) if plugin_found(registry, module) is Some => Some(
                status,
            ),
            _ => Some(STATUS_FAILED),
        }),
        reply_for(CallKind::SetHost, module, outcome_for(registry, module, reply)).status is None,
{
}

/// A host that calls a main entry, with whatever action and arguments, is answered
/// with a status when the call is over: the plugin's own if a plugin stands for the
/// module and returned one, and -1 otherwise.
pub proof fn law_main_entry_is_answered<P, S, M, H, E>(
    module: Seq<char>,
    access: RegistryAccess,
    action: CharPtr,
    handle: VoidPtr,
    in_args: OfxPropertySetHandle,
    out_args: OfxPropertySetHandle,
    events: Seq<HostEventView<P, S, M, E>>,
)
    requires
        ({
            let message = RawMessage::<H>::MainEntry { action, handle, in_args, out_args };
            let run = HostRun::<P, H, E>::start(module, access, message);
            run.legal(events) && run.after(events).call is Finished
        }),
    ensures
        ({
            let message = RawMessage::<H>::MainEntry { action, handle, in_args, out_args };
            let trail = HostRun::<P, H, E>::start(module, access, message).after(events).trail;
            let found = events[0]->Locked_0 matches Some(registry)
                && registry.plugin_for_module(module) is Some;
            trail.reply matches Some(reply) && {
                &&& !found ==> reply.status == Some(-1i32)
                &&& found && access == RegistryAccess::Shared ==> reply.status == Some(
                    match events[3] {
                        HostEventView::Returned(Ok(status)) => status,
                        _ => -1i32,
                    },
                )
                &&& found && access == RegistryAccess::Exclusive ==> reply.status == Some(
                    match events[2] {
                        HostEventView::Returned(Ok(status)) => status,
                        _ => -1i32,
                    },
                )
            }
        }),
{
    let message = RawMessage::<H>::MainEntry { action, handle, in_args, out_args };
    law_answer(module, access, message, events);
    let run = HostRun::<P, H, E>::start(module, access, message);
    law_call_ends(run, events);
    reveal_with_fuel(HostRun::<_, _, _>::legal, 6);
    reveal_with_fuel(HostRun::<_, _, _>::after, 6);
}

} // verus!
