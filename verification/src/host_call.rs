//! The course of a call that the host makes into a plugin.
//!
//! A call takes the registry's lock, looks the plugin up, and runs the plugin's
//! own code: under the lock where the call may change what is registered, and
//! after the lock was given back where it does not, so that the plugin may be
//! called again from within. The code runs inside the plugin's dispatch gate.
//! Whatever comes of it, the host gets an answer.
//!
//! The program around this library holds the lock and runs the plugin. It
//! carries out one action after the other, and reports each as an event.

use crate::registry::{share, Registry, RegistryState, RegistryView};
use crate::types::{
    plugin_reply, CharPtr, Error, Int, OfxPropertySetHandle, RawMessage, VoidPtr,
};
use std::sync::Arc;
use vstd::prelude::*;
use vstd::string::{StringExecFns, StringSliceAdditionalSpecFns};

verus! {

/// The status that a host gets where there is no plugin, or the plugin fails.
pub const STATUS_FAILED: Int = -1;

/// How the registry's lock is taken: by many readers at a time, or by one alone.
#[derive(Clone, Copy, Debug, PartialEq, Eq, Structural)]
pub enum RegistryAccess {
    Shared,
    Exclusive,
}

/// The two calls that a host makes.
#[derive(Clone, Copy, Debug, PartialEq, Eq, Structural)]
pub enum CallKind {
    SetHost,
    MainEntry,
}

/// What a panic left behind.
#[derive(Debug, PartialEq, Eq)]
pub enum PanicPayload {
    Literal(&'static str),
    Text(String),
    Other,
}

impl PanicPayload {
    /// The message of the panic.
    pub open spec fn text(self) -> Seq<char> {
        match self {
            PanicPayload::Literal(text) => text@,
            PanicPayload::Text(text) => text@,
            PanicPayload::Other => "<non-string panic payload>"@,
        }
    }
}

pub fn panic_payload_to_string(payload: &PanicPayload) -> (text: String)
    ensures
        text@ == payload.text(),
{
    match payload {
        PanicPayload::Literal(text) => (*text).to_owned(),
        PanicPayload::Text(text) => text.clone(),
        PanicPayload::Other => "<non-string panic payload>".to_owned(),
    }
}

/// The action, with the zero byte that ends it, is one of those by which the host
/// loads, unloads or describes a plugin.
pub open spec fn is_lifecycle_action(action: Seq<u8>) -> bool {
    ||| action == "OfxActionLoad\0".spec_bytes()
    ||| action == "OfxActionUnload\0".spec_bytes()
    ||| action == "OfxActionDescribe\0".spec_bytes()
}

fn same_bytes(left: &[u8], right: &[u8]) -> (same: bool)
    ensures
        same == (left@ == right@),
{
    if left.len() != right.len() {
        return false;
    }
    let mut i: usize = 0;
    while i < left.len()
        invariant
            left@.len() == right@.len(),
            i <= left@.len(),
            left@.take(i as int) == right@.take(i as int),
        decreases left@.len() - i,
    {
        if left[i] != right[i] {
            return false;
        }
        assert(left@.take(i + 1) == left@.take(i as int).push(left@[i as int]));
        assert(right@.take(i + 1) == right@.take(i as int).push(right@[i as int]));
        i = i + 1;
    }
    assert(left@.take(i as int) == left@);
    assert(right@.take(i as int) == right@);
    true
}

/// Whether the call with this action keeps the registry to itself while the
/// plugin runs. There is no action where the host passed a null pointer.
pub fn main_entry_requires_registry_mutation_lock(action: Option<&[u8]>) -> (required: bool)
    ensures
        required == (action matches Some(action) && is_lifecycle_action(action@)),
{
    match action {
        None => false,
        Some(action) => same_bytes(action, "OfxActionLoad\0".as_bytes()) || same_bytes(
            action,
            "OfxActionUnload\0".as_bytes(),
        ) || same_bytes(action, "OfxActionDescribe\0".as_bytes()),
    }
}

/// What came of a call, before the host is told.
pub enum HostOutcome<E> {
    Finished(Result<Int, Error<E>>),
    Panicked(String),
}

pub enum HostOutcomeView<E> {
    Finished(Result<Int, Error<E>>),
    Panicked(Seq<char>),
}

impl<E> View for HostOutcome<E> {
    type V = HostOutcomeView<E>;

    open spec fn view(&self) -> HostOutcomeView<E> {
        match *self {
            HostOutcome::Finished(result) => HostOutcomeView::Finished(result),
            HostOutcome::Panicked(text) => HostOutcomeView::Panicked(text@),
        }
    }
}

/// What the host gets back: a status, where the call has one. A report is for the
/// log.
pub struct HostReply {
    pub status: Option<Int>,
    pub report: Option<String>,
}

pub struct HostReplyView {
    pub status: Option<Int>,
    pub report: Option<Seq<char>>,
}

impl View for HostReply {
    type V = HostReplyView;

    open spec fn view(&self) -> HostReplyView {
        HostReplyView {
            status: self.status,
            report: match self.report {
                Some(report) => Some(report@),
                None => None,
            },
        }
    }
}

pub open spec fn report_prefix(kind: CallKind) -> Seq<char> {
    match kind {
        CallKind::SetHost => "panic while setting host for plugin "@,
        CallKind::MainEntry => "panic in OFX main entry for plugin "@,
    }
}

/// The reply for an outcome. Only the main entry has a status: what the plugin
/// returned, or else `STATUS_FAILED`. Only a panic is reported.
pub open spec fn reply_for<E>(
    kind: CallKind,
    module: Seq<char>,
    outcome: HostOutcomeView<E>,
) -> HostReplyView {
    HostReplyView {
        status: match kind {
            CallKind::SetHost => None,
            CallKind::MainEntry => match outcome {
                HostOutcomeView::Finished(Ok(status)) => Some(status),
                _ => Some(STATUS_FAILED),
            },
        },
        report: match outcome {
            HostOutcomeView::Finished(_) => None,
            HostOutcomeView::Panicked(text) => Some(report_prefix(kind) + module + ": "@ + text),
        },
    }
}

/// Makes of an outcome what the host is told.
pub fn reply_to_host<E>(kind: CallKind, module: &str, outcome: HostOutcome<E>) -> (reply: HostReply)
    ensures
        reply@ == reply_for(kind, module@, outcome@),
{
    let status = match kind {
        CallKind::SetHost => None,
        CallKind::MainEntry => match &outcome {
            HostOutcome::Finished(Ok(status)) => Some(*status),
            _ => Some(STATUS_FAILED),
        },
    };
    let report = match outcome {
        HostOutcome::Finished(_) => None,
        HostOutcome::Panicked(text) => {
            let prefix = match kind {
                CallKind::SetHost => "panic while setting host for plugin ",
                CallKind::MainEntry => "panic in OFX main entry for plugin ",
            };
            Some(prefix.to_owned().concat(module).concat(": ").concat(text.as_str()))
        },
    };
    HostReply { status, report }
}

/// What is to be done next for a call.
pub enum HostAction<P, H> {
    /// Take the registry's lock, waiting for it if need be.
    Lock(RegistryAccess),
    /// Give the registry's lock back.
    Unlock,
    /// Enter the plugin's dispatch gate, waiting for it if need be.
    Enter { plugin: Arc<P> },
    /// Hand the message to the plugin.
    Dispatch { plugin: Arc<P>, message: RawMessage<H> },
    /// Leave the plugin's dispatch gate.
    Leave { plugin: Arc<P> },
    /// Answer the host. The call is over.
    Return(HostReply),
}

pub enum HostActionView<P, H> {
    Lock(RegistryAccess),
    Unlock,
    Enter { plugin: Arc<P> },
    Dispatch { plugin: Arc<P>, message: RawMessage<H> },
    Leave { plugin: Arc<P> },
    Return(HostReplyView),
}

impl<P, H> View for HostAction<P, H> {
    type V = HostActionView<P, H>;

    open spec fn view(&self) -> HostActionView<P, H> {
        match *self {
            HostAction::Lock(access) => HostActionView::Lock(access),
            HostAction::Unlock => HostActionView::Unlock,
            HostAction::Enter { plugin } => HostActionView::Enter { plugin },
            HostAction::Dispatch { plugin, message } => HostActionView::Dispatch {
                plugin,
                message,
            },
            HostAction::Leave { plugin } => HostActionView::Leave { plugin },
            HostAction::Return(reply) => HostActionView::Return(reply@),
        }
    }
}

/// What came of the last action.
pub enum HostEvent<'a, P, S, M, E> {
    /// The lock is held, and this is what it guards.
    Locked(&'a RegistryState<P, S, M>),
    /// The lock was given back.
    Unlocked,
    /// The call is inside the plugin's dispatch gate.
    Entered,
    /// The plugin returned.
    Returned(Result<Int, E>),
    /// The plugin panicked.
    Panicked(PanicPayload),
    /// The call has left the plugin's dispatch gate.
    Left,
}

pub enum HostEventView<P, S, M, E> {
    Locked(Option<RegistryView<P, S, M>>),
    Unlocked,
    Entered,
    Returned(Result<Int, E>),
    Panicked(Seq<char>),
    Left,
}

impl<'a, P, S, M, E> View for HostEvent<'a, P, S, M, E> {
    type V = HostEventView<P, S, M, E>;

    open spec fn view(&self) -> HostEventView<P, S, M, E> {
        match *self {
            HostEvent::Locked(state) => HostEventView::Locked(
                match state@ {
                    Some(registry) => Some(registry@),
                    None => None,
                },
            ),
            HostEvent::Unlocked => HostEventView::Unlocked,
            HostEvent::Entered => HostEventView::Entered,
            HostEvent::Left => HostEventView::Left,
            HostEvent::Returned(reply) => HostEventView::Returned(reply),
            HostEvent::Panicked(payload) => HostEventView::Panicked(payload.text()),
        }
    }
}

/// How far a call has come.
pub enum HostCall<P, H, E> {
    /// The lock was asked for.
    Locking { module: String, access: RegistryAccess, message: RawMessage<H> },
    /// The plugin was found, and the lock is given back before the plugin runs.
    Releasing { module: String, plugin: Arc<P>, message: RawMessage<H> },
    /// The call is about to enter the plugin's dispatch gate.
    Entering { module: String, plugin: Arc<P>, message: RawMessage<H>, locked: bool },
    /// The plugin runs, under the lock or without it.
    Dispatching { module: String, plugin: Arc<P>, kind: CallKind, locked: bool },
    /// The outcome is known, and the call leaves the plugin's dispatch gate.
    Leaving { module: String, kind: CallKind, locked: bool, outcome: HostOutcome<E> },
    /// The outcome is known, and the lock is given back.
    Unlocking { module: String, kind: CallKind, outcome: HostOutcome<E> },
    /// The host has its answer.
    Finished,
}

pub enum HostCallView<P, H, E> {
    Locking { module: Seq<char>, access: RegistryAccess, message: RawMessage<H> },
    Releasing { module: Seq<char>, plugin: Arc<P>, message: RawMessage<H> },
    Entering { module: Seq<char>, plugin: Arc<P>, message: RawMessage<H>, locked: bool },
    Dispatching { module: Seq<char>, plugin: Arc<P>, kind: CallKind, locked: bool },
    Leaving { module: Seq<char>, kind: CallKind, locked: bool, outcome: HostOutcomeView<E> },
    Unlocking { module: Seq<char>, kind: CallKind, outcome: HostOutcomeView<E> },
    Finished,
}

impl<P, H, E> View for HostCall<P, H, E> {
    type V = HostCallView<P, H, E>;

    open spec fn view(&self) -> HostCallView<P, H, E> {
        match *self {
            HostCall::Locking { module, access, message } => HostCallView::Locking {
                module: module@,
                access,
                message,
            },
            HostCall::Releasing { module, plugin, message } => HostCallView::Releasing {
                module: module@,
                plugin,
                message,
            },
            HostCall::Entering { module, plugin, message, locked } => HostCallView::Entering {
                module: module@,
                plugin,
                message,
                locked,
            },
            HostCall::Dispatching { module, plugin, kind, locked } => HostCallView::Dispatching {
                module: module@,
                plugin,
                kind,
                locked,
            },
            HostCall::Leaving { module, kind, locked, outcome } => HostCallView::Leaving {
                module: module@,
                kind,
                locked,
                outcome: outcome@,
            },
            HostCall::Unlocking { module, kind, outcome } => HostCallView::Unlocking {
                module: module@,
                kind,
                outcome: outcome@,
            },
            HostCall::Finished => HostCallView::Finished,
        }
    }
}

pub open spec fn kind_of<H>(message: RawMessage<H>) -> CallKind {
    match message {
        RawMessage::SetHost { .. } => CallKind::SetHost,
        RawMessage::MainEntry { .. } => CallKind::MainEntry,
    }
}

/// A call goes on to this, with this as its next action.
pub struct HostStep<P, H, E> {
    pub call: HostCallView<P, H, E>,
    pub action: HostActionView<P, H>,
}

impl<P, H, E> HostCallView<P, H, E> {
    /// `event` is an answer to the action that the call waits for.
    pub open spec fn expects<S, M>(self, event: HostEventView<P, S, M, E>) -> bool {
        match self {
            HostCallView::Locking { .. } => event is Locked,
            HostCallView::Releasing { .. } => event is Unlocked,
            HostCallView::Entering { .. } => event is Entered,
            HostCallView::Dispatching { .. } => event is Returned || event is Panicked,
            HostCallView::Leaving { .. } => event is Left,
            HostCallView::Unlocking { .. } => event is Unlocked,
            HostCallView::Finished => false,
        }
    }

    /// The outcome is known: give the lock back if it is held, then answer.
    pub open spec fn conclude(
        module: Seq<char>,
        kind: CallKind,
        locked: bool,
        outcome: HostOutcomeView<E>,
    ) -> HostStep<P, H, E> {
        if locked {
            HostStep {
                call: HostCallView::Unlocking { module, kind, outcome },
                action: HostActionView::Unlock,
            }
        } else {
            HostStep {
                call: HostCallView::Finished,
                action: HostActionView::Return(reply_for(kind, module, outcome)),
            }
        }
    }

    /// The lock is held on `registry`.
    pub open spec fn looked_up<S, M>(
        module: Seq<char>,
        access: RegistryAccess,
        message: RawMessage<H>,
        registry: Option<RegistryView<P, S, M>>,
    ) -> HostStep<P, H, E> {
        match registry {
            None => Self::conclude(
                module,
                kind_of(message),
                true,
                HostOutcomeView::Panicked("registry not initialized"@),
            ),
            Some(registry) => match registry.plugin_for_module(module) {
                None => Self::conclude(
                    module,
                    kind_of(message),
                    true,
                    HostOutcomeView::Finished(Err(Error::PluginNotFound)),
                ),
                Some(plugin) => match access {
                    RegistryAccess::Shared => HostStep {
                        call: HostCallView::Releasing { module, plugin, message },
                        action: HostActionView::Unlock,
                    },
                    RegistryAccess::Exclusive => HostStep {
                        call: HostCallView::Entering { module, plugin, message, locked: true },
                        action: HostActionView::Enter { plugin },
                    },
                },
            },
        }
    }

    /// What a call makes of an event that it expects.
    pub open spec fn next<S, M>(self, event: HostEventView<P, S, M, E>) -> HostStep<P, H, E>
        recommends
            self.expects(event),
    {
        match self {
            HostCallView::Locking { module, access, message } => Self::looked_up(
                module,
                access,
                message,
                event->Locked_0,
            ),
            HostCallView::Releasing { module, plugin, message } => HostStep {
                call: HostCallView::Entering { module, plugin, message, locked: false },
                action: HostActionView::Enter { plugin },
            },
            HostCallView::Entering { module, plugin, message, locked } => HostStep {
                call: HostCallView::Dispatching { module, plugin, kind: kind_of(message), locked },
                action: HostActionView::Dispatch { plugin, message },
            },
            HostCallView::Dispatching { module, plugin, kind, locked } => HostStep {
                call: HostCallView::Leaving {
                    module,
                    kind,
                    locked,
                    outcome: match event {
                        HostEventView::Panicked(text) => HostOutcomeView::Panicked(text),
                        _ => HostOutcomeView::Finished(plugin_reply(event->Returned_0)),
                    },
                },
                action: HostActionView::Leave { plugin },
            },
            HostCallView::Leaving { module, kind, locked, outcome } => Self::conclude(
                module,
                kind,
                locked,
                outcome,
            ),
            HostCallView::Unlocking { module, kind, outcome } => Self::conclude(
                module,
                kind,
                false,
                outcome,
            ),
            HostCallView::Finished => arbitrary(),
        }
    }
}

impl<P, H, E> HostCall<P, H, E> {
    fn kind(message: &RawMessage<H>) -> (kind: CallKind)
        ensures
            kind == kind_of(*message),
    {
        match message {
            RawMessage::SetHost { .. } => CallKind::SetHost,
            RawMessage::MainEntry { .. } => CallKind::MainEntry,
        }
    }

    fn conclude(module: String, kind: CallKind, locked: bool, outcome: HostOutcome<E>) -> (step: (
        Self,
        HostAction<P, H>,
    ))
        ensures
            step.0@ == HostCallView::<P, H, E>::conclude(module@, kind, locked, outcome@).call,
            step.1@ == HostCallView::<P, H, E>::conclude(module@, kind, locked, outcome@).action,
    {
        if locked {
            (HostCall::Unlocking { module, kind, outcome }, HostAction::Unlock)
        } else {
            let reply = reply_to_host(kind, module.as_str(), outcome);
            (HostCall::Finished, HostAction::Return(reply))
        }
    }

    fn enter(module: String, plugin: Arc<P>, message: RawMessage<H>, locked: bool) -> (step: (
        Self,
        HostAction<P, H>,
    ))
        ensures
            step.0@ == (HostCallView::<P, H, E>::Entering {
                module: module@,
                plugin,
                message,
                locked,
            }),
            step.1@ == (HostActionView::<P, H>::Enter { plugin }),
    {
        let action = HostAction::Enter { plugin: share(&plugin) };
        (HostCall::Entering { module, plugin, message, locked }, action)
    }

    fn looked_up<S, M>(
        module: String,
        access: RegistryAccess,
        message: RawMessage<H>,
        state: &RegistryState<P, S, M>,
    ) -> (step: (Self, HostAction<P, H>))
        ensures
            ({
                let expected = HostCallView::<P, H, E>::looked_up(
                    module@,
                    access,
                    message,
                    HostEvent::<P, S, M, E>::Locked(state)@->Locked_0,
                );
                step.0@ == expected.call && step.1@ == expected.action
            }),
            state@ matches Some(registry) ==> registry@.wf(),
    {
        let kind = Self::kind(&message);
        if !state.is_initialized() {
            return Self::conclude(
                module,
                kind,
                true,
                HostOutcome::Panicked("registry not initialized".to_owned()),
            );
        }
        let lookup = |registry: &Registry<P, S, M>| -> (plugin: Option<Arc<P>>)
            ensures
                plugin == registry@.plugin_for_module(module@),
            { registry.plugin_for_module(module.as_str()) };
        match state.with_registry(lookup) {
            None => Self::conclude(
                module,
                kind,
                true,
                HostOutcome::Finished(Err(Error::PluginNotFound)),
            ),
            Some(plugin) => match access {
                RegistryAccess::Shared => {
                    (HostCall::Releasing { module, plugin, message }, HostAction::Unlock)
                },
                RegistryAccess::Exclusive => Self::enter(module, plugin, message, true),
            },
        }
    }

    /// Goes on with a call after `event`, and says what is to be done next.
    pub fn step<S, M>(self, event: HostEvent<'_, P, S, M, E>) -> (step: (Self, HostAction<P, H>))
        requires
            self@.expects(event@),
        ensures
            step.0@ == self@.next(event@).call,
            step.1@ == self@.next(event@).action,
            event@ matches HostEventView::Locked(Some(registry)) ==> registry.wf(),
    {
        match (self, event) {
            (HostCall::Locking { module, access, message }, HostEvent::Locked(state)) => {
                Self::looked_up(module, access, message, state)
            },
            (HostCall::Releasing { module, plugin, message }, HostEvent::Unlocked) => {
                Self::enter(module, plugin, message, false)
            },
            (HostCall::Entering { module, plugin, message, locked }, HostEvent::Entered) => {
                let kind = Self::kind(&message);
                let action = HostAction::Dispatch { plugin: share(&plugin), message };
                (HostCall::Dispatching { module, plugin, kind, locked }, action)
            },
            (
                HostCall::Dispatching { module, plugin, kind, locked },
                HostEvent::Returned(reply),
            ) => {
                let result = match reply {
                    Ok(status) => Ok(status),
                    Err(error) => Err(Error::Plugin(error)),
                };
                let outcome = HostOutcome::Finished(result);
                (
                    HostCall::Leaving { module, kind, locked, outcome },
                    HostAction::Leave { plugin },
                )
            },
            (
                HostCall::Dispatching { module, plugin, kind, locked },
                HostEvent::Panicked(payload),
            ) => {
                let outcome = HostOutcome::Panicked(panic_payload_to_string(&payload));
                (
                    HostCall::Leaving { module, kind, locked, outcome },
                    HostAction::Leave { plugin },
                )
            },
            (HostCall::Leaving { module, kind, locked, outcome }, HostEvent::Left) => {
                Self::conclude(module, kind, locked, outcome)
            },
            (HostCall::Unlocking { module, kind, outcome }, HostEvent::Unlocked) => {
                Self::conclude(module, kind, false, outcome)
            },
            (_, _) => vstd::pervasive::unreached(),
        }
    }
}

/// Starts the call by which the host makes itself known to a plugin.
pub fn set_host_for_plugin<P, H, E>(plugin_module: &str, host: H) -> (step: (
    HostCall<P, H, E>,
    HostAction<P, H>,
))
    ensures
        step.0@ == (HostCallView::<P, H, E>::Locking {
            module: plugin_module@,
            access: RegistryAccess::Exclusive,
            message: RawMessage::SetHost { host },
        }),
        step.1@ == HostActionView::<P, H>::Lock(RegistryAccess::Exclusive),
{
    let access = RegistryAccess::Exclusive;
    let module = plugin_module.to_owned();
    let message = RawMessage::SetHost { host };
    (HostCall::Locking { module, access, message }, HostAction::Lock(access))
}

/// The access to the registry that a call of the main entry needs.
pub open spec fn access_for(action: Option<Seq<u8>>) -> RegistryAccess {
    if action matches Some(action) && is_lifecycle_action(action) {
        RegistryAccess::Exclusive
    } else {
        RegistryAccess::Shared
    }
}

pub open spec fn bytes_of(action: Option<&[u8]>) -> Option<Seq<u8>> {
    match action {
        Some(action) => Some(action@),
        None => None,
    }
}

/// Starts a call of a plugin's main entry. `action_bytes` is what stands at
/// `action`, with the zero byte that ends it; it is `None` for a null pointer.
pub fn main_entry_for_plugin<P, H, E>(
    plugin_module: &str,
    action: CharPtr,
    action_bytes: Option<&[u8]>,
    handle: VoidPtr,
    in_args: OfxPropertySetHandle,
    out_args: OfxPropertySetHandle,
) -> (step: (HostCall<P, H, E>, HostAction<P, H>))
    ensures
        step.0@ == (HostCallView::<P, H, E>::Locking {
            module: plugin_module@,
            access: access_for(bytes_of(action_bytes)),
            message: RawMessage::MainEntry { action, handle, in_args, out_args },
        }),
        step.1@ == HostActionView::<P, H>::Lock(access_for(bytes_of(action_bytes))),
        step.1@ == HostActionView::<P, H>::Lock(
            if action_bytes matches Some(bytes) && is_lifecycle_action(bytes@) {
                RegistryAccess::Exclusive
            } else {
                RegistryAccess::Shared
            },
        ),
{
    let access = if main_entry_requires_registry_mutation_lock(action_bytes) {
        RegistryAccess::Exclusive
    } else {
        RegistryAccess::Shared
    };
    let module = plugin_module.to_owned();
    let message = RawMessage::MainEntry { action, handle, in_args, out_args };
    (HostCall::Locking { module, access, message }, HostAction::Lock(access))
}

} // verus!
