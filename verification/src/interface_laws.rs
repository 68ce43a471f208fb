//! What a caller can rely on, said of the arguments and the results of the
//! library's functions alone.

use crate::gate::DispatchGateState;
use crate::host_call::{
    is_lifecycle_action, kind_of, main_entry_for_plugin,
    main_entry_requires_registry_mutation_lock, panic_payload_to_string, reply_to_host,
    set_host_for_plugin, CallKind, HostAction, HostCall, HostEvent, HostOutcome, HostReply,
    PanicPayload, RegistryAccess,
};
use crate::registry::{PluginDescriptor, Registry, RegistryState};
use crate::suites::{suite_call, SuiteTypes, Suites};
use crate::types::{
    plugin_reply, ApiVersion, CharPtr, Error, Int, OfxPropertySetHandle, PluginVersion, RawMessage,
    VoidPtr,
};
use std::sync::Arc;
use vstd::prelude::*;
use vstd::string::StringSliceAdditionalSpecFns;

verus! {

/// A status comes through as it is, and so does an error, marked as the plugin's.
pub proof fn law_plugin_reply<E>(status: Int, error: E)
    ensures
        plugin_reply::<E>(Ok(status)) == Ok::<Int, Error<E>>(status),
        plugin_reply::<E>(Err(error)) == Err::<Int, Error<E>>(Error::Plugin(error)),
{
}

/// The message alone says which call it is, whatever it carries.
pub proof fn law_kind_of_message<H>(
    host: H,
    action: CharPtr,
    handle: VoidPtr,
    in_args: OfxPropertySetHandle,
    out_args: OfxPropertySetHandle,
)
    ensures
        kind_of(RawMessage::SetHost { host }) == CallKind::SetHost,
        kind_of(RawMessage::<H>::MainEntry { action, handle, in_args, out_args })
            == CallKind::MainEntry,
{
}

proof fn lemma_lifecycle_bytes()
    ensures
        "OfxActionLoad\0".spec_bytes() == seq![
            79u8, 102, 120, 65, 99, 116, 105, 111, 110, 76, 111, 97, 100, 0,
        ],
        "OfxActionUnload\0".spec_bytes() == seq![
            79u8, 102, 120, 65, 99, 116, 105, 111, 110, 85, 110, 108, 111, 97, 100, 0,
        ],
        "OfxActionDescribe\0".spec_bytes() == seq![
            79u8, 102, 120, 65, 99, 116, 105, 111, 110, 68, 101, 115, 99, 114, 105, 98, 101, 0,
        ],
{
    reveal_strlit("OfxActionLoad\0");
    reveal_strlit("OfxActionUnload\0");
    reveal_strlit("OfxActionDescribe\0");
    assert("OfxActionLoad\0".is_ascii());
    assert("OfxActionUnload\0".is_ascii());
    assert("OfxActionDescribe\0".is_ascii());
}

/// Exactly three actions are those of a plugin's life: byte for byte, the names
/// for loading, unloading and describing, each with the zero byte that ends it.
pub proof fn law_lifecycle_actions(action: Seq<u8>)
    ensures
        is_lifecycle_action(action) <==> {
            ||| action == seq![79u8, 102, 120, 65, 99, 116, 105, 111, 110, 76, 111, 97, 100, 0]
            ||| action == seq![
                79u8, 102, 120, 65, 99, 116, 105, 111, 110, 85, 110, 108, 111, 97, 100, 0,
            ]
            ||| action == seq![
                79u8, 102, 120, 65, 99, 116, 105, 111, 110, 68, 101, 115, 99, 114, 105, 98, 101, 0,
            ]
        },
{
    lemma_lifecycle_bytes();
}

/// No action that is about images is one of a plugin's life: none whose name
/// begins with `OfxImageEffectAction`.
pub proof fn law_image_effect_actions_are_ordinary(action: Seq<u8>)
    requires
        action.len() >= 20,
        action.take(20) == seq![
            79u8, 102, 120, 73, 109, 97, 103, 101, 69, 102, 102, 101, 99, 116, 65, 99, 116, 105,
            111, 110,
        ],
    ensures
        !is_lifecycle_action(action),
{
    lemma_lifecycle_bytes();
    assert(action.take(20)[3] == 73);
    assert(action[3] == 73);
}

/// The registry is kept locked for the three actions of a plugin's life, and for
/// no other action, nor where there is none.
pub proof fn law_mutation_lock(action: Option<&[u8]>, required: bool)
    requires
        call_ensures(main_entry_requires_registry_mutation_lock, (action,), required),
    ensures
        action is None ==> !required,
        action matches Some(bytes) ==> (required <==> {
            ||| bytes@ == seq![79u8, 102, 120, 65, 99, 116, 105, 111, 110, 76, 111, 97, 100, 0]
            ||| bytes@ == seq![
                79u8, 102, 120, 65, 99, 116, 105, 111, 110, 85, 110, 108, 111, 97, 100, 0,
            ]
            ||| bytes@ == seq![
                79u8, 102, 120, 65, 99, 116, 105, 111, 110, 68, 101, 115, 99, 114, 105, 98, 101, 0,
            ]
        }),
{
    lemma_lifecycle_bytes();
}

/// A call of a main entry begins by asking for the lock, alone for the three
/// actions of a plugin's life and shared for all others. What it is for is kept
/// as it was given.
pub proof fn law_main_entry_begins<P, H, E>(
    plugin_module: &str,
    action: CharPtr,
    action_bytes: Option<&[u8]>,
    handle: VoidPtr,
    in_args: OfxPropertySetHandle,
    out_args: OfxPropertySetHandle,
    begun: (HostCall<P, H, E>, HostAction<P, H>),
)
    requires
        call_ensures(
            main_entry_for_plugin::<P, H, E>,
            (plugin_module, action, action_bytes, handle, in_args, out_args),
            begun,
        ),
    ensures
        begun.0 matches HostCall::Locking { module, access, message } && {
            &&& module@ == plugin_module@
            &&& message == (RawMessage::<H>::MainEntry { action, handle, in_args, out_args })
            &&& begun.1 == HostAction::<P, H>::Lock(access)
            &&& access == RegistryAccess::Exclusive <==> (action_bytes matches Some(bytes) && {
                ||| bytes@ == seq![79u8, 102, 120, 65, 99, 116, 105, 111, 110, 76, 111, 97, 100, 0]
                ||| bytes@ == seq![
                    79u8, 102, 120, 65, 99, 116, 105, 111, 110, 85, 110, 108, 111, 97, 100, 0,
                ]
                ||| bytes@ == seq![
                    79u8, 102, 120, 65, 99, 116, 105, 111, 110, 68, 101, 115, 99, 114, 105, 98, 101,
                    0,
                ]
            })
        },
{
    lemma_lifecycle_bytes();
}

/// A call that makes the host known to a plugin begins by asking for the lock,
/// alone.
pub proof fn law_set_host_begins<P, H, E>(
    plugin_module: &str,
    host: H,
    begun: (HostCall<P, H, E>, HostAction<P, H>),
)
    requires
        call_ensures(set_host_for_plugin::<P, H, E>, (plugin_module, host), begun),
    ensures
        begun.0 matches HostCall::Locking { module, access, message } && {
            &&& module@ == plugin_module@
            &&& access == RegistryAccess::Exclusive
            &&& message == (RawMessage::SetHost { host })
        },
        begun.1 == HostAction::<P, H>::Lock(RegistryAccess::Exclusive),
{
}

/// A call with shared access, all the way, where a plugin stands for the module. The
/// lock is given back; then the call enters the plugin's dispatch gate, hands the
/// message to the plugin, and leaves again; then comes the answer. Each event is
/// one that the call accepts when it comes.
///
/// A main entry is answered with the plugin's own status if the plugin returned
/// one, and else with -1. Setting the host is answered with nothing. A panic is
/// reported.
pub proof fn law_shared_call<P, S, M, H, E>(
    module: String,
    message: RawMessage<H>,
    state: RegistryState<P, S, M>,
    registry: Registry<P, S, M>,
    plugin: Arc<P>,
    event: HostEvent<'_, P, S, M, E>,
    looked_up: (HostCall<P, H, E>, HostAction<P, H>),
    released: (HostCall<P, H, E>, HostAction<P, H>),
    entered: (HostCall<P, H, E>, HostAction<P, H>),
    ran: (HostCall<P, H, E>, HostAction<P, H>),
    left: (HostCall<P, H, E>, HostAction<P, H>),
)
    requires
        state@ == Some(registry),
        exists|name: &str|
            name@ == module@ && #[trigger] call_ensures(
                Registry::<P, S, M>::plugin_for_module,
                (&registry, name),
                Some(plugin),
            ),
        event is Returned || event is Panicked,
        call_ensures(
            HostCall::<P, H, E>::step::<S, M>,
            (
                HostCall::Locking { module, access: RegistryAccess::Shared, message },
                HostEvent::Locked(&state),
            ),
            looked_up,
        ),
        call_ensures(
            HostCall::<P, H, E>::step::<S, M>,
            (looked_up.0, HostEvent::Unlocked),
            released,
        ),
        call_ensures(HostCall::<P, H, E>::step::<S, M>, (released.0, HostEvent::Entered), entered),
        call_ensures(HostCall::<P, H, E>::step::<S, M>, (entered.0, event), ran),
        call_ensures(HostCall::<P, H, E>::step::<S, M>, (ran.0, HostEvent::Left), left),
    ensures
        call_requires(
            HostCall::<P, H, E>::step::<S, M>,
            (
                HostCall::Locking { module, access: RegistryAccess::Shared, message },
                HostEvent::Locked(&state),
            ),
        ),
        call_requires(HostCall::<P, H, E>::step::<S, M>, (looked_up.0, HostEvent::Unlocked)),
        call_requires(HostCall::<P, H, E>::step::<S, M>, (released.0, HostEvent::Entered)),
        call_requires(HostCall::<P, H, E>::step::<S, M>, (entered.0, event)),
        call_requires(HostCall::<P, H, E>::step::<S, M>, (ran.0, HostEvent::Left)),
        looked_up.1 == HostAction::<P, H>::Unlock,
        released.1 == (HostAction::<P, H>::Enter { plugin }),
        entered.1 == (HostAction::Dispatch { plugin, message }),
        ran.1 == (HostAction::<P, H>::Leave { plugin }),
        left.1 matches HostAction::Return(reply) && {
            &&& message is MainEntry ==> reply.status == Some(
                match event {
                    HostEvent::Returned(Ok(status)) => status,
                    _ => -1i32,
                },
            )
            &&& message is SetHost ==> reply.status is None
            &&& event is Returned ==> reply.report is None
            &&& event matches HostEvent::Panicked(payload) ==> {
                let text = match payload {
                    PanicPayload::Literal(text) => text@,
                    PanicPayload::Text(text) => text@,
                    PanicPayload::Other => "<non-string panic payload>"@,
                };
                reply.report matches Some(report) && {
                    &&& message is MainEntry ==> report@ == "panic in OFX main entry for plugin "@
                        + module@ + ": "@ + text
                    &&& message is SetHost ==> report@ == "panic while setting host for plugin "@
                        + module@ + ": "@ + text
                }
            }
        },
{
}

/// A call with exclusive access, all the way, where a plugin stands for the module.
/// The call enters the plugin's dispatch gate, hands the message to the plugin, and
/// leaves again; then the lock is given back; then comes the answer, as with shared
/// access.
pub proof fn law_exclusive_call<P, S, M, H, E>(
    module: String,
    message: RawMessage<H>,
    state: RegistryState<P, S, M>,
    registry: Registry<P, S, M>,
    plugin: Arc<P>,
    event: HostEvent<'_, P, S, M, E>,
    looked_up: (HostCall<P, H, E>, HostAction<P, H>),
    entered: (HostCall<P, H, E>, HostAction<P, H>),
    ran: (HostCall<P, H, E>, HostAction<P, H>),
    left: (HostCall<P, H, E>, HostAction<P, H>),
    released: (HostCall<P, H, E>, HostAction<P, H>),
)
    requires
        state@ == Some(registry),
        exists|name: &str|
            name@ == module@ && #[trigger] call_ensures(
                Registry::<P, S, M>::plugin_for_module,
                (&registry, name),
                Some(plugin),
            ),
        event is Returned || event is Panicked,
        call_ensures(
            HostCall::<P, H, E>::step::<S, M>,
            (
                HostCall::Locking { module, access: RegistryAccess::Exclusive, message },
                HostEvent::Locked(&state),
            ),
            looked_up,
        ),
        call_ensures(HostCall::<P, H, E>::step::<S, M>, (looked_up.0, HostEvent::Entered), entered),
        call_ensures(HostCall::<P, H, E>::step::<S, M>, (entered.0, event), ran),
        call_ensures(HostCall::<P, H, E>::step::<S, M>, (ran.0, HostEvent::Left), left),
        call_ensures(HostCall::<P, H, E>::step::<S, M>, (left.0, HostEvent::Unlocked), released),
    ensures
        call_requires(
            HostCall::<P, H, E>::step::<S, M>,
            (
                HostCall::Locking { module, access: RegistryAccess::Exclusive, message },
                HostEvent::Locked(&state),
            ),
        ),
        call_requires(HostCall::<P, H, E>::step::<S, M>, (looked_up.0, HostEvent::Entered)),
        call_requires(HostCall::<P, H, E>::step::<S, M>, (entered.0, event)),
        call_requires(HostCall::<P, H, E>::step::<S, M>, (ran.0, HostEvent::Left)),
        call_requires(HostCall::<P, H, E>::step::<S, M>, (left.0, HostEvent::Unlocked)),
        looked_up.1 == (HostAction::<P, H>::Enter { plugin }),
        entered.1 == (HostAction::Dispatch { plugin, message }),
        ran.1 == (HostAction::<P, H>::Leave { plugin }),
        left.1 == HostAction::<P, H>::Unlock,
        released.1 matches HostAction::Return(reply) && {
            &&& message is MainEntry ==> reply.status == Some(
                match event {
                    HostEvent::Returned(Ok(status)) => status,
                    _ => -1i32,
                },
            )
            &&& message is SetHost ==> reply.status is None
            &&& event is Returned ==> reply.report is None
            &&& event matches HostEvent::Panicked(payload) ==> {
                let text = match payload {
                    PanicPayload::Literal(text) => text@,
                    PanicPayload::Text(text) => text@,
                    PanicPayload::Other => "<non-string panic payload>"@,
                };
                reply.report matches Some(report) && {
                    &&& message is MainEntry ==> report@ == "panic in OFX main entry for plugin "@
                        + module@ + ": "@ + text
                    &&& message is SetHost ==> report@ == "panic while setting host for plugin "@
                        + module@ + ": "@ + text
                }
            }
        },
{
}

/// A call all the way, where no plugin stands for the module, or there is no
/// registry. No plugin is touched: the lock is given back, and a main entry is
/// answered with -1. That there is no registry is reported like a panic.
pub proof fn law_call_without_plugin<P, S, M, H, E>(
    module: String,
    access: RegistryAccess,
    message: RawMessage<H>,
    state: RegistryState<P, S, M>,
    looked_up: (HostCall<P, H, E>, HostAction<P, H>),
    released: (HostCall<P, H, E>, HostAction<P, H>),
)
    requires
        state@ matches Some(registry) ==> exists|name: &str|
            name@ == module@ && #[trigger] call_ensures(
                Registry::<P, S, M>::plugin_for_module,
                (&registry, name),
                None,
            ),
        call_ensures(
            HostCall::<P, H, E>::step::<S, M>,
            (HostCall::Locking { module, access, message }, HostEvent::Locked(&state)),
            looked_up,
        ),
        call_ensures(
            HostCall::<P, H, E>::step::<S, M>,
            (looked_up.0, HostEvent::Unlocked),
            released,
        ),
    ensures
        call_requires(
            HostCall::<P, H, E>::step::<S, M>,
            (HostCall::Locking { module, access, message }, HostEvent::Locked(&state)),
        ),
        call_requires(HostCall::<P, H, E>::step::<S, M>, (looked_up.0, HostEvent::Unlocked)),
        looked_up.1 == HostAction::<P, H>::Unlock,
        released.1 matches HostAction::Return(reply) && {
            &&& message is MainEntry ==> reply.status == Some(-1i32)
            &&& message is SetHost ==> reply.status is None
            &&& state@ is Some ==> reply.report is None
            &&& state@ is None ==> {
                reply.report matches Some(report) && {
                    &&& message is MainEntry ==> report@ == "panic in OFX main entry for plugin "@
                        + module@ + ": "@ + "registry not initialized"@
                    &&& message is SetHost ==> report@ == "panic while setting host for plugin "@
                        + module@ + ": "@ + "registry not initialized"@
                }
            }
        },
{
}

/// The message of a panic is the text that it carries, if it carries one.
pub proof fn law_panic_message(payload: PanicPayload, text: String)
    requires
        call_ensures(panic_payload_to_string, (&payload,), text),
    ensures
        payload matches PanicPayload::Literal(carried) ==> text@ == carried@,
        payload matches PanicPayload::Text(carried) ==> text@ == carried@,
        payload is Other ==> text@ == "<non-string panic payload>"@,
{
}

/// What the host is told of an outcome.
pub proof fn law_reply_to_host<E>(
    kind: CallKind,
    module: &str,
    outcome: HostOutcome<E>,
    reply: HostReply,
)
    requires
        call_ensures(reply_to_host::<E>, (kind, module, outcome), reply),
    ensures
        kind is SetHost ==> reply.status is None,
        kind is MainEntry ==> reply.status == Some(
            match outcome {
                HostOutcome::Finished(Ok(status)) => status,
                _ => -1i32,
            },
        ),
        outcome is Finished ==> reply.report is None,
        outcome matches HostOutcome::Panicked(text) ==> {
            reply.report matches Some(report) && {
                &&& kind is MainEntry ==> report@ == "panic in OFX main entry for plugin "@
                    + module@ + ": "@ + text@
                &&& kind is SetHost ==> report@ == "panic while setting host for plugin "@ + module@
                    + ": "@ + text@
            }
        },
{
}

/// A descriptor holds what it was made of.
pub proof fn law_descriptor<P, S, M>(
    plugin_index: usize,
    module_name: &'static str,
    name: &'static str,
    api_version: ApiVersion,
    plugin_version: PluginVersion,
    instance: P,
    set_host: S,
    main_entry: M,
    plugin: PluginDescriptor<P, S, M>,
)
    requires
        plugin.describes(
            plugin_index,
            module_name,
            name,
            api_version,
            plugin_version,
            instance,
            set_host,
            main_entry,
        ) || call_ensures(
            PluginDescriptor::<P, S, M>::new,
            (
                plugin_index,
                module_name,
                name,
                api_version,
                plugin_version,
                instance,
                set_host,
                main_entry,
            ),
            plugin,
        ),
    ensures
        plugin.plugin_index == plugin_index,
        plugin.module_name == module_name,
        plugin.name == name,
        plugin.api_version == api_version,
        plugin.plugin_version == plugin_version,
        *plugin.instance == instance,
        plugin.set_host == set_host,
        plugin.main_entry == main_entry,
{
}

/// A plugin can be read back as it was added, by its place and by its module. What
/// was there before is where it was, and each other module has the plugin it had.
pub proof fn law_add_then_read<P, S, M>(
    module_name: &'static str,
    name: &'static str,
    api_version: ApiVersion,
    plugin_version: PluginVersion,
    instance: P,
    set_host: S,
    main_entry: M,
    index: usize,
    before: Registry<P, S, M>,
    after: Registry<P, S, M>,
)
    requires
        exists|registry: &mut Registry<P, S, M>|
            *registry == before && *final(registry) == after && #[trigger] call_ensures(
                Registry::<P, S, M>::add,
                (
                    registry,
                    module_name,
                    name,
                    api_version,
                    plugin_version,
                    instance,
                    set_host,
                    main_entry,
                ),
                index,
            ),
    ensures
        forall|plugin: &PluginDescriptor<P, S, M>| #[trigger]
            call_ensures(Registry::<P, S, M>::get_plugin, (&after, index), plugin) ==> {
                &&& plugin.plugin_index == index
                &&& plugin.module_name == module_name
                &&& plugin.name == name
                &&& plugin.api_version == api_version
                &&& plugin.plugin_version == plugin_version
                &&& *plugin.instance == instance
                &&& plugin.set_host == set_host
                &&& plugin.main_entry == main_entry
            },
        forall|
            other: usize,
            old_plugin: &PluginDescriptor<P, S, M>,
            new_plugin: &PluginDescriptor<P, S, M>,
        |
            other < index && #[trigger] call_ensures(
                Registry::<P, S, M>::get_plugin,
                (&before, other),
                old_plugin,
            ) && #[trigger] call_ensures(
                Registry::<P, S, M>::get_plugin,
                (&after, other),
                new_plugin,
            ) ==> *new_plugin == *old_plugin,
        forall|module: &str, found: Option<Arc<P>>|
            module@ == module_name@ && #[trigger] call_ensures(
                Registry::<P, S, M>::plugin_for_module,
                (&after, module),
                found,
            ) ==> (found matches Some(plugin) && *plugin == instance),
        forall|module: &str, old_found: Option<Arc<P>>, new_found: Option<Arc<P>>|
            module@ != module_name@ && #[trigger] call_ensures(
                Registry::<P, S, M>::plugin_for_module,
                (&before, module),
                old_found,
            ) && #[trigger] call_ensures(
                Registry::<P, S, M>::plugin_for_module,
                (&after, module),
                new_found,
            ) ==> new_found == old_found,
        forall|old_count: Int, new_count: Int|
            index < Int::MAX && #[trigger] call_ensures(
                Registry::<P, S, M>::count,
                (&before,),
                old_count,
            ) && #[trigger] call_ensures(Registry::<P, S, M>::count, (&after,), new_count)
                ==> old_count == index && new_count == index + 1,
{
}

/// A new registry counts no plugin and has one for no module.
pub proof fn law_new_registry<P, S, M>(registry: Registry<P, S, M>)
    requires
        call_ensures(Registry::<P, S, M>::new, (), registry),
    ensures
        forall|count: Int| #[trigger]
            call_ensures(Registry::<P, S, M>::count, (&registry,), count) ==> count == 0,
        forall|module: &str, found: Option<Arc<P>>| #[trigger]
            call_ensures(Registry::<P, S, M>::plugin_for_module, (&registry, module), found)
                ==> found is None,
{
}

/// The host's number for a plugin is the plugin's place.
pub proof fn law_number_is_place<P, S, M>(
    registry: Registry<P, S, M>,
    index: usize,
    number: Int,
    by_place: &PluginDescriptor<P, S, M>,
    by_number: &PluginDescriptor<P, S, M>,
)
    requires
        number == index,
        call_ensures(Registry::<P, S, M>::get_plugin, (&registry, index), by_place),
        call_ensures(Registry::<P, S, M>::ofx_plugin_ptr, (&registry, number), by_number),
    ensures
        *by_number == *by_place,
{
}

/// Changing a plugin in its place changes it there and nowhere else. As long as it
/// keeps its instance, each module has the plugin it had; and a module that had
/// this one has the new instance.
pub proof fn law_change_in_place<P, S, M>(
    before: Registry<P, S, M>,
    index: usize,
    old_plugin: PluginDescriptor<P, S, M>,
    new_plugin: PluginDescriptor<P, S, M>,
    after: Registry<P, S, M>,
)
    requires
        index < before@.plugins.len(),
        exists|registry: &mut Registry<P, S, M>, plugin: &mut PluginDescriptor<P, S, M>|
            *registry == before && *final(registry) == after && *plugin == old_plugin
                && *final(plugin) == new_plugin && #[trigger] call_ensures(
                Registry::<P, S, M>::get_plugin_mut,
                (registry, index),
                plugin,
            ),
    ensures
        forall|plugin: &PluginDescriptor<P, S, M>| #[trigger]
            call_ensures(Registry::<P, S, M>::get_plugin, (&before, index), plugin) ==> *plugin
                == old_plugin,
        forall|plugin: &PluginDescriptor<P, S, M>| #[trigger]
            call_ensures(Registry::<P, S, M>::get_plugin, (&after, index), plugin) ==> *plugin
                == new_plugin,
        forall|
            other: usize,
            earlier: &PluginDescriptor<P, S, M>,
            later: &PluginDescriptor<P, S, M>,
        |
            other != index && other < before@.plugins.len() && #[trigger] call_ensures(
                Registry::<P, S, M>::get_plugin,
                (&before, other),
                earlier,
            ) && #[trigger] call_ensures(
                Registry::<P, S, M>::get_plugin,
                (&after, other),
                later,
            ) ==> *later == *earlier,
        forall|module: &str, old_found: Option<Arc<P>>, new_found: Option<Arc<P>>|
            #[trigger] call_ensures(
                Registry::<P, S, M>::plugin_for_module,
                (&before, module),
                old_found,
            ) && #[trigger] call_ensures(
                Registry::<P, S, M>::plugin_for_module,
                (&after, module),
                new_found,
            ) ==> {
                &&& new_found is Some == old_found is Some
                &&& new_plugin.instance == old_plugin.instance ==> new_found == old_found
                &&& new_found == old_found || new_found == Some(new_plugin.instance)
            },
        forall|old_count: Int, new_count: Int| #[trigger]
            call_ensures(Registry::<P, S, M>::count, (&before,), old_count) && #[trigger]
            call_ensures(Registry::<P, S, M>::count, (&after,), new_count) ==> new_count
                == old_count,
{
}

/// A message is handed to the plugin of the module, between entering and leaving
/// the plugin's gate, and what the plugin returns is what comes back: each status
/// as it is, and each error as the plugin's.
pub proof fn law_dispatch<P, S, M, H, E, G, Enter, Run, Leave>(
    before: Registry<P, S, M>,
    plugin_module: &str,
    message: RawMessage<H>,
    enter: Enter,
    run: Run,
    leave: Leave,
    result: Result<Int, Error<E>>,
) where
    Enter: FnOnce(&P) -> G,
    Run: FnOnce(&P, &G, RawMessage<H>) -> Result<Int, E>,
    Leave: FnOnce(&P, G),

    requires
        exists|registry: &mut Registry<P, S, M>|
            *registry == before && #[trigger] call_ensures(
                Registry::<P, S, M>::dispatch,
                (registry, plugin_module, message, enter, run, leave),
                result,
            ),
    ensures
        call_ensures(
            Registry::<P, S, M>::plugin_for_module,
            (&before, plugin_module),
            None::<Arc<P>>,
        ) ==> result == Err::<Int, Error<E>>(Error::PluginNotFound),
        forall|plugin: Arc<P>| #[trigger]
            call_ensures(
                Registry::<P, S, M>::plugin_for_module,
                (&before, plugin_module),
                Some(plugin),
            ) ==> exists|guard: G, reply: Result<Int, E>|
                {
                    &&& call_ensures(enter, (&*plugin,), guard)
                    &&& #[trigger] call_ensures(run, (&*plugin, &guard, message), reply)
                    &&& call_ensures(leave, (&*plugin, guard), ())
                    &&& result is Ok == reply is Ok
                    &&& reply matches Ok(status) ==> result == Ok::<Int, Error<E>>(status)
                    &&& reply matches Err(error) ==> result == Err::<Int, Error<E>>(
                        Error::Plugin(error),
                    )
                },
{
}

/// The suites that are read are those that were handed over, and a suite that the
/// host lacks is lacking.
pub proof fn law_suites_are_handed_out<T: SuiteTypes>(
    image_effect: T::ImageEffect,
    property: T::Property,
    parameter: T::Parameter,
    memory: T::Memory,
    multi_thread: T::MultiThread,
    message: T::Message,
    message_v2: Option<T::MessageV2>,
    progress: T::Progress,
    progress_v2: Option<T::ProgressV2>,
    time_line: T::TimeLine,
    parametric_parameter: Option<T::ParametricParameter>,
    image_effect_opengl_render: Option<T::ImageEffectOpenGLRender>,
    suites: Suites<T>,
)
    requires
        call_ensures(
            Suites::<T>::new,
            (
                image_effect,
                property,
                parameter,
                memory,
                multi_thread,
                message,
                message_v2,
                progress,
                progress_v2,
                time_line,
                parametric_parameter,
                image_effect_opengl_render,
            ),
            suites,
        ),
    ensures
        forall|suite: Arc<T::ImageEffect>| #[trigger]
            call_ensures(Suites::<T>::image_effect, (&suites,), suite) ==> *suite == image_effect,
        forall|suite: Arc<T::Property>| #[trigger]
            call_ensures(Suites::<T>::property, (&suites,), suite) ==> *suite == property,
        forall|suite: Arc<T::Parameter>| #[trigger]
            call_ensures(Suites::<T>::parameter, (&suites,), suite) ==> *suite == parameter,
        forall|suite: Arc<T::MultiThread>| #[trigger]
            call_ensures(Suites::<T>::multi_thread, (&suites,), suite) ==> *suite == multi_thread,
        forall|suite: Option<Arc<T::ImageEffectOpenGLRender>>| #[trigger]
            call_ensures(Suites::<T>::image_effect_opengl_render, (&suites,), suite) ==> {
                &&& suite is Some == image_effect_opengl_render is Some
                &&& suite matches Some(suite) ==> Some(*suite) == image_effect_opengl_render
            },
        forall|clone: Suites<T>| #[trigger]
            call_ensures(Suites::<T>::clone, (&suites,), clone) ==> clone == suites,
{
}

/// A new dispatch gate lets any thread in.
pub proof fn law_new_gate(fresh: DispatchGateState)
    requires
        call_ensures(DispatchGateState::new, (), fresh),
    ensures
        forall|gate: &mut DispatchGateState, thread: u64, entered: bool|
            *gate == fresh && #[trigger] call_ensures(
                DispatchGateState::enter,
                (gate, thread),
                entered,
            ) ==> entered,
        forall|depth: usize| #[trigger]
            call_ensures(DispatchGateState::depth, (&fresh,), depth) ==> depth == 0,
{
}

/// Entering adds one to the depth, and from then on the thread that entered, and it
/// alone, is let in. Being refused changes nothing.
pub proof fn law_enter(
    before: DispatchGateState,
    after: DispatchGateState,
    thread: u64,
    entered: bool,
)
    requires
        exists|gate: &mut DispatchGateState|
            *gate == before && *final(gate) == after && #[trigger] call_ensures(
                DispatchGateState::enter,
                (gate, thread),
                entered,
            ),
    ensures
        forall|gate: &mut DispatchGateState, next: u64|
            gate@.depth < usize::MAX ==> #[trigger] call_requires(
                DispatchGateState::enter,
                (gate, next),
            ),
        forall|gate: &mut DispatchGateState, next: u64, let_in: bool|
            entered && *gate == after && #[trigger] call_ensures(
                DispatchGateState::enter,
                (gate, next),
                let_in,
            ) ==> let_in == (next == thread),
        forall|
            first: &mut DispatchGateState,
            second: &mut DispatchGateState,
            next: u64,
            let_in_before: bool,
            let_in_after: bool,
        |
            !entered && *first == before && *second == after && #[trigger] call_ensures(
                DispatchGateState::enter,
                (first, next),
                let_in_before,
            ) && #[trigger] call_ensures(DispatchGateState::enter, (second, next), let_in_after)
                ==> let_in_after == let_in_before,
        forall|old_depth: usize, new_depth: usize| #[trigger]
            call_ensures(DispatchGateState::depth, (&before,), old_depth) && #[trigger]
            call_ensures(DispatchGateState::depth, (&after,), new_depth) ==> new_depth == (
            if entered {
                old_depth + 1
            } else {
                old_depth as int
            }),
        forall|depth: usize|
            !entered && #[trigger] call_ensures(DispatchGateState::depth, (&before,), depth)
                ==> depth > 0,
{
}

/// Leaving takes one from the depth. The leave that empties the dispatch gate is the
/// one that wakes a thread, and then any thread is let in; after any other leave
/// those are let in who were let in before.
pub proof fn law_leave(before: DispatchGateState, after: DispatchGateState, notify: bool)
    requires
        before@.depth > 0,
        before@.wf(),
        exists|gate: &mut DispatchGateState|
            *gate == before && *final(gate) == after && #[trigger] call_ensures(
                DispatchGateState::leave,
                (gate,),
                notify,
            ),
    ensures
        forall|old_depth: usize, new_depth: usize| #[trigger]
            call_ensures(DispatchGateState::depth, (&before,), old_depth) && #[trigger]
            call_ensures(DispatchGateState::depth, (&after,), new_depth) ==> {
                &&& new_depth == old_depth - 1
                &&& notify == (new_depth == 0)
            },
        forall|gate: &mut DispatchGateState, thread: u64, let_in: bool|
            notify && *gate == after && #[trigger] call_ensures(
                DispatchGateState::enter,
                (gate, thread),
                let_in,
            ) ==> let_in,
        forall|
            first: &mut DispatchGateState,
            second: &mut DispatchGateState,
            thread: u64,
            let_in_before: bool,
            let_in_after: bool,
        |
            !notify && *first == before && *second == after && #[trigger] call_ensures(
                DispatchGateState::enter,
                (first, thread),
                let_in_before,
            ) && #[trigger] call_ensures(DispatchGateState::enter, (second, thread), let_in_after)
                ==> let_in_after == let_in_before,
{
}

/// The count agrees with the number of plugins as far as the host's numbers go:
/// it is the number where that fits, and has the number's low bits where not.
pub proof fn law_count<P, S, M>(registry: Registry<P, S, M>, count: Int)
    requires
        registry@.plugins.len() <= usize::MAX,
        call_ensures(Registry::<P, S, M>::count, (&registry,), count),
    ensures
        registry@.plugins.len() <= 0x7fff_ffff ==> count == registry@.plugins.len(),
        count as u32 == (registry@.plugins.len() as usize) as u32,
{
    let len = registry@.plugins.len() as usize;
    assert((len as i32) as u32 == len as u32) by (bit_vector);
}

/// There is no registry at first. An initialization makes one, out of an empty one
/// and what the function does to it, and a later one changes nothing.
pub proof fn law_init<P, S, M, F>(
    before: RegistryState<P, S, M>,
    init_function: F,
    after: RegistryState<P, S, M>,
) where F: FnOnce(&mut Registry<P, S, M>)
    requires
        exists|state: &mut RegistryState<P, S, M>|
            *state == before && *final(state) == after && #[trigger] call_ensures(
                RegistryState::<P, S, M>::init::<F>,
                (state, init_function),
                (),
            ),
    ensures
        call_ensures(RegistryState::<P, S, M>::new, (), before) ==> before@ is None,
        forall|initialized: bool| #[trigger]
            call_ensures(RegistryState::<P, S, M>::is_initialized, (&after,), initialized)
                ==> initialized,
        forall|initialized: bool| #[trigger]
            call_ensures(RegistryState::<P, S, M>::is_initialized, (&before,), initialized) ==> {
                &&& initialized ==> after@ == before@
                &&& !initialized ==> exists|registry: &mut Registry<P, S, M>|
                    {
                        &&& #[trigger] call_ensures(init_function, (registry,), ())
                        &&& after@ == Some(*final(registry))
                        &&& registry@.plugins.len() == 0
                        &&& forall|module: &str, found: Option<Arc<P>>| #[trigger]
                            call_ensures(
                                Registry::<P, S, M>::plugin_for_module,
                                (&*registry, module),
                                found,
                            ) ==> found is None
                    }
            },
{
}

/// What reads the registry gets it as it is, and returns what it returns.
pub proof fn law_with_registry<P, S, M, R, F>(
    state: RegistryState<P, S, M>,
    registry: Registry<P, S, M>,
    f: F,
    result: R,
) where F: FnOnce(&Registry<P, S, M>) -> R
    requires
        state@ == Some(registry),
        call_ensures(RegistryState::<P, S, M>::with_registry, (&state, f), result),
    ensures
        call_ensures(f, (&registry,), result),
{
}

/// What changes the registry gets it as it is, returns what it returns, and what it
/// leaves is what is there afterwards.
pub proof fn law_with_registry_mut<P, S, M, R, F>(
    before: RegistryState<P, S, M>,
    registry: Registry<P, S, M>,
    f: F,
    after: RegistryState<P, S, M>,
    result: R,
) where F: FnOnce(&mut Registry<P, S, M>) -> R
    requires
        before@ == Some(registry),
        exists|state: &mut RegistryState<P, S, M>|
            *state == before && *final(state) == after && #[trigger] call_ensures(
                RegistryState::<P, S, M>::with_registry_mut,
                (state, f),
                result,
            ),
    ensures
        exists|changed: &mut Registry<P, S, M>|
            *changed == registry && after@ == Some(*final(changed)) && #[trigger] call_ensures(
                f,
                (changed,),
                result,
            ),
{
}

/// A function of a suite is called with the arguments that were given, and one that
/// the host left out is an error.
pub proof fn law_suite_call<A, R, E, F>(
    function: Option<F>,
    arguments: A,
    result: Result<R, Error<E>>,
) where F: FnOnce(A) -> R
    requires
        call_ensures(suite_call, (function, arguments), result),
    ensures
        function is None ==> result == Err::<R, Error<E>>(Error::SuiteNotInitialized),
        function matches Some(function) ==> {
            result matches Ok(value) && call_ensures(function, (arguments,), value)
        },
{
}

} // verus!
