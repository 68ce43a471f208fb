use ofx_registry::gate::DispatchGateState;
use ofx_registry::host_call::{
    main_entry_for_plugin, main_entry_requires_registry_mutation_lock, panic_payload_to_string,
    reply_to_host, set_host_for_plugin, CallKind, HostAction, HostCall, HostEvent, HostOutcome,
    HostReply, PanicPayload, RegistryAccess,
};
use ofx_registry::registry::RegistryState;
use ofx_registry::types::{ApiVersion, Error, Int, PluginVersion, RawMessage};
use std::sync::{Mutex, RwLock, RwLockReadGuard, RwLockWriteGuard};

const STATUS_OK: Int = 0;
const ACTION_ADDRESS: usize = 4096;
const THREAD: u64 = 1;
const OTHER_THREAD: u64 = 2;

struct NoopPlugin {
    gate: Mutex<DispatchGateState>,
}

impl NoopPlugin {
    fn new() -> Self {
        NoopPlugin { gate: Mutex::new(DispatchGateState::new()) }
    }

    fn depth(&self) -> usize {
        self.gate.lock().unwrap().depth()
    }
}

type State = RegistryState<NoopPlugin, u8, u8>;
type Call = HostCall<NoopPlugin, u32, Int>;
type Action = HostAction<NoopPlugin, u32>;
type Reply = Result<Result<Int, Int>, PanicPayload>;

enum Guard<'a> {
    Shared(RwLockReadGuard<'a, State>),
    Exclusive(RwLockWriteGuard<'a, State>),
}

fn test_registry_state() -> RwLock<State> {
    let mut state = State::new();
    state.init(|registry| {
        registry.add(
            "test_module",
            "net.ofx-rs.test",
            ApiVersion(1),
            PluginVersion(1, 0),
            NoopPlugin::new(),
            1,
            2,
        );
    });
    RwLock::new(state)
}

fn run(
    lock: &RwLock<State>,
    start: (Call, Action),
    mut plugin_code: impl FnMut(&NoopPlugin, RawMessage<u32>) -> Reply,
) -> HostReply {
    let (mut call, mut action) = start;
    let mut guard: Option<Guard<'_>> = None;
    loop {
        let next = match action {
            HostAction::Lock(access) => {
                assert!(guard.is_none());
                match access {
                    RegistryAccess::Shared => {
                        let held = lock.read().unwrap();
                        let next = call.step(HostEvent::Locked(&held));
                        guard = Some(Guard::Shared(held));
                        next
                    }
                    RegistryAccess::Exclusive => {
                        let held = lock.write().unwrap();
                        let next = call.step(HostEvent::Locked(&held));
                        guard = Some(Guard::Exclusive(held));
                        next
                    }
                }
            }
            HostAction::Unlock => {
                match guard.take() {
                    Some(Guard::Shared(held)) => drop(held),
                    Some(Guard::Exclusive(held)) => drop(held),
                    None => panic!("the lock is not held"),
                }
                call.step(HostEvent::<NoopPlugin, u8, u8, Int>::Unlocked)
            }
            HostAction::Enter { plugin } => {
                assert!(plugin.gate.lock().unwrap().enter(THREAD));
                call.step(HostEvent::<NoopPlugin, u8, u8, Int>::Entered)
            }
            HostAction::Leave { plugin } => {
                let notify = plugin.gate.lock().unwrap().leave();
                assert_eq!(notify, plugin.depth() == 0);
                call.step(HostEvent::<NoopPlugin, u8, u8, Int>::Left)
            }
            HostAction::Dispatch { plugin, message } => match plugin_code(&plugin, message) {
                Ok(reply) => call.step(HostEvent::<NoopPlugin, u8, u8, Int>::Returned(reply)),
                Err(payload) => call.step(HostEvent::<NoopPlugin, u8, u8, Int>::Panicked(payload)),
            },
            HostAction::Return(reply) => {
                assert!(guard.is_none());
                assert!(matches!(call, HostCall::Finished));
                return reply;
            }
        };
        call = next.0;
        action = next.1;
    }
}

fn main_entry(module: &str, action: Option<&[u8]>) -> (Call, Action) {
    let address = if action.is_some() { ACTION_ADDRESS } else { 0 };
    main_entry_for_plugin(module, address, action, 21, 22, 23)
}

#[test]
fn normal_main_entry_lookup_releases_registry_lock_before_dispatch() {
    let state = test_registry_state();
    let action: &[u8] = b"OfxActionInstanceChanged\0";

    let result = run(&state, main_entry("test_module", Some(action)), |_, _| {
        assert!(
            state.try_write().is_ok(),
            "normal actions must dispatch outside the global registry lock"
        );
        Ok(Ok(STATUS_OK))
    });

    assert_eq!(result.status.unwrap(), STATUS_OK);
}

#[test]
fn lifecycle_main_entry_lookup_keeps_registry_mutation_lock() {
    let state = test_registry_state();
    let action: &[u8] = b"OfxActionDescribe\0";

    let result = run(&state, main_entry("test_module", Some(action)), |_, _| {
        assert!(
            state.try_write().is_err(),
            "Describe must stay under the registry mutation lock"
        );
        Ok(Ok(STATUS_OK))
    });

    assert_eq!(result.status.unwrap(), STATUS_OK);
}

#[test]
fn exactly_the_lifecycle_actions_need_the_mutation_lock() {
    let needed: [&[u8]; 3] = [b"OfxActionLoad\0", b"OfxActionUnload\0", b"OfxActionDescribe\0"];
    for action in needed {
        assert!(main_entry_requires_registry_mutation_lock(Some(action)));
    }
    let not_needed: [&[u8]; 7] = [
        b"OfxActionInstanceChanged\0",
        b"OfxActionCreateInstance\0",
        b"OfxActionLoad",
        b"OfxActionLoaX\0",
        b"ofxActionLoad\0",
        b"\0",
        b"",
    ];
    for action in not_needed {
        assert!(!main_entry_requires_registry_mutation_lock(Some(action)));
    }
    assert!(!main_entry_requires_registry_mutation_lock(None));
}

#[test]
fn null_action_is_dispatched_without_the_lock() {
    let state = test_registry_state();
    let result = run(&state, main_entry("test_module", None), |_, message| {
        assert!(state.try_write().is_ok());
        assert_eq!(
            message,
            RawMessage::MainEntry { action: 0, handle: 21, in_args: 22, out_args: 23 }
        );
        Ok(Ok(14))
    });
    assert_eq!(result.status, Some(14));
    assert!(result.report.is_none());
}

#[test]
fn main_entry_hands_its_arguments_to_the_plugin() {
    let state = test_registry_state();
    let mut seen: Vec<RawMessage<u32>> = Vec::new();
    let result = run(
        &state,
        main_entry("test_module", Some(b"OfxActionLoad\0")),
        |_, message| {
            seen.push(message);
            Ok(Ok(3))
        },
    );
    assert_eq!(result.status, Some(3));
    assert_eq!(
        seen,
        vec![RawMessage::MainEntry {
            action: ACTION_ADDRESS,
            handle: 21,
            in_args: 22,
            out_args: 23
        }]
    );
}

#[test]
fn main_entry_of_an_unknown_module_fails() {
    let state = test_registry_state();
    let actions: [&[u8]; 2] = [b"OfxActionLoad\0", b"OfxActionInstanceChanged\0"];
    for action in actions {
        let result = run(&state, main_entry("missing", Some(action)), |_, _| {
            panic!("there is no plugin")
        });
        assert_eq!(result.status, Some(-1));
        assert!(result.report.is_none());
    }
    assert!(state.try_write().is_ok());
}

#[test]
fn main_entry_of_a_failing_plugin_fails() {
    let state = test_registry_state();
    let result = run(
        &state,
        main_entry("test_module", Some(b"OfxActionUnload\0")),
        |_, _| Ok(Err(4)),
    );
    assert_eq!(result.status, Some(-1));
    assert!(result.report.is_none());
}

#[test]
fn main_entry_survives_a_panic() {
    let state = test_registry_state();
    let result = run(
        &state,
        main_entry("test_module", Some(b"OfxActionDescribe\0")),
        |_, _| Err(PanicPayload::Text("out of paint".to_owned())),
    );
    assert_eq!(result.status, Some(-1));
    assert_eq!(
        result.report.unwrap(),
        "panic in OFX main entry for plugin test_module: out of paint"
    );
    assert!(state.try_write().is_ok());
}

#[test]
fn main_entry_without_a_registry_fails() {
    let state = RwLock::new(State::new());
    let result = run(&state, main_entry("test_module", None), |_, _| {
        panic!("there is no plugin")
    });
    assert_eq!(result.status, Some(-1));
    assert_eq!(
        result.report.unwrap(),
        "panic in OFX main entry for plugin test_module: registry not initialized"
    );
    assert!(state.try_write().is_ok());
}

#[test]
fn setting_the_host_keeps_the_registry_locked() {
    let state = test_registry_state();
    let mut hosts: Vec<RawMessage<u32>> = Vec::new();
    let result = run(&state, set_host_for_plugin("test_module", 77), |_, message| {
        assert!(state.try_read().is_err());
        hosts.push(message);
        Ok(Err(2))
    });
    assert!(result.status.is_none());
    assert!(result.report.is_none());
    assert_eq!(hosts, vec![RawMessage::SetHost { host: 77 }]);
}

#[test]
fn setting_the_host_reports_a_panic() {
    let state = test_registry_state();
    let result = run(&state, set_host_for_plugin("test_module", 77), |_, _| {
        Err(PanicPayload::Other)
    });
    assert!(result.status.is_none());
    assert_eq!(
        result.report.unwrap(),
        "panic while setting host for plugin test_module: <non-string panic payload>"
    );
}

#[test]
fn panic_messages() {
    assert_eq!(panic_payload_to_string(&PanicPayload::Literal("a")), "a");
    assert_eq!(panic_payload_to_string(&PanicPayload::Text("b".to_owned())), "b");
    assert_eq!(
        panic_payload_to_string(&PanicPayload::Other),
        "<non-string panic payload>"
    );
}

#[test]
fn replies_to_the_host() {
    let outcome: HostOutcome<u8> = HostOutcome::Finished(Ok(9));
    assert_eq!(reply_to_host(CallKind::MainEntry, "m", outcome).status, Some(9));
    let outcome: HostOutcome<u8> = HostOutcome::Finished(Err(Error::PluginNotFound));
    assert_eq!(reply_to_host(CallKind::MainEntry, "m", outcome).status, Some(-1));
    let outcome: HostOutcome<u8> = HostOutcome::Finished(Err(Error::Plugin(1)));
    assert_eq!(reply_to_host(CallKind::MainEntry, "m", outcome).status, Some(-1));
    let outcome: HostOutcome<u8> = HostOutcome::Finished(Ok(9));
    assert_eq!(reply_to_host(CallKind::SetHost, "m", outcome).status, None);
    let outcome: HostOutcome<u8> = HostOutcome::Panicked("p".to_owned());
    let reply = reply_to_host(CallKind::MainEntry, "m", outcome);
    assert_eq!(reply.status, Some(-1));
    assert_eq!(reply.report.unwrap(), "panic in OFX main entry for plugin m: p");
}

#[test]
fn plugin_runs_inside_its_gate() {
    let state = test_registry_state();
    let actions: [&[u8]; 2] = [b"OfxActionLoad\0", b"OfxActionInstanceChanged\0"];
    for action in actions {
        run(&state, main_entry("test_module", Some(action)), |plugin, _| {
            assert_eq!(plugin.depth(), 1);
            Ok(Ok(STATUS_OK))
        });
        run(&state, main_entry("test_module", Some(action)), |plugin, _| {
            assert_eq!(plugin.depth(), 1);
            Err(PanicPayload::Literal("spilled"))
        });
    }
    let plugin = state.read().unwrap().with_registry(|registry| {
        registry.plugin_for_module("test_module").unwrap()
    });
    assert_eq!(plugin.depth(), 0);
}

#[test]
fn plugin_may_be_called_again_from_within() {
    let state = test_registry_state();
    let action: &[u8] = b"OfxActionInstanceChanged\0";
    let outer = run(&state, main_entry("test_module", Some(action)), |_, _| {
        let inner = run(&state, main_entry("test_module", Some(action)), |plugin, _| {
            assert_eq!(plugin.depth(), 2);
            Ok(Ok(5))
        });
        Ok(Ok(inner.status.unwrap() + 1))
    });
    assert_eq!(outer.status, Some(6));
}

#[test]
fn lifecycle_action_gets_through_from_within_an_ordinary_one() {
    let state = test_registry_state();
    let ordinary: &[u8] = b"OfxActionInstanceChanged\0";
    let lifecycle: &[u8] = b"OfxActionDescribe\0";
    let outer = run(&state, main_entry("test_module", Some(ordinary)), |plugin, _| {
        let inner = run(&state, main_entry("test_module", Some(lifecycle)), |plugin, _| {
            assert!(state.try_write().is_err());
            assert!(!plugin.gate.lock().unwrap().enter(OTHER_THREAD));
            Ok(Ok(5))
        });
        assert_eq!(inner.status, Some(5));
        assert_eq!(plugin.depth(), 1);
        assert!(!plugin.gate.lock().unwrap().enter(OTHER_THREAD));
        Ok(Ok(6))
    });
    assert_eq!(outer.status, Some(6));
}

#[test]
fn other_thread_gets_in_after_the_outer_call() {
    let state = test_registry_state();
    let action: &[u8] = b"OfxActionInstanceChanged\0";
    run(&state, main_entry("test_module", Some(action)), |plugin, _| {
        assert!(!plugin.gate.lock().unwrap().enter(OTHER_THREAD));
        Ok(Ok(STATUS_OK))
    });
    let plugin = state.read().unwrap().with_registry(|registry| {
        registry.plugin_for_module("test_module").unwrap()
    });
    assert!(plugin.gate.lock().unwrap().enter(OTHER_THREAD));
}
