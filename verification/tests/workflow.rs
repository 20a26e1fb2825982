use adb_wifi::address::Ipv4;
use adb_wifi::credentials::Credentials;
use adb_wifi::device::Device;
use adb_wifi::discovery::{react, Notification, Reaction};
use adb_wifi::process::{Invocation, ProcessOutcome};
use adb_wifi::token::encode;
use adb_wifi::workflow::{
    begin, step, Action, Event, Fault, State, DISCOVERY_TIMEOUT_SECS, EXIT_FAILURE, EXIT_SUCCESS,
};
use mdns_sd::ServiceInfo;
use std::collections::HashMap;

fn credentials() -> Credentials {
    Credentials::new("abcDEF1", "ADB_WIFI_xyz9876").unwrap()
}

fn device() -> Device {
    Device { ip: Ipv4::new(10, 0, 0, 2), port: 40000 }
}

fn run(mut state: State, events: Vec<Event>) -> (State, Vec<Action>) {
    let mut actions = Vec::new();
    for event in events {
        let (next, action) = step(state, event);
        state = next;
        actions.push(action);
    }
    (state, actions)
}

fn discovering() -> State {
    State::Discovering(credentials())
}

fn every_state() -> Vec<State> {
    vec![
        State::Start,
        State::CredentialsGenerated(credentials()),
        State::TokenDisplayed(credentials()),
        State::Discovering(credentials()),
        State::DeviceFound(credentials(), device()),
        State::TimedOut,
        State::Paired(device()),
        State::PairFailed(device()),
        State::PortPrompt(device()),
        State::Connecting(device(), 5555),
        State::Connected,
        State::ConnectFailed,
        State::ParseFailed,
        State::Aborted(Fault::Spawn),
    ]
}

fn every_event() -> Vec<Event> {
    vec![
        Event::CredentialsReady(credentials()),
        Event::TokenRendered,
        Event::DiscoveryStarted,
        Event::DeviceResolved(device()),
        Event::DiscoveryTimeout,
        Event::PairFinished(ProcessOutcome::exited(0)),
        Event::PairFinished(ProcessOutcome::exited(1)),
        Event::DiscoveryStopped,
        Event::PortEntered("5555\n".to_string()),
        Event::PortEntered("abc\n".to_string()),
        Event::ConnectFinished(ProcessOutcome::exited(0)),
        Event::ConnectFinished(ProcessOutcome::exited(1)),
        Event::Failed(Fault::Input),
    ]
}

#[test]
fn run_begins_with_generating_credentials() {
    assert_eq!(begin(), (State::Start, Action::GenerateCredentials));
}

#[test]
fn end_to_end_pairing_and_connection() {
    let (state, first) = begin();
    assert_eq!(first, Action::GenerateCredentials);
    let generated = Credentials::generate();
    let token = encode(&generated);
    let password = generated.password().to_string();

    let (state, action) = step(state, Event::CredentialsReady(generated.clone()));
    assert_eq!(state, State::CredentialsGenerated(generated.clone()));
    assert_eq!(action, Action::ShowToken(token));

    let (state, action) = step(state, Event::TokenRendered);
    assert_eq!(state, State::TokenDisplayed(generated.clone()));
    assert_eq!(action, Action::StartDiscovery("_adb-tls-pairing._tcp.local.".to_string()));

    let (state, action) = step(state, Event::DiscoveryStarted);
    assert_eq!(state, State::Discovering(generated.clone()));
    assert_eq!(action, Action::AwaitDevice(30));

    let resolved = ServiceInfo::new(
        "_adb-tls-pairing._tcp.local.",
        "adb-1234",
        "phone.local.",
        "10.0.0.2",
        40000,
        None::<HashMap<String, String>>,
    )
    .unwrap();
    let Reaction::Forward(found) = react(Notification::Resolved(resolved)) else {
        panic!("a resolved record with an address is forwarded");
    };
    assert_eq!(found, device());

    let (state, action) = step(state, Event::DeviceResolved(found));
    assert_eq!(state, State::DeviceFound(generated.clone(), device()));
    assert_eq!(
        action,
        Action::Pair(Invocation {
            program: "adb".to_string(),
            args: vec!["pair".to_string(), "10.0.0.2:40000".to_string(), password],
        })
    );

    let (state, action) = step(state, Event::PairFinished(ProcessOutcome::exited(0)));
    assert_eq!(state, State::Paired(device()));
    assert_eq!(action, Action::StopDiscovery);
    assert_eq!(
        state.message(),
        Some("device at 10.0.0.2:40000 is paired successfully".to_string())
    );

    let (state, action) = step(state, Event::DiscoveryStopped);
    assert_eq!(state, State::PortPrompt(device()));
    assert_eq!(action, Action::AskPort("Please enter the port for your device: ".to_string()));

    let (state, action) = step(state, Event::PortEntered("5555".to_string()));
    assert_eq!(state, State::Connecting(device(), 5555));
    assert_eq!(
        action,
        Action::Connect(Invocation {
            program: "adb".to_string(),
            args: vec!["connect".to_string(), "10.0.0.2:5555".to_string()],
        })
    );

    let (state, action) = step(state, Event::ConnectFinished(ProcessOutcome::exited(0)));
    assert_eq!(state, State::Connected);
    assert_eq!(action, Action::Exit(0));
    assert!(state.is_terminal());
    assert_eq!(state.message(), Some("device connected successfully".to_string()));
}

#[test]
fn discovery_timeout_reaches_timed_out() {
    assert_eq!(DISCOVERY_TIMEOUT_SECS, 30);
    let (state, action) = step(State::TokenDisplayed(credentials()), Event::DiscoveryStarted);
    assert_eq!(action, Action::AwaitDevice(30));
    let (state, action) = step(state, Event::DiscoveryTimeout);
    assert_eq!(state, State::TimedOut);
    assert_eq!(action, Action::Exit(EXIT_FAILURE));
    assert!(state.is_terminal());
    assert_eq!(state.message(), Some("timed out waiting for a device".to_string()));
}

#[test]
fn only_the_first_resolved_device_is_observed() {
    let first = Device { ip: Ipv4::new(10, 0, 0, 2), port: 40000 };
    let second = Device { ip: Ipv4::new(10, 0, 0, 3), port: 40001 };
    let (state, action) = step(discovering(), Event::DeviceResolved(first));
    assert_eq!(state, State::DeviceFound(credentials(), first));
    assert!(matches!(action, Action::Pair(_)));
    let (state, action) = step(state, Event::DeviceResolved(second));
    assert_eq!(state, State::DeviceFound(credentials(), first));
    assert_eq!(action, Action::Idle);
    let (state, actions) = run(
        discovering(),
        vec![
            Event::DeviceResolved(first),
            Event::DeviceResolved(second),
            Event::DeviceResolved(first),
            Event::DeviceResolved(second),
        ],
    );
    assert_eq!(state, State::DeviceFound(credentials(), first));
    assert_eq!(actions[1..], [Action::Idle, Action::Idle, Action::Idle]);
}

#[test]
fn device_resolved_after_pairing_is_ignored() {
    let late = Device { ip: Ipv4::new(10, 0, 0, 3), port: 40001 };
    for state in every_state() {
        if matches!(state, State::Discovering(_)) {
            continue;
        }
        let (next, action) = step(state.clone(), Event::DeviceResolved(late));
        assert_eq!(next, state);
        assert_eq!(action, Action::Idle);
    }
}

#[test]
fn pairing_exit_code_decides() {
    let found = State::DeviceFound(credentials(), device());
    let (state, action) = step(found.clone(), Event::PairFinished(ProcessOutcome::exited(0)));
    assert_eq!((state, action), (State::Paired(device()), Action::StopDiscovery));
    for code in [1, 2, -1, 127, 255, 256, i32::MAX, i32::MIN] {
        let (state, action) = step(found.clone(), Event::PairFinished(ProcessOutcome::exited(code)));
        assert_eq!(state, State::PairFailed(device()));
        assert_eq!(action, Action::Exit(EXIT_FAILURE));
        assert_eq!(state.message(), Some("failed to pair device: 10.0.0.2:40000".to_string()));
    }
    let (state, _) = step(found, Event::PairFinished(ProcessOutcome { code: None }));
    assert_eq!(state, State::PairFailed(device()));
}

#[test]
fn connect_exit_code_decides() {
    let connecting = State::Connecting(device(), 5555);
    let (state, action) =
        step(connecting.clone(), Event::ConnectFinished(ProcessOutcome::exited(0)));
    assert_eq!((state, action), (State::Connected, Action::Exit(EXIT_SUCCESS)));
    for code in [1, 2, -1, 127, 255, 256, i32::MAX, i32::MIN] {
        let (state, action) =
            step(connecting.clone(), Event::ConnectFinished(ProcessOutcome::exited(code)));
        assert_eq!(state, State::ConnectFailed);
        assert_eq!(action, Action::Exit(EXIT_FAILURE));
        assert_eq!(
            state.message(),
            Some("failed to connect to device. please use adb connect".to_string())
        );
    }
    let (state, _) = step(connecting, Event::ConnectFinished(ProcessOutcome { code: None }));
    assert_eq!(state, State::ConnectFailed);
}

#[test]
fn port_input_is_parsed() {
    let prompt = State::PortPrompt(device());
    let (state, _) = step(prompt.clone(), Event::PortEntered("5555".to_string()));
    assert_eq!(state, State::Connecting(device(), 5555));
    let (state, _) = step(prompt.clone(), Event::PortEntered("5555\n".to_string()));
    assert_eq!(state, State::Connecting(device(), 5555));
    for line in ["abc", "70000", "", "\n", "-1", " 5555"] {
        let (state, action) = step(prompt.clone(), Event::PortEntered(line.to_string()));
        assert_eq!(state, State::ParseFailed);
        assert_eq!(action, Action::Exit(EXIT_FAILURE));
        assert_eq!(
            state.message(),
            Some("failed to parse port. please use with adb connect".to_string())
        );
    }
}

#[test]
fn connect_uses_the_address_of_the_device_and_the_port_entered() {
    let found = Device { ip: Ipv4::new(192, 168, 1, 5), port: 37001 };
    let (_, action) = step(State::PortPrompt(found), Event::PortEntered("5555\n".to_string()));
    assert_eq!(
        action,
        Action::Connect(Invocation {
            program: "adb".to_string(),
            args: vec!["connect".to_string(), "192.168.1.5:5555".to_string()],
        })
    );
}

#[test]
fn failure_aborts_every_unfinished_state() {
    let faults = [
        (Fault::DiscoveryInit, "failed to start service discovery"),
        (Fault::Browse, "failed to browse service"),
        (Fault::Render, "failed to render pairing token"),
        (Fault::NoIpv4Address, "could not find ip address"),
        (Fault::ChannelClosed, "discovery ended without a device"),
        (Fault::Spawn, "failed to run adb"),
        (Fault::Input, "failed to read port"),
    ];
    for (fault, line) in faults {
        assert_eq!(fault.message(), line);
        for state in every_state() {
            let (next, action) = step(state.clone(), Event::Failed(fault));
            if state.is_terminal() {
                assert_eq!(next, state);
                assert_eq!(action, Action::Idle);
            } else {
                assert_eq!(next, State::Aborted(fault));
                assert_eq!(action, Action::Exit(EXIT_FAILURE));
                assert_eq!(next.message(), Some(line.to_string()));
            }
        }
    }
}

#[test]
fn terminal_states_absorb_every_event() {
    for state in every_state() {
        if !state.is_terminal() {
            continue;
        }
        for event in every_event() {
            let (next, action) = step(state.clone(), event);
            assert_eq!(next, state);
            assert_eq!(action, Action::Idle);
        }
    }
}

#[test]
fn terminal_states_are_the_six_final_ones() {
    let terminal: Vec<bool> = every_state().iter().map(|s| s.is_terminal()).collect();
    assert_eq!(
        terminal,
        vec![
            false, false, false, false, false, true, false, true, false, false, true, true, true,
            true
        ]
    );
}

#[test]
fn unexpected_events_change_nothing() {
    let expected = [
        (0usize, 0usize),
        (1, 1),
        (2, 2),
        (3, 3),
        (3, 4),
        (4, 5),
        (4, 6),
        (6, 7),
        (8, 8),
        (8, 9),
        (9, 10),
        (9, 11),
    ];
    for (i, state) in every_state().into_iter().enumerate() {
        for (j, event) in every_event().into_iter().enumerate() {
            let is_failure = matches!(event, Event::Failed(_));
            let (next, action) = step(state.clone(), event);
            if expected.contains(&(i, j)) || (is_failure && !state.is_terminal()) {
                assert_ne!(next, state);
                assert_ne!(action, Action::Idle);
            } else {
                assert_eq!(next, state);
                assert_eq!(action, Action::Idle);
            }
        }
    }
}

#[test]
fn exit_is_asked_exactly_when_the_run_ends() {
    for state in every_state() {
        for event in every_event() {
            let before = state.is_terminal();
            let (next, action) = step(state.clone(), event);
            let exits = matches!(action, Action::Exit(_));
            assert_eq!(exits, !before && next.is_terminal());
            assert_eq!(action == Action::Exit(EXIT_SUCCESS), !before && next == State::Connected);
        }
    }
}

#[test]
fn states_without_a_message() {
    assert_eq!(State::Start.message(), None);
    assert_eq!(State::CredentialsGenerated(credentials()).message(), None);
    assert_eq!(State::TokenDisplayed(credentials()).message(), None);
    assert_eq!(State::Discovering(credentials()).message(), None);
    assert_eq!(State::DeviceFound(credentials(), device()).message(), None);
    assert_eq!(State::PortPrompt(device()).message(), None);
    assert_eq!(State::Connecting(device(), 5555).message(), None);
}

#[test]
fn pairing_failure_ends_the_run_before_the_prompt() {
    let (state, actions) = run(
        State::Start,
        vec![
            Event::CredentialsReady(credentials()),
            Event::TokenRendered,
            Event::DiscoveryStarted,
            Event::DeviceResolved(device()),
            Event::PairFinished(ProcessOutcome::exited(1)),
            Event::DiscoveryStopped,
            Event::PortEntered("5555".to_string()),
            Event::ConnectFinished(ProcessOutcome::exited(0)),
        ],
    );
    assert_eq!(state, State::PairFailed(device()));
    assert_eq!(actions[4], Action::Exit(1));
    assert_eq!(actions[5..], [Action::Idle, Action::Idle, Action::Idle]);
}

#[test]
fn token_shown_is_the_token_of_the_credentials() {
    let (_, action) = step(State::Start, Event::CredentialsReady(credentials()));
    assert_eq!(
        action,
        Action::ShowToken("WIFI:T:ADB;S:ADB_WIFI_xyz9876;P:abcDEF1;;".to_string())
    );
}
