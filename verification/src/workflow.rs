//! The pairing workflow as a state machine.
//!
//! The machine decides; its caller acts. Each step takes the current state
//! and the event that the caller observed, and gives the next state and the
//! action that the caller is to perform next.
//!
//! Failures are reported loudly: every failure ends the run with a message
//! and a non-zero exit status, and a run that paired goes on to connect.
//! There is no best-effort mode in which a failure is only a warning.

use crate::credentials::{Credentials, CredentialsView};
use crate::device::Device;
use crate::port::{parse_port, port_of};
use crate::process::{Invocation, InvocationView, ProcessOutcome};
use crate::token::{encode, pairing_token};
use vstd::prelude::*;

verus! {

/// How long the workflow waits for a device to be resolved, in seconds.
pub const DISCOVERY_TIMEOUT_SECS: u64 = 30;

/// The exit status of a run that went through pairing and connection.
pub const EXIT_SUCCESS: u8 = 0;

/// The exit status of a run that failed.
pub const EXIT_FAILURE: u8 = 1;

/// The service type under which a device advertises wireless pairing.
pub open spec fn service_type() -> Seq<char> {
    "_adb-tls-pairing._tcp.local."@
}

/// The prompt for the port to connect to.
pub open spec fn port_prompt() -> Seq<char> {
    "Please enter the port for your device: "@
}

/// An operation that the run cannot go on without and that failed.
#[derive(Debug, Clone, Copy, PartialEq, Eq)]
pub enum Fault {
    /// The discovery mechanism could not be set up.
    DiscoveryInit,
    /// Browsing the service type could not be started.
    Browse,
    /// The pairing token could not be rendered.
    Render,
    /// A resolved record carried no IPv4 address.
    NoIpv4Address,
    /// The listener could not hand a device over.
    ChannelClosed,
    /// The external program could not be started or waited for.
    Spawn,
    /// The line with the port could not be read.
    Input,
}

/// Where the workflow stands.
#[derive(Debug, Clone, PartialEq, Eq)]
pub enum State {
    /// Nothing has been done yet.
    Start,
    /// The credentials of this run exist.
    CredentialsGenerated(Credentials),
    /// The pairing token is on the terminal.
    TokenDisplayed(Credentials),
    /// The listener runs and the workflow waits for a device.
    Discovering(Credentials),
    /// A device arrived in time; pairing with it is under way.
    DeviceFound(Credentials, Device),
    /// No device arrived in time. The run has failed.
    TimedOut,
    /// The device is paired; discovery is being shut down.
    Paired(Device),
    /// The pairing process reported failure. The run has failed.
    PairFailed(Device),
    /// The workflow waits for the port to connect to.
    PortPrompt(Device),
    /// A port was entered; connecting to it is under way.
    Connecting(Device, u16),
    /// The device is connected. The run has succeeded.
    Connected,
    /// The connect process reported failure. The run has failed.
    ConnectFailed,
    /// The line entered denotes no port. The run has failed.
    ParseFailed,
    /// An operation that the run depends on failed. The run has failed.
    Aborted(Fault),
}

/// What the caller observed.
#[derive(Debug, Clone, PartialEq, Eq)]
pub enum Event {
    /// Credentials were generated.
    CredentialsReady(Credentials),
    /// The token was rendered on the terminal.
    TokenRendered,
    /// Browsing has started and the listener runs.
    DiscoveryStarted,
    /// The listener handed over a device.
    DeviceResolved(Device),
    /// The wait for a device ran out.
    DiscoveryTimeout,
    /// The pairing process ended.
    PairFinished(ProcessOutcome),
    /// Discovery was shut down and the listener has ended.
    DiscoveryStopped,
    /// A line was read in answer to the prompt for the port.
    PortEntered(String),
    /// The connect process ended.
    ConnectFinished(ProcessOutcome),
    /// An operation that the run depends on failed.
    Failed(Fault),
}

/// What the caller is to do next.
#[derive(Debug, Clone, PartialEq, Eq)]
pub enum Action {
    /// Nothing: the event was not expected in this state and was ignored.
    Idle,
    /// Generate the credentials of this run.
    GenerateCredentials,
    /// Render the given pairing token on the terminal.
    ShowToken(String),
    /// Set up discovery, browse for the given service type and start the
    /// listener.
    StartDiscovery(String),
    /// Wait for a device from the listener, for at most the given number of
    /// seconds.
    AwaitDevice(u64),
    /// Run the given pairing invocation and wait for it to end.
    Pair(Invocation),
    /// Run the given connect invocation and wait for it to end.
    Connect(Invocation),
    /// Shut discovery down and wait for the listener to end.
    StopDiscovery,
    /// Show the given prompt for the port to connect to and read one line.
    AskPort(String),
    /// End the run with the given exit status.
    Exit(u8),
}

/// The mathematical content of a [`State`].
pub enum StateView {
    Start,
    CredentialsGenerated(CredentialsView),
    TokenDisplayed(CredentialsView),
    Discovering(CredentialsView),
    DeviceFound(CredentialsView, Device),
    TimedOut,
    Paired(Device),
    PairFailed(Device),
    PortPrompt(Device),
    Connecting(Device, u16),
    Connected,
    ConnectFailed,
    ParseFailed,
    Aborted(Fault),
}

/// The mathematical content of an [`Event`].
pub enum EventView {
    CredentialsReady(CredentialsView),
    TokenRendered,
    DiscoveryStarted,
    DeviceResolved(Device),
    DiscoveryTimeout,
    PairFinished(ProcessOutcome),
    DiscoveryStopped,
    PortEntered(Seq<char>),
    ConnectFinished(ProcessOutcome),
    Failed(Fault),
}

/// The mathematical content of an [`Action`].
pub enum ActionView {
    Idle,
    GenerateCredentials,
    ShowToken(Seq<char>),
    StartDiscovery(Seq<char>),
    AwaitDevice(u64),
    Pair(InvocationView),
    Connect(InvocationView),
    StopDiscovery,
    AskPort(Seq<char>),
    Exit(u8),
}

impl View for State {
    type V = StateView;

    open spec fn view(&self) -> StateView {
        match *self {
            State::Start => StateView::Start,
            State::CredentialsGenerated(c) => StateView::CredentialsGenerated(c@),
            State::TokenDisplayed(c) => StateView::TokenDisplayed(c@),
            State::Discovering(c) => StateView::Discovering(c@),
            State::DeviceFound(c, d) => StateView::DeviceFound(c@, d),
            State::TimedOut => StateView::TimedOut,
            State::Paired(d) => StateView::Paired(d),
            State::PairFailed(d) => StateView::PairFailed(d),
            State::PortPrompt(d) => StateView::PortPrompt(d),
            State::Connecting(d, p) => StateView::Connecting(d, p),
            State::Connected => StateView::Connected,
            State::ConnectFailed => StateView::ConnectFailed,
            State::ParseFailed => StateView::ParseFailed,
            State::Aborted(f) => StateView::Aborted(f),
        }
    }
}

impl View for Event {
    type V = EventView;

    open spec fn view(&self) -> EventView {
        match *self {
            Event::CredentialsReady(c) => EventView::CredentialsReady(c@),
            Event::TokenRendered => EventView::TokenRendered,
            Event::DiscoveryStarted => EventView::DiscoveryStarted,
            Event::DeviceResolved(d) => EventView::DeviceResolved(d),
            Event::DiscoveryTimeout => EventView::DiscoveryTimeout,
            Event::PairFinished(o) => EventView::PairFinished(o),
            Event::DiscoveryStopped => EventView::DiscoveryStopped,
            Event::PortEntered(line) => EventView::PortEntered(line@),
            Event::ConnectFinished(o) => EventView::ConnectFinished(o),
            Event::Failed(f) => EventView::Failed(f),
        }
    }
}

impl View for Action {
    type V = ActionView;

    open spec fn view(&self) -> ActionView {
        match *self {
            Action::Idle => ActionView::Idle,
            Action::GenerateCredentials => ActionView::GenerateCredentials,
            Action::ShowToken(token) => ActionView::ShowToken(token@),
            Action::StartDiscovery(service) => ActionView::StartDiscovery(service@),
            Action::AwaitDevice(secs) => ActionView::AwaitDevice(secs),
            Action::Pair(invocation) => ActionView::Pair(invocation@),
            Action::Connect(invocation) => ActionView::Connect(invocation@),
            Action::StopDiscovery => ActionView::StopDiscovery,
            Action::AskPort(prompt) => ActionView::AskPort(prompt@),
            Action::Exit(status) => ActionView::Exit(status),
        }
    }
}

/// A terminal state: the run is over and no event changes it.
pub open spec fn is_terminal(s: StateView) -> bool {
    s is TimedOut || s is PairFailed || s is ParseFailed || s is Connected || s is ConnectFailed
        || s is Aborted
}

/// The state that follows `s` on the event `e`, if `e` is expected in `s`.
///
/// Every state but the terminal ones expects the failure of an operation
/// and then aborts. Besides that, each state expects the events that
/// answer the action of that state, and no others.
pub open spec fn transition(s: StateView, e: EventView) -> Option<StateView> {
    match (s, e) {
        (StateView::Start, EventView::CredentialsReady(c)) => Some(
            StateView::CredentialsGenerated(c),
        ),
        (StateView::CredentialsGenerated(c), EventView::TokenRendered) => Some(
            StateView::TokenDisplayed(c),
        ),
        (StateView::TokenDisplayed(c), EventView::DiscoveryStarted) => Some(
            StateView::Discovering(c),
        ),
        (StateView::Discovering(c), EventView::DeviceResolved(d)) => Some(
            StateView::DeviceFound(c, d),
        ),
        (StateView::Discovering(_), EventView::DiscoveryTimeout) => Some(StateView::TimedOut),
        (StateView::DeviceFound(_, d), EventView::PairFinished(o)) => Some(
            if o.succeeded() {
                StateView::Paired(d)
            } else {
                StateView::PairFailed(d)
            },
        ),
        (StateView::Paired(d), EventView::DiscoveryStopped) => Some(StateView::PortPrompt(d)),
        (StateView::PortPrompt(d), EventView::PortEntered(line)) => Some(
            match port_of(line) {
                Some(port) => StateView::Connecting(d, port),
                None => StateView::ParseFailed,
            },
        ),
        (StateView::Connecting(_, _), EventView::ConnectFinished(o)) => Some(
            if o.succeeded() {
                StateView::Connected
            } else {
                StateView::ConnectFailed
            },
        ),
        (_, EventView::Failed(f)) => if is_terminal(s) {
            None
        } else {
            Some(StateView::Aborted(f))
        },
        _ => None,
    }
}

/// How far a run in the state `s` has come: the number of steps that the
/// longest run takes to reach `s`, and eight for every terminal state.
pub open spec fn stage(s: StateView) -> nat {
    match s {
        StateView::Start => 0,
        StateView::CredentialsGenerated(_) => 1,
        StateView::TokenDisplayed(_) => 2,
        StateView::Discovering(_) => 3,
        StateView::DeviceFound(_, _) => 4,
        StateView::Paired(_) => 5,
        StateView::PortPrompt(_) => 6,
        StateView::Connecting(_, _) => 7,
        _ => 8,
    }
}

/// What the caller is to do on entering the state `s`.
pub open spec fn entry_action(s: StateView) -> ActionView {
    match s {
        StateView::Start => ActionView::GenerateCredentials,
        StateView::CredentialsGenerated(c) => ActionView::ShowToken(pairing_token(c)),
        StateView::TokenDisplayed(_) => ActionView::StartDiscovery(service_type()),
        StateView::Discovering(_) => ActionView::AwaitDevice(DISCOVERY_TIMEOUT_SECS),
        StateView::DeviceFound(c, d) => ActionView::Pair(d.pair_invocation(c.password)),
        StateView::Paired(_) => ActionView::StopDiscovery,
        StateView::PortPrompt(_) => ActionView::AskPort(port_prompt()),
        StateView::Connecting(d, port) => ActionView::Connect(d.connect_invocation(port)),
        StateView::Connected => ActionView::Exit(EXIT_SUCCESS),
        StateView::TimedOut => ActionView::Exit(EXIT_FAILURE),
        StateView::PairFailed(_) => ActionView::Exit(EXIT_FAILURE),
        StateView::ParseFailed => ActionView::Exit(EXIT_FAILURE),
        StateView::ConnectFailed => ActionView::Exit(EXIT_FAILURE),
        StateView::Aborted(_) => ActionView::Exit(EXIT_FAILURE),
    }
}

/// The line that names the operation that failed.
pub open spec fn fault_message(fault: Fault) -> Seq<char> {
    match fault {
        Fault::DiscoveryInit => "failed to start service discovery"@,
        Fault::Browse => "failed to browse service"@,
        Fault::Render => "failed to render pairing token"@,
        Fault::NoIpv4Address => "could not find ip address"@,
        Fault::ChannelClosed => "discovery ended without a device"@,
        Fault::Spawn => "failed to run adb"@,
        Fault::Input => "failed to read port"@,
    }
}

/// The line to print on entering the state `s`, if there is one: the
/// result of pairing, and the result of the run.
pub open spec fn message_of(s: StateView) -> Option<Seq<char>> {
    match s {
        StateView::TimedOut => Some("timed out waiting for a device"@),
        StateView::Paired(d) => Some("device at "@ + d.rendered() + " is paired successfully"@),
        StateView::PairFailed(d) => Some("failed to pair device: "@ + d.rendered()),
        StateView::ParseFailed => Some("failed to parse port. please use with adb connect"@),
        StateView::Connected => Some("device connected successfully"@),
        StateView::ConnectFailed => Some(
            "failed to connect to device. please use adb connect"@,
        ),
        StateView::Aborted(fault) => Some(fault_message(fault)),
        _ => None,
    }
}

/// One step of the machine: on an expected event, the next state and the
/// action on entering it; on any other event, the same state and no
/// action.
pub open spec fn step_of(s: StateView, e: EventView) -> (StateView, ActionView) {
    match transition(s, e) {
        Some(next) => (next, entry_action(next)),
        None => (s, ActionView::Idle),
    }
}

/// The state after the events `events`, taken in order from the state `s`.
pub open spec fn state_after(s: StateView, events: Seq<EventView>) -> StateView
    decreases events.len(),
{
    if events.len() == 0 {
        s
    } else {
        step_of(state_after(s, events.drop_last()), events.last()).0
    }
}

/// The first state of a run, and the first action.
pub fn begin() -> (r: (State, Action))
    ensures
        r.0@ == StateView::Start,
        r.1@ == entry_action(StateView::Start),
{
    (State::Start, Action::GenerateCredentials)
}

/// The state in which an operation that the run depends on has failed.
fn abort(fault: Fault) -> (r: (State, Action))
    ensures
        r.0@ == StateView::Aborted(fault),
        r.1@ == entry_action(r.0@),
{
    (State::Aborted(fault), Action::Exit(EXIT_FAILURE))
}

/// Takes one step: from the state and the event that was observed to the
/// next state and the action to perform.
pub fn step(state: State, event: Event) -> (r: (State, Action))
    ensures
        r.0@ == step_of(state@, event@).0,
        r.1@ == step_of(state@, event@).1,
{
    match (state, event) {
        (State::Start, Event::CredentialsReady(c)) => {
            let token = encode(&c);
            (State::CredentialsGenerated(c), Action::ShowToken(token))
        },
        (State::CredentialsGenerated(c), Event::TokenRendered) => {
            (
                State::TokenDisplayed(c),
                Action::StartDiscovery("_adb-tls-pairing._tcp.local.".to_owned()),
            )
        },
        (State::TokenDisplayed(c), Event::DiscoveryStarted) => {
            (State::Discovering(c), Action::AwaitDevice(DISCOVERY_TIMEOUT_SECS))
        },
        (State::Discovering(c), Event::DeviceResolved(d)) => {
            let invocation = d.pair(c.password());
            (State::DeviceFound(c, d), Action::Pair(invocation))
        },
        (State::Discovering(_), Event::DiscoveryTimeout) => {
            (State::TimedOut, Action::Exit(EXIT_FAILURE))
        },
        (State::DeviceFound(_, d), Event::PairFinished(o)) => {
            if o.success() {
                (State::Paired(d), Action::StopDiscovery)
            } else {
                (State::PairFailed(d), Action::Exit(EXIT_FAILURE))
            }
        },
        (State::Paired(d), Event::DiscoveryStopped) => {
            (
                State::PortPrompt(d),
                Action::AskPort("Please enter the port for your device: ".to_owned()),
            )
        },
        (State::PortPrompt(d), Event::PortEntered(line)) => {
            match parse_port(line.as_str()) {
                Some(port) => {
                    let invocation = d.connect(port);
                    (State::Connecting(d, port), Action::Connect(invocation))
                },
                None => (State::ParseFailed, Action::Exit(EXIT_FAILURE)),
            }
        },
        (State::Connecting(_, _), Event::ConnectFinished(o)) => {
            if o.success() {
                (State::Connected, Action::Exit(EXIT_SUCCESS))
            } else {
                (State::ConnectFailed, Action::Exit(EXIT_FAILURE))
            }
        },
        (state, Event::Failed(fault)) => {
            if state.is_terminal() {
                (state, Action::Idle)
            } else {
                abort(fault)
            }
        },
        (state, _) => (state, Action::Idle),
    }
}

impl State {
    /// Tells whether the run is over.
    pub fn is_terminal(&self) -> (r: bool)
        ensures
            r == is_terminal(self@),
    {
        match self {
            State::TimedOut
            | State::PairFailed(_)
            | State::ParseFailed
            | State::Connected
            | State::ConnectFailed
            | State::Aborted(_) => true,
            _ => false,
        }
    }

    /// The line to print on entering this state, if there is one.
    pub fn message(&self) -> (r: Option<String>)
        ensures
            r is Some <==> message_of(self@) is Some,
            r matches Some(line) ==> message_of(self@) == Some(line@),
    {
        match self {
            State::TimedOut => Some("timed out waiting for a device".to_owned()),
            State::Paired(d) => {
                let mut line = "device at ".to_owned();
                line.append(d.to_string().as_str());
                line.append(" is paired successfully");
                Some(line)
            },
            State::PairFailed(d) => {
                let mut line = "failed to pair device: ".to_owned();
                line.append(d.to_string().as_str());
                Some(line)
            },
            State::ParseFailed => Some(
                "failed to parse port. please use with adb connect".to_owned(),
            ),
            State::Connected => Some("device connected successfully".to_owned()),
            State::ConnectFailed => Some(
                "failed to connect to device. please use adb connect".to_owned(),
            ),
            State::Aborted(fault) => Some(fault.message()),
            _ => None,
        }
    }
}

impl Fault {
    /// The line that names the operation that failed.
    pub fn message(&self) -> (line: String)
        ensures
            line@ == fault_message(*self),
    {
        match self {
            Fault::DiscoveryInit => "failed to start service discovery".to_owned(),
            Fault::Browse => "failed to browse service".to_owned(),
            Fault::Render => "failed to render pairing token".to_owned(),
            Fault::NoIpv4Address => "could not find ip address".to_owned(),
            Fault::ChannelClosed => "discovery ended without a device".to_owned(),
            Fault::Spawn => "failed to run adb".to_owned(),
            Fault::Input => "failed to read port".to_owned(),
        }
    }
}

/// A wait that runs out ends the run: from discovery, the timeout leads to
/// the timed-out state, which is terminal, and to a failing exit. The wait
/// that discovery asks for is bounded by `DISCOVERY_TIMEOUT_SECS`.
pub proof fn lemma_timeout_ends_the_run(c: CredentialsView)
    ensures
        entry_action(StateView::Discovering(c)) == ActionView::AwaitDevice(30),
        step_of(StateView::Discovering(c), EventView::DiscoveryTimeout) == (
            StateView::TimedOut,
            ActionView::Exit(EXIT_FAILURE),
        ),
        is_terminal(StateView::TimedOut),
{
}

/// Only the first device is observed: when more devices are resolved after
/// the first, the workflow keeps the first and takes no notice of the
/// others.
pub proof fn lemma_only_first_device_is_observed(
    c: CredentialsView,
    first: Device,
    later: Seq<EventView>,
)
    requires
        forall|i: int| 0 <= i < later.len() ==> (#[trigger] later[i]) is DeviceResolved,
    ensures
        state_after(StateView::Discovering(c), seq![EventView::DeviceResolved(first)] + later)
            == StateView::DeviceFound(c, first),
    decreases later.len(),
{
    let start = StateView::Discovering(c);
    let events = seq![EventView::DeviceResolved(first)] + later;
    if later.len() == 0 {
        assert(events.drop_last() =~= Seq::<EventView>::empty());
        assert(state_after(start, events.drop_last()) == start);
        assert(events.last() == EventView::DeviceResolved(first));
    } else {
        lemma_only_first_device_is_observed(c, first, later.drop_last());
        assert(events.drop_last() =~= seq![EventView::DeviceResolved(first)] + later.drop_last());
        assert(events.last() == later[later.len() - 1]);
    }
}

/// A device that is resolved when the workflow is not waiting for one
/// changes nothing and asks for nothing.
pub proof fn lemma_late_device_is_ignored(s: StateView, d: Device)
    requires
        !(s is Discovering),
    ensures
        step_of(s, EventView::DeviceResolved(d)) == (s, ActionView::Idle),
{
}

/// The exit code of the pairing process decides: zero leads to the paired
/// state, every other code, and the lack of a code, to the failed one.
pub proof fn lemma_exit_code_decides_pairing(c: CredentialsView, d: Device, o: ProcessOutcome)
    ensures
        step_of(StateView::DeviceFound(c, d), EventView::PairFinished(o)).0 == if o.code == Some(
            0i32,
        ) {
            StateView::Paired(d)
        } else {
            StateView::PairFailed(d)
        },
{
}

/// The exit code of the connect process decides: zero leads to the
/// connected state, every other code, and the lack of a code, to the
/// failed one.
pub proof fn lemma_exit_code_decides_connection(d: Device, port: u16, o: ProcessOutcome)
    ensures
        step_of(StateView::Connecting(d, port), EventView::ConnectFinished(o)).0 == if o.code
            == Some(0i32) {
            StateView::Connected
        } else {
            StateView::ConnectFailed
        },
{
}

/// Once the run is over nothing changes its state, and nothing more is
/// asked of the caller.
pub proof fn lemma_terminal_states_absorb(s: StateView, e: EventView)
    requires
        is_terminal(s),
    ensures
        step_of(s, e) == (s, ActionView::Idle),
{
}

/// A step asks the caller to exit exactly when it ends the run, and with
/// the status of success exactly when the device is connected.
pub proof fn lemma_exit_follows_the_outcome(s: StateView, e: EventView)
    ensures
        step_of(s, e).1 is Exit <==> !is_terminal(s) && is_terminal(step_of(s, e).0),
        step_of(s, e).1 == ActionView::Exit(EXIT_SUCCESS) <==> !is_terminal(s) && step_of(
            s,
            e,
        ).0 is Connected,
{
}

/// The workflow is linear: every expected event takes the run forward, so
/// that no state is entered twice and a run ends after at most eight
/// steps.
pub proof fn lemma_every_step_advances(s: StateView, e: EventView)
    ensures
        transition(s, e) matches Some(next) ==> stage(s) < stage(next) <= 8,
        stage(s) == 8 <==> is_terminal(s),
{
}

/// Discovery is shut down only once the device that the workflow waited
/// for has arrived and pairing with it has succeeded.
pub proof fn lemma_shutdown_follows_pairing(s: StateView, e: EventView)
    ensures
        step_of(s, e).1 is StopDiscovery <==> ({
            &&& s is DeviceFound
            &&& e matches EventView::PairFinished(o)
            &&& o.succeeded()
        }),
{
}

/// Connecting is attempted only from the prompt, with the address of the
/// paired device and the port that the line entered denotes.
pub proof fn lemma_connect_follows_the_prompt(s: StateView, e: EventView)
    ensures
        step_of(s, e).1 matches ActionView::Connect(invocation) ==> {
            &&& s matches StateView::PortPrompt(d)
            &&& e matches EventView::PortEntered(line)
            &&& port_of(line) matches Some(port)
            &&& invocation == d.connect_invocation(port)
        },
{
}

/// The failure of an operation that the run depends on aborts the run from
/// every state in which it is not over.
pub proof fn lemma_failure_aborts(s: StateView, fault: Fault)
    requires
        !is_terminal(s),
    ensures
        step_of(s, EventView::Failed(fault)) == (
            StateView::Aborted(fault),
            ActionView::Exit(EXIT_FAILURE),
        ),
{
}

} // verus!
