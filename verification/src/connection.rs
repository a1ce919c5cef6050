//! The broker connection: its parameters, its one subscription and the
//! decisions of its receive loop.

use vstd::prelude::*;
use rumqttc::{AsyncClient, EventLoop, MqttOptions};
use std::time::Duration;
use crate::command::DeliveryGuarantee;
use crate::event::InboundEvent;
use crate::topic::STATE_FILTER;

verus! {

/// `rumqttc::MqttOptions`, the session's own record of its parameters. Its
/// inside is hidden from the verifier.
#[verifier::external_type_specification]
#[verifier::external_body]
pub struct ExMqttOptions(MqttOptions);

/// `rumqttc::AsyncClient`, the handle through which requests reach the
/// session. Its inside is hidden from the verifier.
#[verifier::external_type_specification]
#[verifier::external_body]
pub struct ExAsyncClient(AsyncClient);

/// `rumqttc::EventLoop`, the half of the session that talks to the broker. Its
/// inside is hidden from the verifier.
#[verifier::external_type_specification]
#[verifier::external_body]
pub struct ExEventLoop(EventLoop);

/// Identity under which the client presents itself to the broker.
pub const CLIENT_ID: &'static str = "lcars";

/// Host name of the broker.
pub const BROKER_HOST: &'static str = "mosquitto.sinclair.pipsimon.com";

/// Port of the broker.
pub const BROKER_PORT: u16 = 1883;

/// User name of the credential pair.
pub const USERNAME: &'static str = "lcars";

/// Name of the environment variable that holds the password.
pub const PASSWORD_VARIABLE: &'static str = "MQTT_PASS";

/// Seconds of silence after which the session pings the broker.
pub const KEEP_ALIVE_SECS: u64 = 5;

/// Shortest keep-alive interval that the session accepts, in seconds.
pub const MIN_KEEP_ALIVE_SECS: u64 = 5;

/// Number of requests that may wait for the session at once.
pub const REQUEST_CAPACITY: usize = 10;

/// Whether the session accepts `id` as a client identity: it is not empty and
/// does not start with a space.
pub open spec fn valid_client_id(id: Seq<char>) -> bool {
    id.len() > 0 && id[0] != ' '
}

/// What the session needs to know to reach the broker.
#[derive(Clone, Debug, PartialEq, Eq)]
pub struct ConnectionOptions {
    pub client_id: String,
    pub host: String,
    pub port: u16,
    pub username: String,
    pub password: String,
    pub keep_alive_secs: u64,
}

/// Why the connection could not be set up.
#[derive(Clone, Copy, Debug, PartialEq, Eq, Structural)]
pub enum StartupError {
    /// No password was found where it was looked for.
    MissingPassword,
    /// The client identity is empty or starts with a space.
    InvalidClientId,
    /// The keep-alive interval is shorter than [`MIN_KEEP_ALIVE_SECS`].
    KeepAliveTooShort,
}

/// The options that `MqttOptions::new` returns for a client identity, a host
/// and a port: those three, and the session's defaults for everything else.
pub uninterp spec fn options_for(client_id: Seq<char>, host: Seq<char>, port: u16) -> MqttOptions;

/// The options that `MqttOptions::set_credentials` leaves behind: `options`
/// with the pair of user name and password stored in them.
pub uninterp spec fn with_credentials(
    options: MqttOptions,
    username: Seq<char>,
    password: Seq<char>,
) -> MqttOptions;

/// The options that `MqttOptions::set_keep_alive` leaves behind: `options`
/// with a keep-alive interval of `secs` seconds.
pub uninterp spec fn with_keep_alive(options: MqttOptions, secs: u64) -> MqttOptions;

/// The options that an event loop was built from and connects with: its field
/// `mqtt_options`.
pub uninterp spec fn options_in(event_loop: EventLoop) -> MqttOptions;

/// The number of requests that may wait behind a request handle at once: the
/// capacity that its session was built with.
pub uninterp spec fn request_bound(client: AsyncClient) -> usize;

/// Calls `MqttOptions::new`, which panics on a client identity that is empty
/// or starts with a space and otherwise returns options for that identity,
/// host and port.
#[verifier::external_body]
fn new_options(client_id: &str, host: &str, port: u16) -> (options: MqttOptions)
    requires
        valid_client_id(client_id@),
    ensures
        options == options_for(client_id@, host@, port),
{
    MqttOptions::new(client_id, host, port)
}

/// Calls `MqttOptions::set_credentials`, which stores the pair in the options
/// and changes nothing else in them.
#[verifier::external_body]
fn set_credentials(options: &mut MqttOptions, username: &str, password: &str)
    ensures
        *final(options) == with_credentials(*old(options), username@, password@),
{
    options.set_credentials(username, password);
}

/// Calls `MqttOptions::set_keep_alive`, which panics on an interval of less
/// than five seconds and otherwise stores the interval in the options and
/// changes nothing else in them.
#[verifier::external_body]
fn set_keep_alive(options: &mut MqttOptions, secs: u64)
    requires
        secs >= MIN_KEEP_ALIVE_SECS,
    ensures
        *final(options) == with_keep_alive(*old(options), secs),
{
    options.set_keep_alive(Duration::from_secs(secs));
}

/// Calls `AsyncClient::new`, which builds a session that is not yet connected
/// and returns its two halves: the handle that takes requests, of which
/// `capacity` may wait at once, and the event loop that talks to the broker
/// and keeps the options it was given. Nothing is claimed of the rest of the
/// session, which holds the time of its making.
#[verifier::external_body]
fn new_session(options: MqttOptions, capacity: usize) -> (halves: (AsyncClient, EventLoop))
    ensures
        options_in(halves.1) == options,
        request_bound(halves.0) == capacity,
{
    AsyncClient::new(options, capacity)
}

impl ConnectionOptions {
    /// Whether the options are those of the one broker this client talks to,
    /// with `password` as the password.
    pub open spec fn is_standard(self, password: String) -> bool {
        &&& self.client_id@ == "lcars"@
        &&& self.host@ == "mosquitto.sinclair.pipsimon.com"@
        &&& self.port == 1883
        &&& self.username@ == "lcars"@
        &&& self.password == password
        &&& self.keep_alive_secs == 5
    }

    /// What the session is told of these options: identity, host and port
    /// first, then the credentials, then the keep-alive interval.
    pub open spec fn session_options(self) -> MqttOptions {
        with_keep_alive(
            with_credentials(
                options_for(self.client_id@, self.host@, self.port),
                self.username@,
                self.password@,
            ),
            self.keep_alive_secs,
        )
    }

    /// What keeps the session from accepting the options, if anything does.
    pub open spec fn fault(self) -> Option<StartupError> {
        if !valid_client_id(self.client_id@) {
            Some(StartupError::InvalidClientId)
        } else if self.keep_alive_secs < MIN_KEEP_ALIVE_SECS {
            Some(StartupError::KeepAliveTooShort)
        } else {
            None
        }
    }

    /// Checks the options against what the session accepts.
    pub fn check(&self) -> (checked: Result<(), StartupError>)
        ensures
            match checked {
                Ok(_) => self.fault() is None,
                Err(error) => self.fault() == Some(error),
            },
    {
        let id = self.client_id.as_str();
        if id.unicode_len() == 0 || id.get_char(0) == ' ' {
            Err(StartupError::InvalidClientId)
        } else if self.keep_alive_secs < MIN_KEEP_ALIVE_SECS {
            Err(StartupError::KeepAliveTooShort)
        } else {
            Ok(())
        }
    }

    /// Builds the session that these options describe, not yet connected, as
    /// its request handle and its event loop. The event loop holds exactly
    /// these options, and [`REQUEST_CAPACITY`] requests may wait behind the
    /// handle. Options that the session does not accept give the fault in
    /// place of a session.
    pub fn session(&self) -> (halves: Result<(AsyncClient, EventLoop), StartupError>)
        ensures
            match halves {
                Ok(found) => {
                    &&& self.fault() is None
                    &&& options_in(found.1) == self.session_options()
                    &&& request_bound(found.0) == REQUEST_CAPACITY
                },
                Err(error) => self.fault() == Some(error),
            },
    {
        match self.check() {
            Ok(_) => {
                let mut options = new_options(
                    self.client_id.as_str(),
                    self.host.as_str(),
                    self.port,
                );
                set_credentials(&mut options, self.username.as_str(), self.password.as_str());
                set_keep_alive(&mut options, self.keep_alive_secs);
                Ok(new_session(options, REQUEST_CAPACITY))
            },
            Err(error) => Err(error),
        }
    }

    /// The options for the one broker this client talks to. A missing password
    /// is fatal: without it there are no options.
    pub fn standard(password: Option<String>) -> (options: Result<ConnectionOptions, StartupError>)
        ensures
            match options {
                Ok(found) => {
                    &&& password matches Some(given) && found.is_standard(given)
                    &&& found.fault() is None
                },
                Err(error) => password is None && error == StartupError::MissingPassword,
            },
    {
        proof {
            reveal_strlit("lcars");
        }
        match password {
            Some(given) => Ok(
                ConnectionOptions {
                    client_id: CLIENT_ID.to_owned(),
                    host: BROKER_HOST.to_owned(),
                    port: BROKER_PORT,
                    username: USERNAME.to_owned(),
                    password: given,
                    keep_alive_secs: KEEP_ALIVE_SECS,
                },
            ),
            None => Err(StartupError::MissingPassword),
        }
    }
}

/// A request to be sent the messages of every topic that a filter covers.
#[derive(Clone, Debug, PartialEq, Eq)]
pub struct Subscription {
    pub filter: String,
    pub guarantee: DeliveryGuarantee,
}

/// The one subscription that the connection issues when it starts: every topic
/// under the state namespace, delivered at most once.
pub fn state_subscription() -> (subscription: Subscription)
    ensures
        subscription.filter@ == "homeassistant_statestream/#"@,
        subscription.guarantee == DeliveryGuarantee::AtMostOnce,
{
    Subscription { filter: STATE_FILTER.to_owned(), guarantee: DeliveryGuarantee::AtMostOnce }
}

/// Where the receive loop stands.
#[derive(Clone, Copy, Debug, PartialEq, Eq, Structural)]
pub enum LoopState {
    /// The loop waits for the session's next event.
    AwaitingEvent,
    /// The loop has handed an event to the channel and waits for room in it.
    AwaitingDelivery,
    /// The loop has ended and does not start again.
    Stopped,
}

/// What the driver of the receive loop reports to it.
#[derive(Clone, Debug, PartialEq, Eq)]
pub enum LoopInput {
    /// The session was polled, with this outcome.
    Polled(InboundEvent),
    /// The channel took the event that was handed to it.
    Delivered,
    /// The channel has no receiver any more; the event was not taken.
    ChannelClosed,
}

/// Why the receive loop ended.
#[derive(Clone, Debug, PartialEq, Eq)]
pub enum StopReason {
    /// The session failed; the text describes the failure.
    ConnectionLost(String),
    /// The consumer dropped its end of the channel.
    ChannelClosed,
    /// The driver reported something that the loop was not waiting for, or
    /// reported to a loop that had ended.
    OutOfTurn,
}

/// What the driver of the receive loop has to do next.
#[derive(Clone, Debug, PartialEq, Eq)]
pub enum LoopAction {
    /// Send the event into the channel, waiting for room if it is full, and
    /// report whether the channel took it.
    Forward(InboundEvent),
    /// Tell the consumer that new data is waiting, then poll the session and
    /// report the outcome.
    Notify,
    /// End the loop.
    Stop(StopReason),
}

/// The loop's decision: the state it moves to and what the driver does next.
/// A polled event goes to the channel as it is; a failed poll and a closed
/// channel end the loop, and nothing starts it again.
pub open spec fn next(state: LoopState, input: LoopInput) -> (LoopState, LoopAction) {
    match (state, input) {
        (LoopState::AwaitingEvent, LoopInput::Polled(InboundEvent::ConnectionError(text))) => (
            LoopState::Stopped,
            LoopAction::Stop(StopReason::ConnectionLost(text)),
        ),
        (LoopState::AwaitingEvent, LoopInput::Polled(event)) => (
            LoopState::AwaitingDelivery,
            LoopAction::Forward(event),
        ),
        (LoopState::AwaitingDelivery, LoopInput::Delivered) => (
            LoopState::AwaitingEvent,
            LoopAction::Notify,
        ),
        (LoopState::AwaitingDelivery, LoopInput::ChannelClosed) => (
            LoopState::Stopped,
            LoopAction::Stop(StopReason::ChannelClosed),
        ),
        _ => (LoopState::Stopped, LoopAction::Stop(StopReason::OutOfTurn)),
    }
}

/// Takes one report of the driver and decides how the receive loop goes on.
pub fn step(state: LoopState, input: LoopInput) -> (decision: (LoopState, LoopAction))
    ensures
        decision == next(state, input),
{
    match state {
        LoopState::AwaitingEvent => match input {
            LoopInput::Polled(InboundEvent::ConnectionError(text)) => (
                LoopState::Stopped,
                LoopAction::Stop(StopReason::ConnectionLost(text)),
            ),
            LoopInput::Polled(event) => (LoopState::AwaitingDelivery, LoopAction::Forward(event)),
            _ => (LoopState::Stopped, LoopAction::Stop(StopReason::OutOfTurn)),
        },
        LoopState::AwaitingDelivery => match input {
            LoopInput::Delivered => (LoopState::AwaitingEvent, LoopAction::Notify),
            LoopInput::ChannelClosed => (
                LoopState::Stopped,
                LoopAction::Stop(StopReason::ChannelClosed),
            ),
            _ => (LoopState::Stopped, LoopAction::Stop(StopReason::OutOfTurn)),
        },
        LoopState::Stopped => (LoopState::Stopped, LoopAction::Stop(StopReason::OutOfTurn)),
    }
}

/// A loop that has stopped stays stopped, whatever is reported to it.
pub proof fn lemma_stopped_is_final(input: LoopInput)
    ensures
        next(LoopState::Stopped, input).0 == LoopState::Stopped,
        next(LoopState::Stopped, input).1 is Stop,
{
}

} // verus!
