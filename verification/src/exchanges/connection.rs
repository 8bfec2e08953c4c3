//! The lifecycle of one exchange connection: connect, subscribe, stream, and
//! after a failure wait and connect again, until shutdown.
//!
//! The task that owns the socket performs the work; this module decides. The
//! task reports what happened as an `Event`, `Lifecycle::step` moves to the
//! next state and answers with the `Action` to perform next.

use crate::mappers::symbol_mapper::MapperError;
use crate::market_data::{written, InstrumentType, MarketData, MarketDataCollection};
use crate::symbol_registry::{resolve, SymbolId, SymbolRegistry, MAX_SYMBOLS};
use crate::symbol_registry::RegistryModel;
use crate::time::{lemma_of_nanos, lemma_wf_bounds, Duration, Timestamp, NANOS_PER_SEC};
use vstd::prelude::*;

verus! {

/// The timing of one connection.
#[derive(Clone, Copy, Debug, PartialEq, Eq, Structural)]
pub struct ConnectionConfig {
    /// The longest wait between two attempts.
    pub max_retry_delay: Duration,
    /// The time between two heartbeats.
    pub heartbeat_interval: Duration,
    /// The silence after which a connection counts as stalled.
    pub message_timeout: Duration,
    /// The wait after the first failure.
    pub initial_backoff: Duration,
}

impl Default for ConnectionConfig {
    fn default() -> (config: ConnectionConfig)
        ensures
            config.max_retry_delay.total_nanos() == 60 * (NANOS_PER_SEC as nat),
            config.heartbeat_interval.total_nanos() == 10 * (NANOS_PER_SEC as nat),
            config.message_timeout.total_nanos() == 90 * (NANOS_PER_SEC as nat),
            config.initial_backoff.total_nanos() == 1 * (NANOS_PER_SEC as nat),
    {
        ConnectionConfig {
            max_retry_delay: Duration::from_secs(60),
            heartbeat_interval: Duration::from_secs(10),
            message_timeout: Duration::from_secs(90),
            initial_backoff: Duration::from_secs(1),
        }
    }
}

/// How one attempt at a connection ended.
#[derive(Clone, Copy, Debug, PartialEq, Eq, Structural)]
pub enum ConnectionResult {
    /// Shutdown was requested.
    Shutdown,
    /// The attempt failed or the connection was lost: wait, then try again.
    Reconnect,
    /// The adapter cannot build its URL: trying again is pointless.
    InvalidConfig,
}

/// A data frame as it is handed to an adapter.
pub enum WireMessage<'a> {
    Text(&'a str),
    Binary(&'a [u8]),
}

/// The number of doublings after which the wait grows no more.
pub const MAX_DOUBLINGS: u32 = 10;

/// The time since the last success after which the retry count starts anew.
pub const RETRY_RESET_SECS: u64 = 300;

/// Two to the power of `n`.
pub open spec fn pow2(n: nat) -> nat
    decreases n,
{
    if n == 0 {
        1
    } else {
        2 * pow2((n - 1) as nat)
    }
}

/// How often the initial wait is doubled after `retry_count` retries.
pub open spec fn doublings(retry_count: u32) -> nat {
    if retry_count < MAX_DOUBLINGS {
        retry_count as nat
    } else {
        MAX_DOUBLINGS as nat
    }
}

/// The wait before the next attempt: `initial * 2^retry_count`, the
/// doublings capped at ten, and the whole capped at `max`.
pub open spec fn backoff(retry_count: u32, initial: Duration, max: Duration) -> Duration {
    let scaled = initial.total_nanos() * pow2(doublings(retry_count));
    if scaled >= max.total_nanos() {
        max
    } else {
        Duration::of_nanos(scaled)
    }
}

proof fn lemma_pow2_grows(n: nat, m: nat)
    requires
        n <= m,
    ensures
        1 <= pow2(n) <= pow2(m),
    decreases m,
{
    if n < m {
        lemma_pow2_grows(n, (m - 1) as nat);
    } else if n > 0 {
        lemma_pow2_grows((n - 1) as nat, (m - 1) as nat);
    }
}

proof fn lemma_pow2_bounds(n: nat)
    requires
        n <= 10,
    ensures
        1 <= pow2(n) <= 1024,
{
    lemma_pow2_grows(n, 10);
    reveal_with_fuel(pow2, 11);
    assert(pow2(10) == 1024);
}

/// The wait before the next attempt.
pub fn calculate_backoff(retry_count: u32, initial: Duration, max: Duration) -> (wait: Duration)
    ensures
        wait == backoff(retry_count, initial, max),
        wait.wf(),
        wait.total_nanos() == if initial.total_nanos() * pow2(doublings(retry_count))
            >= max.total_nanos() {
            max.total_nanos()
        } else {
            initial.total_nanos() * pow2(doublings(retry_count))
        },
{
    let capped: u32 = if retry_count < MAX_DOUBLINGS {
        retry_count
    } else {
        MAX_DOUBLINGS
    };
    let mut factor: u128 = 1;
    let mut i: u32 = 0;
    while i < capped
        invariant
            i <= capped <= 10,
            factor == pow2(i as nat),
        decreases capped - i,
    {
        proof {
            lemma_pow2_bounds(i as nat);
        }
        factor = factor * 2;
        i += 1;
    }
    let base: u128 = initial.as_nanos();
    let limit: u128 = max.as_nanos();
    proof {
        lemma_pow2_bounds(capped as nat);
        assert(base * factor <= 0x1_0000_0000_0000_0000 * 1_000_000_000 * 1024) by (nonlinear_arith)
            requires
                base / 1_000_000_000 <= u64::MAX,
                factor <= 1024,
        ;
    }
    let scaled: u128 = base * factor;
    if scaled >= limit {
        max
    } else {
        proof {
            assert(scaled / (NANOS_PER_SEC as u128) <= u64::MAX) by (nonlinear_arith)
                requires
                    scaled < limit,
                    limit / 1_000_000_000 <= u64::MAX,
                    NANOS_PER_SEC == 1_000_000_000,
            ;
            lemma_of_nanos(scaled as nat);
        }
        match Duration::from_nanos(scaled) {
            Some(wait) => wait,
            None => max,
        }
    }
}

/// Where a connection stands.
#[derive(Clone, Copy, Debug, PartialEq, Eq, Structural)]
pub enum Phase {
    /// The transport to the adapter's URL is being opened.
    Connecting,
    /// The adapter's handshake is under way.
    Subscribing,
    /// Frames are read, and a heartbeat is sent at each tick.
    Streaming,
    /// A failure is being waited out.
    BackoffWait,
    /// The connection has stopped for good.
    Shutdown,
}

/// What the adapter made of a data frame.
#[derive(Clone, Copy, Debug, PartialEq, Eq, Structural)]
pub enum Outcome {
    /// A quote.
    Quote,
    /// Not a quote: an acknowledgement, a heartbeat, another channel.
    Discard,
    /// Not what the protocol allows. It is logged, and the connection goes on.
    Malformed,
}

/// What the task that drives the connection reports.
#[derive(Clone, Copy, Debug, PartialEq, Eq, Structural)]
pub enum Event {
    /// The adapter cannot build its URL.
    UrlRejected,
    /// The transport could not be opened.
    ConnectFailed,
    /// The transport was not open in time.
    ConnectTimedOut,
    /// The transport is open.
    Connected,
    /// The handshake failed.
    SubscribeFailed,
    /// The handshake is done.
    Subscribed,
    /// A text frame came, and this is what the adapter made of it.
    Text(Outcome),
    /// A binary frame came, and this is what the adapter made of it.
    Binary(Outcome),
    /// A ping came.
    Ping,
    /// A pong came.
    Pong,
    /// A frame of another kind came.
    OtherFrame,
    /// The peer closed the connection.
    Closed,
    /// The transport reported an error.
    TransportError,
    /// The stream of frames ended.
    StreamEnded,
    /// The adapter's hook for other traffic failed.
    HookFailed,
    /// It is time for a heartbeat.
    HeartbeatTick,
    /// The heartbeat could not be sent.
    HeartbeatFailed,
    /// The wait is over.
    BackoffElapsed,
    /// Shutdown was requested.
    ShutdownRequested,
}

/// What the task is to do next. After it has done so it reports the event
/// that came of it.
#[derive(Clone, Copy, Debug, PartialEq, Eq, Structural)]
pub enum Action {
    /// Build the URL and open the transport, within `timeout`.
    Connect { timeout: Duration },
    /// Perform the adapter's handshake.
    Subscribe,
    /// Wait for the next frame or the next heartbeat tick.
    Receive,
    /// Hand the frame, text or binary, to the adapter's hook for other
    /// traffic, then wait for the next frame or tick.
    HandleOther,
    /// Answer the ping with a pong of the same payload, then wait for the
    /// next frame or tick. A pong that cannot be sent is no failure.
    ReplyPong,
    /// Send the adapter's heartbeat message, or a ping where it has none,
    /// then wait for the next frame or tick.
    SendHeartbeat,
    /// Sleep for the span given, then report that the wait is over.
    Sleep(Duration),
    /// Stop: nothing more is to be done.
    Stop,
}

/// The state of one connection.
#[derive(Clone, Copy, Debug, PartialEq, Eq, Structural)]
pub struct LifecycleState {
    pub config: ConnectionConfig,
    pub phase: Phase,
    /// The failures since the last success.
    pub retry_count: u32,
    /// When streaming last began; before that, when the lifecycle was made.
    pub last_success: Timestamp,
    /// When a frame last came.
    pub last_message: Timestamp,
    /// The wait that is under way, in `BackoffWait`.
    pub wait: Duration,
    /// How the last attempt ended, once it has.
    pub result: Option<ConnectionResult>,
}

/// The time allowed for opening the transport: the whole seconds of the
/// message timeout.
pub open spec fn connect_timeout(config: ConnectionConfig) -> Duration {
    Duration::of_secs(config.message_timeout.whole_secs() as u64)
}

/// The state in which a lifecycle starts.
pub open spec fn initial_state(config: ConnectionConfig, now: Timestamp) -> LifecycleState {
    LifecycleState {
        config,
        phase: Phase::Connecting,
        retry_count: 0,
        last_success: now,
        last_message: now,
        wait: config.initial_backoff,
        result: None,
    }
}

/// The action that a state waits for.
pub open spec fn awaited(state: LifecycleState) -> Action {
    match state.phase {
        Phase::Connecting => Action::Connect { timeout: connect_timeout(state.config) },
        Phase::Subscribing => Action::Subscribe,
        Phase::Streaming => Action::Receive,
        Phase::BackoffWait => Action::Sleep(state.wait),
        Phase::Shutdown => Action::Stop,
    }
}

/// The retry count with which a failure at `now` is waited out: the count
/// so far, or zero where the last success is more than five minutes back.
pub open spec fn retries_at(state: LifecycleState, now: Timestamp) -> u32 {
    if now.exceeds(state.last_success, Duration::of_secs(RETRY_RESET_SECS)) {
        0
    } else {
        state.retry_count
    }
}

/// The state after a failure that can be retried: the wait begins.
pub open spec fn failed(state: LifecycleState, now: Timestamp) -> LifecycleState {
    let retry_count = retries_at(state, now);
    LifecycleState {
        phase: Phase::BackoffWait,
        retry_count,
        wait: backoff(retry_count, state.config.initial_backoff, state.config.max_retry_delay),
        result: Some(ConnectionResult::Reconnect),
        ..state
    }
}

/// The state after a stop for the reason given.
pub open spec fn stopped(state: LifecycleState, reason: ConnectionResult) -> LifecycleState {
    LifecycleState { phase: Phase::Shutdown, result: Some(reason), ..state }
}

/// The state with a frame noted as received at `now`.
pub open spec fn heard(state: LifecycleState, now: Timestamp) -> LifecycleState {
    LifecycleState { last_message: now, ..state }
}

/// The retry count after one more failure was waited out.
pub open spec fn one_more(retry_count: u32) -> u32 {
    if retry_count < u32::MAX {
        (retry_count + 1) as u32
    } else {
        retry_count
    }
}

/// The state that follows `state` when `event` is reported at `now`.
///
/// `Shutdown` is final. A request for shutdown leads there from every other
/// state. While connecting, a URL that cannot be built leads to `Shutdown`;
/// a transport that fails or is late, to `BackoffWait`. A failed handshake
/// leads to `BackoffWait`, a finished one to `Streaming`, with the retry
/// count at zero. While streaming, every frame is noted; a close, a
/// transport error, the end of the stream, a failed hook or heartbeat, and a
/// tick that finds the last frame older than the message timeout all lead to
/// `BackoffWait`. When the wait is over the retry count goes up by one and
/// connecting begins again. An event that a state does not expect changes
/// nothing.
pub open spec fn next_state(state: LifecycleState, event: Event, now: Timestamp) -> LifecycleState {
    match state.phase {
        Phase::Shutdown => state,
        _ if event is ShutdownRequested => stopped(state, ConnectionResult::Shutdown),
        Phase::Connecting => match event {
            Event::UrlRejected => stopped(state, ConnectionResult::InvalidConfig),
            Event::ConnectFailed | Event::ConnectTimedOut => failed(state, now),
            Event::Connected => LifecycleState { phase: Phase::Subscribing, ..state },
            _ => state,
        },
        Phase::Subscribing => match event {
            Event::SubscribeFailed => failed(state, now),
            Event::Subscribed => LifecycleState {
                phase: Phase::Streaming,
                retry_count: 0,
                last_success: now,
                last_message: now,
                ..state
            },
            _ => state,
        },
        Phase::Streaming => match event {
            Event::Text(_) | Event::Binary(_) | Event::Ping | Event::Pong | Event::OtherFrame => heard(
                state,
                now,
            ),
            Event::Closed | Event::TransportError | Event::StreamEnded => failed(
                heard(state, now),
                now,
            ),
            Event::HookFailed | Event::HeartbeatFailed => failed(state, now),
            Event::HeartbeatTick => if now.exceeds(
                state.last_message,
                state.config.message_timeout,
            ) {
                failed(state, now)
            } else {
                state
            },
            _ => state,
        },
        Phase::BackoffWait => match event {
            Event::BackoffElapsed => LifecycleState {
                phase: Phase::Connecting,
                retry_count: one_more(state.retry_count),
                result: None,
                ..state
            },
            _ => state,
        },
    }
}

/// The action with which `event`, reported at `now`, is answered in `state`.
/// It is what the next state waits for, except while streaming, where a
/// frame or a tick may ask for an answer first: a frame that the adapter
/// passed by, text or binary, goes to the adapter's hook for other traffic,
/// a ping is answered with a pong, and a tick that finds the connection
/// alive with a heartbeat.
pub open spec fn next_action(state: LifecycleState, event: Event, now: Timestamp) -> Action {
    let after = next_state(state, event, now);
    if state.phase is Streaming && after.phase is Streaming {
        match event {
            Event::Text(Outcome::Discard) | Event::Binary(Outcome::Discard) => Action::HandleOther,
            Event::Ping => Action::ReplyPong,
            Event::HeartbeatTick => Action::SendHeartbeat,
            _ => Action::Receive,
        }
    } else {
        awaited(after)
    }
}

/// What the lifecycle keeps true of its state: the result says how the last
/// attempt ended exactly when it has ended, and a wait under way is the
/// backoff of the retry count.
pub open spec fn consistent(state: LifecycleState) -> bool {
    &&& state.phase is BackoffWait <==> state.result == Some(ConnectionResult::Reconnect)
    &&& state.phase is Shutdown <==> (state.result == Some(ConnectionResult::Shutdown)
        || state.result == Some(ConnectionResult::InvalidConfig))
    &&& state.phase is BackoffWait ==> state.wait == backoff(
        state.retry_count,
        state.config.initial_backoff,
        state.config.max_retry_delay,
    )
}

/// The lifecycle of one connection.
pub struct Lifecycle {
    state: LifecycleState,
}

impl Lifecycle {
    #[verifier::type_invariant]
    spec fn state_is_consistent(self) -> bool {
        consistent(self.state)
    }

    /// The state of the lifecycle.
    pub closed spec fn view(&self) -> LifecycleState {
        self.state
    }

    /// A lifecycle that is about to connect for the first time.
    pub fn new(config: ConnectionConfig, now: Timestamp) -> (lifecycle: Lifecycle)
        ensures
            lifecycle@ == initial_state(config, now),
            consistent(lifecycle@),
    {
        Lifecycle {
            state: LifecycleState {
                config,
                phase: Phase::Connecting,
                retry_count: 0,
                last_success: now,
                last_message: now,
                wait: config.initial_backoff,
                result: None,
            },
        }
    }

    /// The state of the lifecycle.
    pub fn state(&self) -> (state: LifecycleState)
        ensures
            state == self@,
            consistent(state),
    {
        proof {
            use_type_invariant(self);
        }
        self.state
    }

    /// Where the connection stands.
    pub fn phase(&self) -> (phase: Phase)
        ensures
            phase == self@.phase,
    {
        self.state.phase
    }

    /// The failures since the last success.
    pub fn retry_count(&self) -> (count: u32)
        ensures
            count == self@.retry_count,
    {
        self.state.retry_count
    }

    /// How the last attempt ended: `None` while one is under way.
    pub fn result(&self) -> (result: Option<ConnectionResult>)
        ensures
            result == self@.result,
            result is None <==> (self@.phase is Connecting || self@.phase is Subscribing
                || self@.phase is Streaming),
    {
        proof {
            use_type_invariant(self);
            if let Some(ended) = self.state.result {
                assert(ended is Shutdown || ended is Reconnect || ended is InvalidConfig);
            }
        }
        self.state.result
    }

    /// The time allowed for opening the transport.
    fn timeout_of(config: &ConnectionConfig) -> (timeout: Duration)
        ensures
            timeout == connect_timeout(*config),
    {
        Duration::from_secs(config.message_timeout.as_secs())
    }

    /// What the lifecycle waits for.
    pub fn awaited(&self) -> (action: Action)
        ensures
            action == awaited(self@),
    {
        match self.state.phase {
            Phase::Connecting => Action::Connect { timeout: Self::timeout_of(&self.state.config) },
            Phase::Subscribing => Action::Subscribe,
            Phase::Streaming => Action::Receive,
            Phase::BackoffWait => Action::Sleep(self.state.wait),
            Phase::Shutdown => Action::Stop,
        }
    }

    /// The state after a failure at `now` that can be retried.
    fn fail(state: LifecycleState, now: Timestamp) -> (after: LifecycleState)
        ensures
            after == failed(state, now),
    {
        let reset_after = Duration::from_secs(RETRY_RESET_SECS);
        let retry_count: u32 = if now.elapsed_exceeds(&state.last_success, &reset_after) {
            0
        } else {
            state.retry_count
        };
        let wait = calculate_backoff(
            retry_count,
            state.config.initial_backoff,
            state.config.max_retry_delay,
        );
        LifecycleState {
            phase: Phase::BackoffWait,
            retry_count,
            wait,
            result: Some(ConnectionResult::Reconnect),
            ..state
        }
    }

    /// Takes in what happened at `now`, moves to the next state and answers
    /// with what is to be done next.
    pub fn step(&mut self, event: Event, now: Timestamp) -> (action: Action)
        ensures
            final(self)@ == next_state(old(self)@, event, now),
            action == next_action(old(self)@, event, now),
            consistent(final(self)@),
    {
        proof {
            use_type_invariant(&*self);
        }
        let state = self.state;
        let after: LifecycleState = match state.phase {
            Phase::Shutdown => state,
            _ if matches!(event, Event::ShutdownRequested) => LifecycleState {
                phase: Phase::Shutdown,
                result: Some(ConnectionResult::Shutdown),
                ..state
            },
            Phase::Connecting => match event {
                Event::UrlRejected => LifecycleState {
                    phase: Phase::Shutdown,
                    result: Some(ConnectionResult::InvalidConfig),
                    ..state
                },
                Event::ConnectFailed | Event::ConnectTimedOut => Self::fail(state, now),
                Event::Connected => LifecycleState { phase: Phase::Subscribing, ..state },
                _ => state,
            },
            Phase::Subscribing => match event {
                Event::SubscribeFailed => Self::fail(state, now),
                Event::Subscribed => LifecycleState {
                    phase: Phase::Streaming,
                    retry_count: 0,
                    last_success: now,
                    last_message: now,
                    ..state
                },
                _ => state,
            },
            Phase::Streaming => match event {
                Event::Text(_) | Event::Binary(_) | Event::Ping | Event::Pong | Event::OtherFrame => LifecycleState {
                    last_message: now,
                    ..state
                },
                Event::Closed | Event::TransportError | Event::StreamEnded => Self::fail(
                    LifecycleState { last_message: now, ..state },
                    now,
                ),
                Event::HookFailed | Event::HeartbeatFailed => Self::fail(state, now),
                Event::HeartbeatTick => if now.elapsed_exceeds(
                    &state.last_message,
                    &state.config.message_timeout,
                ) {
                    Self::fail(state, now)
                } else {
                    state
                },
                _ => state,
            },
            Phase::BackoffWait => match event {
                Event::BackoffElapsed => LifecycleState {
                    phase: Phase::Connecting,
                    retry_count: if state.retry_count < u32::MAX {
                        state.retry_count + 1
                    } else {
                        state.retry_count
                    },
                    result: None,
                    ..state
                },
                _ => state,
            },
        };
        let streaming_on: bool = matches!(state.phase, Phase::Streaming) && matches!(
            after.phase,
            Phase::Streaming
        );
        self.state = after;
        if streaming_on {
            match event {
                Event::Text(Outcome::Discard) | Event::Binary(Outcome::Discard) => Action::HandleOther,
                Event::Ping => Action::ReplyPong,
                Event::HeartbeatTick => Action::SendHeartbeat,
                _ => Action::Receive,
            }
        } else {
            self.awaited()
        }
    }
}

/// `Shutdown` is final: whatever is reported there, the state stays as it is
/// and the answer is to stop.
pub proof fn lemma_shutdown_is_final(state: LifecycleState, event: Event, now: Timestamp)
    requires
        state.phase is Shutdown,
    ensures
        next_state(state, event, now) == state,
        next_action(state, event, now) == Action::Stop,
{
}

/// `Shutdown` is reached from every state as soon as shutdown is requested.
pub proof fn lemma_shutdown_is_reachable(state: LifecycleState, now: Timestamp)
    ensures
        next_state(state, Event::ShutdownRequested, now).phase is Shutdown,
        next_action(state, Event::ShutdownRequested, now) == Action::Stop,
{
}

/// While streaming, every frame that the adapter passed by goes to the
/// adapter's hook for other traffic, whether it is text or binary, and is
/// noted as received. A hook that fails leads to the wait.
pub proof fn lemma_discards_reach_the_hook(state: LifecycleState, now: Timestamp)
    requires
        state.phase is Streaming,
    ensures
        next_action(state, Event::Text(Outcome::Discard), now) == Action::HandleOther,
        next_action(state, Event::Binary(Outcome::Discard), now) == Action::HandleOther,
        next_state(state, Event::Text(Outcome::Discard), now) == heard(state, now),
        next_state(state, Event::Binary(Outcome::Discard), now) == heard(state, now),
        next_state(state, Event::HookFailed, now).phase is BackoffWait,
{
}

/// Streaming is entered in one way only, by a finished handshake, and then
/// the retry count is zero and the success is dated.
pub proof fn lemma_streaming_resets_retries(state: LifecycleState, event: Event, now: Timestamp)
    requires
        !(state.phase is Streaming),
        next_state(state, event, now).phase is Streaming,
    ensures
        state.phase is Subscribing,
        event is Subscribed,
        next_state(state, event, now).retry_count == 0,
        next_state(state, event, now).last_success == now,
{
}

/// A step keeps a consistent state consistent.
pub proof fn lemma_step_keeps_consistent(state: LifecycleState, event: Event, now: Timestamp)
    requires
        consistent(state),
    ensures
        consistent(next_state(state, event, now)),
{
    if let Some(ended) = state.result {
        assert(ended is Shutdown || ended is Reconnect || ended is InvalidConfig);
    }
}

/// Every wait is the backoff of the retry count with which the failure is
/// waited out, and never longer than the longest wait configured.
pub proof fn lemma_wait_is_backoff(state: LifecycleState, event: Event, now: Timestamp)
    requires
        consistent(state),
        state.config.max_retry_delay.wf(),
        !(state.phase is BackoffWait),
        next_state(state, event, now).phase is BackoffWait,
    ensures
        next_action(state, event, now) == Action::Sleep(
            backoff(
                retries_at(state, now),
                state.config.initial_backoff,
                state.config.max_retry_delay,
            ),
        ),
        next_state(state, event, now).wait.total_nanos()
            <= state.config.max_retry_delay.total_nanos(),
{
    let after = next_state(state, event, now);
    let scaled = state.config.initial_backoff.total_nanos() * pow2(doublings(after.retry_count));
    if scaled < state.config.max_retry_delay.total_nanos() {
        lemma_wf_bounds(state.config.max_retry_delay);
        assert(scaled / (NANOS_PER_SEC as nat) <= u64::MAX) by (nonlinear_arith)
            requires
                scaled < state.config.max_retry_delay.total_nanos(),
                state.config.max_retry_delay.total_nanos() / (NANOS_PER_SEC as nat) <= u64::MAX,
                NANOS_PER_SEC == 1_000_000_000,
        ;
        lemma_of_nanos(scaled);
    }
}

/// With an initial wait of one second and a longest wait of sixty, the wait
/// after `retry_count` retries is `2^retry_count` seconds up to the fifth
/// retry, and sixty seconds from the sixth on.
pub proof fn lemma_backoff_sequence(retry_count: u32, initial: Duration, max: Duration)
    requires
        initial.total_nanos() == 1 * (NANOS_PER_SEC as nat),
        max.total_nanos() == 60 * (NANOS_PER_SEC as nat),
    ensures
        backoff(retry_count, initial, max).total_nanos() == if retry_count < 6 {
            pow2(retry_count as nat) * (NANOS_PER_SEC as nat)
        } else {
            60 * (NANOS_PER_SEC as nat)
        },
        pow2(0) == 1 && pow2(1) == 2 && pow2(2) == 4 && pow2(3) == 8 && pow2(4) == 16 && pow2(5)
            == 32,
{
    reveal_with_fuel(pow2, 7);
    let n = doublings(retry_count);
    if retry_count < 6 {
        let scaled = initial.total_nanos() * pow2(n);
        assert(scaled == pow2(n) * (NANOS_PER_SEC as nat)) by (nonlinear_arith)
            requires
                scaled == initial.total_nanos() * pow2(n),
                initial.total_nanos() == 1 * (NANOS_PER_SEC as nat),
        ;
        assert(scaled < max.total_nanos());
        assert(scaled / (NANOS_PER_SEC as nat) <= u64::MAX) by (nonlinear_arith)
            requires
                scaled <= 32 * (NANOS_PER_SEC as nat),
                NANOS_PER_SEC == 1_000_000_000,
        ;
        lemma_of_nanos(scaled);
    } else {
        lemma_pow2_grows(6, n);
        assert(pow2(6) == 64);
        assert(initial.total_nanos() * pow2(n) >= max.total_nanos()) by (nonlinear_arith)
            requires
                pow2(n) >= 64,
                initial.total_nanos() == 1 * (NANOS_PER_SEC as nat),
                max.total_nanos() == 60 * (NANOS_PER_SEC as nat),
        ;
    }
}

/// A connection that fails twice and then succeeds goes from connecting to
/// the wait and back twice, then through the handshake into streaming, where
/// its retry count is zero again.
pub proof fn lemma_two_failures_then_success(
    config: ConnectionConfig,
    start: Timestamp,
    times: Seq<Timestamp>,
)
    requires
        times.len() == 6,
    ensures
        ({
            let s0 = initial_state(config, start);
            let s1 = next_state(s0, Event::ConnectFailed, times[0]);
            let s2 = next_state(s1, Event::BackoffElapsed, times[1]);
            let s3 = next_state(s2, Event::ConnectFailed, times[2]);
            let s4 = next_state(s3, Event::BackoffElapsed, times[3]);
            let s5 = next_state(s4, Event::Connected, times[4]);
            let s6 = next_state(s5, Event::Subscribed, times[5]);
            &&& s0.phase is Connecting
            &&& s1.phase is BackoffWait
            &&& s2.phase is Connecting
            &&& s3.phase is BackoffWait
            &&& s4.phase is Connecting
            &&& s5.phase is Subscribing
            &&& s6.phase is Streaming
            &&& s6.retry_count == 0
            &&& s6.last_success == times[5]
        }),
{
}

/// What became of a quote that an adapter produced.
#[derive(Clone, Copy, Debug, PartialEq, Eq, Structural)]
pub enum Ingested {
    /// It was written to the table, under this id.
    Published(SymbolId),
    /// Its bid is not below its ask: it was dropped.
    Crossed,
    /// Its symbol resolves to no id: it was dropped.
    UnknownSymbol,
}

/// What becomes of a quote for the native symbol `symbol`. A crossed quote
/// is dropped. So is one whose symbol the registry does not know in the
/// context of the instrument type. Any other is published under the id that
/// the symbol resolves to.
pub open spec fn ingestion(
    registry: RegistryModel,
    instrument: InstrumentType,
    symbol: Seq<char>,
    quote: MarketData,
) -> Ingested {
    if quote.crossed() {
        Ingested::Crossed
    } else {
        match resolve(registry, symbol, instrument) {
            Some(id) => Ingested::Published(id),
            None => Ingested::UnknownSymbol,
        }
    }
}

/// The table after a quote went the way `ingested` says.
pub open spec fn table_after(
    table: Map<SymbolId, MarketData>,
    ingested: Ingested,
    quote: MarketData,
) -> Map<SymbolId, MarketData> {
    match ingested {
        Ingested::Published(id) => written(table, id, quote),
        _ => table,
    }
}

/// A crossed quote is never published: whatever the registry knows and
/// whatever the table holds, the table stays as it is.
pub proof fn lemma_crossed_is_never_published(
    table: Map<SymbolId, MarketData>,
    registry: RegistryModel,
    instrument: InstrumentType,
    symbol: Seq<char>,
    quote: MarketData,
)
    requires
        quote.crossed(),
    ensures
        ingestion(registry, instrument, symbol, quote) == Ingested::Crossed,
        table_after(table, ingestion(registry, instrument, symbol, quote), quote) == table,
{
}

/// Takes a quote that an adapter produced to the table: the one place where
/// quotes are written. A crossed quote never reaches the table, and neither
/// does one for a symbol that is not known.
pub fn ingest(
    collection: &mut MarketDataCollection,
    registry: &SymbolRegistry,
    itype: InstrumentType,
    symbol: &str,
    quote: MarketData,
) -> (ingested: Ingested)
    ensures
        ingested == ingestion(registry@, itype, symbol@, quote),
        final(collection)@ == table_after(old(collection)@, ingested, quote),
        quote.crossed() ==> final(collection)@ == old(collection)@,
        ingested matches Ingested::Published(id) ==> id < MAX_SYMBOLS,
{
    if quote.is_crossed() {
        return Ingested::Crossed;
    }
    match registry.lookup(symbol, &itype) {
        Some(id) => {
            collection.insert(id, quote);
            Ingested::Published(id)
        },
        None => Ingested::UnknownSymbol,
    }
}

/// Why an adapter could not do what it was asked.
#[derive(Clone, Copy, Debug, PartialEq, Eq, Structural)]
pub enum FeedError {
    /// The frame is not what the protocol allows.
    Malformed,
    /// The adapter does not serve this instrument type.
    UnsupportedInstrument,
    /// A symbol cannot be written in the exchange's spelling.
    InvalidSymbol,
    /// The exchange lists no market for a configured symbol.
    UnknownMarket,
}

/// The adapter's error for a symbol that its mapper could not map.
pub open spec fn feed_error(error: MapperError) -> FeedError {
    match error {
        MapperError::UnsupportedInstrument => FeedError::UnsupportedInstrument,
        _ => FeedError::InvalidSymbol,
    }
}

/// The adapter's error for a symbol that its mapper could not map.
pub fn feed_error_of(error: MapperError) -> (r: FeedError)
    ensures
        r == feed_error(error),
{
    match error {
        MapperError::UnsupportedInstrument => FeedError::UnsupportedInstrument,
        _ => FeedError::InvalidSymbol,
    }
}

/// The text of a result.
pub open spec fn feed_text_of(result: Result<String, FeedError>) -> Result<Seq<char>, FeedError> {
    match result {
        Ok(text) => Ok(text@),
        Err(error) => Err(error),
    }
}

/// What is particular to one exchange. The lifecycle is written once against
/// this interface.
pub trait ExchangeFeed {
    /// The instrument type that this adapter serves.
    fn get_itype(&self) -> InstrumentType;

    /// The URL to connect to. A failure here is final: the connection is not
    /// tried again.
    fn build_url(&self, symbols: &[&str]) -> Result<String, FeedError>;

    /// The text to send at each heartbeat tick; `None` where a ping of the
    /// transport will do. An adapter that says nothing of its own has none.
    fn heartbeat_message(&self) -> (message: Option<String>)
        default_ensures
            message is None,
    {
        None
    }

    /// Reads one data frame: a quote and the native symbol it is for, `None`
    /// for a frame to pass by, or an error for a frame that is malformed.
    /// The answer is one that `answers` allows.
    fn parse_message(&mut self, msg: WireMessage<'_>, received_ts: Timestamp) -> (answer: Result<
        Option<(String, MarketData)>,
        FeedError,
    >)
        ensures
            old(self).answers(msg, received_ts, final(self), answer),
    ;

    /// What the adapter makes of a data frame: that it may give `answer` to
    /// the frame `msg`, received at `received_ts`, and be as `after` says
    /// when it has. Each adapter says for itself what its answers are; of
    /// one that does not, every answer is to be expected.
    open spec fn answers(
        &self,
        msg: WireMessage<'_>,
        received_ts: Timestamp,
        after: &Self,
        answer: Result<Option<(String, MarketData)>, FeedError>,
    ) -> bool {
        true
    }
}

/// What is sent at a heartbeat tick.
#[derive(Debug, PartialEq, Eq)]
pub enum Heartbeat {
    /// The adapter's own message, as a text frame.
    Text(String),
    /// A ping of the transport, without a payload.
    Ping,
}

/// What is sent at a heartbeat tick: the adapter's message where it has
/// one, else a ping of the transport.
pub fn heartbeat_frame(message: Option<String>) -> (frame: Heartbeat)
    ensures
        match message {
            Some(text) => frame == Heartbeat::Text(text),
            None => frame == Heartbeat::Ping,
        },
{
    match message {
        Some(text) => Heartbeat::Text(text),
        None => Heartbeat::Ping,
    }
}

/// What was made of a data frame.
pub enum Handled {
    /// The adapter read a quote for `symbol`, and `ingested` says what
    /// became of it.
    Quote { symbol: String, quote: MarketData, ingested: Ingested },
    /// The adapter passed the frame by.
    Discard,
    /// The adapter found the frame malformed.
    Malformed(FeedError),
}

impl Handled {
    /// The outcome to report to the lifecycle.
    pub open spec fn outcome_of(self) -> Outcome {
        match self {
            Handled::Quote { .. } => Outcome::Quote,
            Handled::Discard => Outcome::Discard,
            Handled::Malformed(_) => Outcome::Malformed,
        }
    }

    pub fn outcome(&self) -> (outcome: Outcome)
        ensures
            outcome == self.outcome_of(),
    {
        match self {
            Handled::Quote { .. } => Outcome::Quote,
            Handled::Discard => Outcome::Discard,
            Handled::Malformed(_) => Outcome::Malformed,
        }
    }
}

/// Hands a data frame to the adapter and settles what the adapter answers.
/// The adapter is asked once, with the frame and the time of receipt as they
/// were given; what comes back is its answer settled, and the table is as
/// the settling leaves it.
pub fn handle_message<F: ExchangeFeed>(
    feed: &mut F,
    collection: &mut MarketDataCollection,
    registry: &SymbolRegistry,
    itype: InstrumentType,
    msg: WireMessage<'_>,
    received_ts: Timestamp,
) -> (handled: Handled)
    ensures
        old(feed).answers(msg, received_ts, final(feed), handled.answer()),
        handled == settled(handled.answer(), registry@, itype),
        final(collection)@ == table_settled(old(collection)@, handled),
        match handled {
            Handled::Quote { symbol, quote, ingested } => ingested == ingestion(
                registry@,
                itype,
                symbol@,
                quote,
            ) && final(collection)@ == table_after(old(collection)@, ingested, quote),
            _ => final(collection)@ == old(collection)@,
        },
{
    let answer = feed.parse_message(msg, received_ts);
    settle(answer, collection, registry, itype)
}

impl Handled {
    /// The answer of the adapter that was settled.
    pub open spec fn answer(self) -> Result<Option<(String, MarketData)>, FeedError> {
        match self {
            Handled::Quote { symbol, quote, .. } => Ok(Some((symbol, quote))),
            Handled::Discard => Ok(None),
            Handled::Malformed(error) => Err(error),
        }
    }
}

/// An adapter's answer settled: a quote goes the way of `ingestion`, a frame
/// passed by is a discard, an error marks the frame as malformed.
pub open spec fn settled(
    answer: Result<Option<(String, MarketData)>, FeedError>,
    registry: RegistryModel,
    itype: InstrumentType,
) -> Handled {
    match answer {
        Ok(Some(found)) => Handled::Quote {
            symbol: found.0,
            quote: found.1,
            ingested: ingestion(registry, itype, found.0@, found.1),
        },
        Ok(None) => Handled::Discard,
        Err(error) => Handled::Malformed(error),
    }
}

/// The table after an answer was settled: changed by the one write of a
/// quote that was published, else as it was.
pub open spec fn table_settled(table: Map<SymbolId, MarketData>, handled: Handled) -> Map<
    SymbolId,
    MarketData,
> {
    match handled {
        Handled::Quote { quote, ingested, .. } => table_after(table, ingested, quote),
        _ => table,
    }
}

/// Settles what an adapter answered to a data frame: a quote is taken to the
/// table by `ingest`, anything else leaves the table as it is.
pub fn settle(
    answer: Result<Option<(String, MarketData)>, FeedError>,
    collection: &mut MarketDataCollection,
    registry: &SymbolRegistry,
    itype: InstrumentType,
) -> (handled: Handled)
    ensures
        handled == settled(answer, registry@, itype),
        handled.answer() == answer,
        final(collection)@ == table_settled(old(collection)@, handled),
{
    match answer {
        Ok(Some((symbol, quote))) => {
            let ingested = ingest(collection, registry, itype, symbol.as_str(), quote);
            Handled::Quote { symbol, quote, ingested }
        },
        Ok(None) => Handled::Discard,
        Err(error) => Handled::Malformed(error),
    }
}

} // verus!
