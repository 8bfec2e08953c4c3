use crypto_feeds::exchanges::connection::{
    calculate_backoff, handle_message, heartbeat_frame, ingest, settle, Action, Heartbeat, ConnectionConfig, ConnectionResult, Event,
    ExchangeFeed, FeedError, Handled, Ingested, Lifecycle, Outcome, Phase, WireMessage,
};
use crypto_feeds::market_data::{InstrumentType, MarketData, MarketDataCollection};
use crypto_feeds::symbol_registry::SymbolRegistry;
use crypto_feeds::time::{Duration, Timestamp};

fn secs(n: u64) -> Duration {
    Duration::from_secs(n)
}

fn at(n: i64) -> Timestamp {
    Timestamp::from_secs(n)
}

fn quote(bid: f64, ask: f64) -> MarketData {
    MarketData {
        bid: Some(bid.to_bits()),
        ask: Some(ask.to_bits()),
        bid_qty: None,
        ask_qty: None,
        exchange_ts: None,
        received_ts: None,
    }
}

fn registry() -> SymbolRegistry {
    SymbolRegistry::from_config(&vec!["BTC".to_string(), "ETH".to_string()]).unwrap()
}

#[test]
fn the_backoff_doubles_up_to_the_longest_wait() {
    let waits: Vec<Duration> =
        (0..6).map(|retry| calculate_backoff(retry, secs(1), secs(60))).collect();
    assert_eq!(waits, vec![secs(1), secs(2), secs(4), secs(8), secs(16), secs(32)]);
    for retry in [6, 7, 10, 11, 1000, u32::MAX] {
        assert_eq!(calculate_backoff(retry, secs(1), secs(60)), secs(60));
    }
}

#[test]
fn the_doublings_stop_at_ten() {
    let long = secs(1_000_000);
    assert_eq!(calculate_backoff(10, secs(1), long), secs(1024));
    assert_eq!(calculate_backoff(11, secs(1), long), secs(1024));
    assert_eq!(calculate_backoff(u32::MAX, secs(1), long), secs(1024));
    assert_eq!(calculate_backoff(3, Duration::from_millis(250), long), secs(2));
    assert_eq!(calculate_backoff(1, Duration::from_millis(750), long), Duration::from_millis(1500));
    assert_eq!(calculate_backoff(0, secs(5), secs(2)), secs(2));
    assert_eq!(calculate_backoff(4, secs(0), secs(2)), secs(0));
    let longest = Duration::new(u64::MAX, 999_999_999).unwrap();
    assert_eq!(calculate_backoff(10, longest, longest), longest);
}

#[test]
fn the_default_timing() {
    let config = ConnectionConfig::default();
    assert_eq!(config.max_retry_delay, secs(60));
    assert_eq!(config.heartbeat_interval, secs(10));
    assert_eq!(config.message_timeout, secs(90));
    assert_eq!(config.initial_backoff, secs(1));
}

#[test]
fn two_failures_then_success() {
    let mut lifecycle = Lifecycle::new(ConnectionConfig::default(), at(0));
    assert_eq!(lifecycle.phase(), Phase::Connecting);
    assert_eq!(lifecycle.awaited(), Action::Connect { timeout: secs(90) });
    assert_eq!(lifecycle.step(Event::ConnectFailed, at(1)), Action::Sleep(secs(1)));
    assert_eq!(lifecycle.phase(), Phase::BackoffWait);
    assert_eq!(lifecycle.result(), Some(ConnectionResult::Reconnect));
    assert_eq!(
        lifecycle.step(Event::BackoffElapsed, at(2)),
        Action::Connect { timeout: secs(90) }
    );
    assert_eq!(lifecycle.phase(), Phase::Connecting);
    assert_eq!(lifecycle.retry_count(), 1);
    assert_eq!(lifecycle.step(Event::ConnectTimedOut, at(92)), Action::Sleep(secs(2)));
    assert_eq!(lifecycle.phase(), Phase::BackoffWait);
    assert_eq!(
        lifecycle.step(Event::BackoffElapsed, at(94)),
        Action::Connect { timeout: secs(90) }
    );
    assert_eq!(lifecycle.phase(), Phase::Connecting);
    assert_eq!(lifecycle.retry_count(), 2);
    assert_eq!(lifecycle.step(Event::Connected, at(95)), Action::Subscribe);
    assert_eq!(lifecycle.phase(), Phase::Subscribing);
    assert_eq!(lifecycle.retry_count(), 2);
    assert_eq!(lifecycle.step(Event::Subscribed, at(96)), Action::Receive);
    assert_eq!(lifecycle.phase(), Phase::Streaming);
    assert_eq!(lifecycle.retry_count(), 0);
    assert_eq!(lifecycle.result(), None);
    assert_eq!(lifecycle.state().last_success, at(96));
}

#[test]
fn waits_grow_while_the_failures_go_on() {
    let mut lifecycle = Lifecycle::new(ConnectionConfig::default(), at(0));
    let mut now = 0;
    for expected in [1, 2, 4, 8, 16, 32, 60, 60] {
        now += 1;
        assert_eq!(lifecycle.step(Event::ConnectFailed, at(now)), Action::Sleep(secs(expected)));
        now += expected as i64;
        lifecycle.step(Event::BackoffElapsed, at(now));
    }
    assert_eq!(lifecycle.retry_count(), 8);
}

#[test]
fn the_retry_count_starts_anew_five_minutes_after_the_last_success() {
    let mut lifecycle = Lifecycle::new(ConnectionConfig::default(), at(0));
    lifecycle.step(Event::ConnectFailed, at(1));
    lifecycle.step(Event::BackoffElapsed, at(2));
    lifecycle.step(Event::ConnectFailed, at(3));
    lifecycle.step(Event::BackoffElapsed, at(5));
    assert_eq!(lifecycle.retry_count(), 2);
    assert_eq!(lifecycle.step(Event::ConnectFailed, at(300)), Action::Sleep(secs(4)));
    lifecycle.step(Event::BackoffElapsed, at(304));
    assert_eq!(lifecycle.retry_count(), 3);
    assert_eq!(lifecycle.step(Event::ConnectFailed, at(305)), Action::Sleep(secs(1)));
    assert_eq!(lifecycle.retry_count(), 0);
}

#[test]
fn a_url_that_cannot_be_built_stops_the_connection() {
    let mut lifecycle = Lifecycle::new(ConnectionConfig::default(), at(0));
    assert_eq!(lifecycle.step(Event::UrlRejected, at(1)), Action::Stop);
    assert_eq!(lifecycle.phase(), Phase::Shutdown);
    assert_eq!(lifecycle.result(), Some(ConnectionResult::InvalidConfig));
    for event in [Event::Connected, Event::BackoffElapsed, Event::ShutdownRequested] {
        assert_eq!(lifecycle.step(event, at(2)), Action::Stop);
        assert_eq!(lifecycle.phase(), Phase::Shutdown);
        assert_eq!(lifecycle.result(), Some(ConnectionResult::InvalidConfig));
    }
}

fn streaming(now: i64) -> Lifecycle {
    let mut lifecycle = Lifecycle::new(ConnectionConfig::default(), at(now));
    lifecycle.step(Event::Connected, at(now));
    lifecycle.step(Event::Subscribed, at(now));
    lifecycle
}

#[test]
fn shutdown_is_reached_from_every_state() {
    let mut connecting = Lifecycle::new(ConnectionConfig::default(), at(0));
    assert_eq!(connecting.step(Event::ShutdownRequested, at(1)), Action::Stop);
    assert_eq!(connecting.result(), Some(ConnectionResult::Shutdown));
    let mut subscribing = Lifecycle::new(ConnectionConfig::default(), at(0));
    subscribing.step(Event::Connected, at(1));
    assert_eq!(subscribing.step(Event::ShutdownRequested, at(1)), Action::Stop);
    assert_eq!(subscribing.phase(), Phase::Shutdown);
    let mut live = streaming(0);
    assert_eq!(live.step(Event::ShutdownRequested, at(1)), Action::Stop);
    assert_eq!(live.phase(), Phase::Shutdown);
    let mut waiting = Lifecycle::new(ConnectionConfig::default(), at(0));
    waiting.step(Event::ConnectFailed, at(1));
    assert_eq!(waiting.step(Event::ShutdownRequested, at(1)), Action::Stop);
    assert_eq!(waiting.result(), Some(ConnectionResult::Shutdown));
}

#[test]
fn frames_are_answered_while_streaming() {
    let mut lifecycle = streaming(0);
    assert_eq!(lifecycle.step(Event::Text(Outcome::Quote), at(1)), Action::Receive);
    assert_eq!(lifecycle.step(Event::Text(Outcome::Discard), at(2)), Action::HandleOther);
    assert_eq!(lifecycle.step(Event::Text(Outcome::Malformed), at(3)), Action::Receive);
    assert_eq!(lifecycle.step(Event::Binary(Outcome::Quote), at(4)), Action::Receive);
    assert_eq!(lifecycle.step(Event::Binary(Outcome::Discard), at(5)), Action::HandleOther);
    assert_eq!(lifecycle.step(Event::Binary(Outcome::Malformed), at(6)), Action::Receive);
    assert_eq!(lifecycle.step(Event::Ping, at(7)), Action::ReplyPong);
    assert_eq!(lifecycle.step(Event::Pong, at(8)), Action::Receive);
    assert_eq!(lifecycle.step(Event::OtherFrame, at(9)), Action::Receive);
    assert_eq!(lifecycle.phase(), Phase::Streaming);
    assert_eq!(lifecycle.state().last_message, at(9));
    assert_eq!(lifecycle.step(Event::Connected, at(10)), Action::Receive);
    assert_eq!(lifecycle.state().last_message, at(9));
}

#[test]
fn a_lost_connection_is_waited_out() {
    for event in [
        Event::Closed,
        Event::TransportError,
        Event::StreamEnded,
        Event::HookFailed,
        Event::HeartbeatFailed,
    ] {
        let mut lifecycle = streaming(0);
        assert_eq!(lifecycle.step(event, at(10)), Action::Sleep(secs(1)));
        assert_eq!(lifecycle.phase(), Phase::BackoffWait);
        assert_eq!(lifecycle.result(), Some(ConnectionResult::Reconnect));
        assert_eq!(lifecycle.step(Event::Text(Outcome::Quote), at(10)), Action::Sleep(secs(1)));
        assert_eq!(lifecycle.phase(), Phase::BackoffWait);
    }
    let mut subscribing = Lifecycle::new(ConnectionConfig::default(), at(0));
    subscribing.step(Event::Connected, at(1));
    assert_eq!(subscribing.step(Event::SubscribeFailed, at(2)), Action::Sleep(secs(1)));
}

#[test]
fn a_heartbeat_finds_a_stalled_connection() {
    let mut lifecycle = streaming(0);
    assert_eq!(lifecycle.step(Event::HeartbeatTick, at(10)), Action::SendHeartbeat);
    assert_eq!(lifecycle.step(Event::HeartbeatTick, at(90)), Action::SendHeartbeat);
    assert_eq!(lifecycle.step(Event::Pong, at(91)), Action::Receive);
    assert_eq!(lifecycle.step(Event::HeartbeatTick, at(181)), Action::SendHeartbeat);
    assert_eq!(lifecycle.phase(), Phase::Streaming);
    assert_eq!(lifecycle.step(Event::HeartbeatTick, at(182)), Action::Sleep(secs(1)));
    assert_eq!(lifecycle.phase(), Phase::BackoffWait);
}

#[test]
fn a_crossed_quote_never_reaches_the_table() {
    let registry = registry();
    let mut table = MarketDataCollection::new();
    let good = quote(99.0, 100.0);
    assert_eq!(
        ingest(&mut table, &registry, InstrumentType::Spot, "BTCUSDT", good),
        Ingested::Published(0)
    );
    let crossed = quote(100.0, 99.0);
    assert_eq!(
        ingest(&mut table, &registry, InstrumentType::Spot, "BTCUSDT", crossed),
        Ingested::Crossed
    );
    assert_eq!(table.get(0), Some(&good));
    let level = quote(100.0, 100.0);
    assert_eq!(
        ingest(&mut table, &registry, InstrumentType::Spot, "ETH-USD", level),
        Ingested::Crossed
    );
    assert_eq!(table.get(10), None);
}

#[test]
fn a_quote_for_an_unknown_symbol_is_dropped() {
    let registry = registry();
    let mut table = MarketDataCollection::new();
    assert_eq!(
        ingest(&mut table, &registry, InstrumentType::Spot, "SOLUSDT", quote(1.0, 2.0)),
        Ingested::UnknownSymbol
    );
    assert_eq!(
        ingest(&mut table, &registry, InstrumentType::Futures, "BTCUSDT", quote(1.0, 2.0)),
        Ingested::UnknownSymbol
    );
    assert_eq!(
        ingest(&mut table, &registry, InstrumentType::Perp, "eth_usdc", quote(1.0, 2.0)),
        Ingested::Published(9)
    );
    assert_eq!(table.get(9), Some(&quote(1.0, 2.0)));
    for id in 0..9 {
        assert_eq!(table.get(id), None);
    }
}

struct Stub {
    answers: Vec<Result<Option<(String, MarketData)>, FeedError>>,
}

impl ExchangeFeed for Stub {
    fn get_itype(&self) -> InstrumentType {
        InstrumentType::Spot
    }

    fn build_url(&self, _symbols: &[&str]) -> Result<String, FeedError> {
        Ok("wss://stub".to_string())
    }

    fn parse_message(
        &mut self,
        _msg: WireMessage<'_>,
        _received_ts: Timestamp,
    ) -> Result<Option<(String, MarketData)>, FeedError> {
        self.answers.remove(0)
    }
}

#[test]
fn a_frame_is_handed_to_the_adapter_and_its_quote_ingested() {
    let registry = registry();
    let mut table = MarketDataCollection::new();
    let mut feed = Stub {
        answers: vec![
            Ok(Some(("BTC/USDT".to_string(), quote(10.0, 11.0)))),
            Ok(None),
            Err(FeedError::Malformed),
            Ok(Some(("BTC/USDT".to_string(), quote(12.0, 11.0)))),
            Ok(Some(("DOGEUSDT".to_string(), quote(1.0, 2.0)))),
        ],
    };
    assert_eq!(feed.heartbeat_message(), None);
    let itype = feed.get_itype();
    let first =
        handle_message(&mut feed, &mut table, &registry, itype, WireMessage::Text("a"), at(1));
    assert_eq!(first.outcome(), Outcome::Quote);
    assert!(matches!(first, Handled::Quote { ingested: Ingested::Published(0), .. }));
    assert_eq!(table.get(0), Some(&quote(10.0, 11.0)));
    let second =
        handle_message(&mut feed, &mut table, &registry, itype, WireMessage::Binary(&[1]), at(2));
    assert_eq!(second.outcome(), Outcome::Discard);
    let third =
        handle_message(&mut feed, &mut table, &registry, itype, WireMessage::Text("c"), at(3));
    assert!(matches!(third, Handled::Malformed(FeedError::Malformed)));
    assert_eq!(third.outcome(), Outcome::Malformed);
    let fourth =
        handle_message(&mut feed, &mut table, &registry, itype, WireMessage::Text("d"), at(4));
    assert!(matches!(fourth, Handled::Quote { ingested: Ingested::Crossed, .. }));
    let fifth =
        handle_message(&mut feed, &mut table, &registry, itype, WireMessage::Text("e"), at(5));
    assert!(matches!(fifth, Handled::Quote { ingested: Ingested::UnknownSymbol, .. }));
    assert_eq!(table.get(0), Some(&quote(10.0, 11.0)));
}

#[test]
fn a_heartbeat_is_the_adapter_s_message_or_a_ping() {
    assert_eq!(heartbeat_frame(Some("{}".to_string())), Heartbeat::Text("{}".to_string()));
    assert_eq!(heartbeat_frame(None), Heartbeat::Ping);
}

#[test]
fn an_answer_is_settled_for_each_of_its_kinds() {
    let registry = registry();
    let mut table = MarketDataCollection::new();
    let spot = InstrumentType::Spot;
    let good = Ok(Some(("ETHUSDT".to_string(), quote(1.0, 2.0))));
    let handled = settle(good, &mut table, &registry, spot);
    assert!(matches!(
        &handled,
        Handled::Quote { symbol, ingested: Ingested::Published(6), .. } if symbol == "ETHUSDT"
    ));
    assert_eq!(table.get(6), Some(&quote(1.0, 2.0)));
    let crossed = Ok(Some(("ETHUSDT".to_string(), quote(3.0, 2.0))));
    assert!(matches!(
        settle(crossed, &mut table, &registry, spot),
        Handled::Quote { ingested: Ingested::Crossed, .. }
    ));
    let unknown = Ok(Some(("XRPUSDT".to_string(), quote(1.0, 2.0))));
    assert!(matches!(
        settle(unknown, &mut table, &registry, spot),
        Handled::Quote { ingested: Ingested::UnknownSymbol, .. }
    ));
    assert!(matches!(settle(Ok(None), &mut table, &registry, spot), Handled::Discard));
    assert!(matches!(
        settle(Err(FeedError::Malformed), &mut table, &registry, spot),
        Handled::Malformed(FeedError::Malformed)
    ));
    assert_eq!(table.get(6), Some(&quote(1.0, 2.0)));
}

#[test]
fn a_failed_hook_leads_to_the_wait_for_either_kind_of_frame() {
    for event in [Event::Text(Outcome::Discard), Event::Binary(Outcome::Discard)] {
        let mut lifecycle = streaming(0);
        assert_eq!(lifecycle.step(event, at(3)), Action::HandleOther);
        assert_eq!(lifecycle.phase(), Phase::Streaming);
        assert_eq!(lifecycle.state().last_message, at(3));
        assert_eq!(lifecycle.step(Event::HookFailed, at(4)), Action::Sleep(secs(1)));
        assert_eq!(lifecycle.phase(), Phase::BackoffWait);
        assert_eq!(lifecycle.result(), Some(ConnectionResult::Reconnect));
    }
}
