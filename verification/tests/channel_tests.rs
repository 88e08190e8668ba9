use ebb::channel::CommandChannel;
use ebb::channel::ResponseBus;
use ebb::channel::CHANNEL_CAPACITY;
use ebb::server::CountdownResponse;
use ebb::server::WsCommand;
use ebb::server::WsResponse;

fn status_resp(s: &str) -> WsResponse {
    WsResponse::Countdown(CountdownResponse { status: s.to_string() })
}

fn status_of(r: &WsResponse) -> &str {
    match r {
        WsResponse::Countdown(c) => c.status.as_str(),
        _ => panic!("expected a countdown response"),
    }
}

#[test]
fn saturated_channel_drops_without_blocking_or_error() {
    let mut chan = CommandChannel::new(CHANNEL_CAPACITY);
    for _ in 0..CHANNEL_CAPACITY {
        assert!(chan.send(WsCommand::ListPresets));
    }
    assert_eq!(chan.len(), CHANNEL_CAPACITY);
    assert!(!chan.send(WsCommand::ListPresets));
    assert!(!chan.send(WsCommand::Bingo { method: ebb::server::BingoMethod::Next }));
    assert_eq!(chan.len(), CHANNEL_CAPACITY);
}

#[test]
fn drain_returns_commands_in_arrival_order() {
    let mut chan = CommandChannel::new(8);
    chan.send(WsCommand::ListPresets);
    chan.send(WsCommand::Bulletin { preset: "a".to_string(), index: 2 });
    chan.send(WsCommand::Countdown { method: ebb::server::CountdownMethod::Start });
    let drained = chan.drain_all();
    assert_eq!(drained.len(), 3);
    assert!(matches!(drained[0], WsCommand::ListPresets));
    match &drained[1] {
        WsCommand::Bulletin { preset, index } => {
            assert_eq!(preset, "a");
            assert_eq!(*index, 2);
        }
        _ => panic!("wrong command order"),
    }
    assert!(matches!(drained[2], WsCommand::Countdown { .. }));
    assert_eq!(chan.len(), 0);
}

#[test]
fn publish_reaches_all_three_subscribers_once_in_order() {
    let mut bus = ResponseBus::new(8);
    let a = bus.subscribe();
    let b = bus.subscribe();
    let c = bus.subscribe();
    bus.publish(&status_resp("one"));
    bus.publish(&status_resp("two"));
    for id in [a, b, c] {
        let (msgs, lagged) = bus.drain(id);
        assert_eq!(lagged, 0);
        assert_eq!(msgs.len(), 2, "subscriber {} saw {} messages", id, msgs.len());
        assert_eq!(status_of(&msgs[0]), "one");
        assert_eq!(status_of(&msgs[1]), "two");
        let (again, _) = bus.drain(id);
        assert!(again.is_empty(), "a message was delivered twice");
    }
}

#[test]
fn late_subscriber_never_sees_old_messages() {
    let mut bus = ResponseBus::new(8);
    let early = bus.subscribe();
    bus.publish(&status_resp("before"));
    let late = bus.subscribe();
    bus.publish(&status_resp("after"));
    let (early_msgs, _) = bus.drain(early);
    assert_eq!(early_msgs.len(), 2);
    let (late_msgs, _) = bus.drain(late);
    assert_eq!(late_msgs.len(), 1);
    assert_eq!(status_of(&late_msgs[0]), "after");
}

#[test]
fn slow_subscriber_loses_oldest_and_learns_the_count() {
    let mut bus = ResponseBus::new(2);
    let s = bus.subscribe();
    bus.publish(&status_resp("one"));
    bus.publish(&status_resp("two"));
    bus.publish(&status_resp("three"));
    let (msgs, lagged) = bus.drain(s);
    assert_eq!(lagged, 1);
    assert_eq!(msgs.len(), 2);
    assert_eq!(status_of(&msgs[0]), "two");
    assert_eq!(status_of(&msgs[1]), "three");
}

#[test]
fn unsubscribed_connection_receives_nothing() {
    let mut bus = ResponseBus::new(4);
    let a = bus.subscribe();
    let b = bus.subscribe();
    bus.unsubscribe(a);
    bus.publish(&status_resp("x"));
    let (gone, lag) = bus.drain(a);
    assert!(gone.is_empty());
    assert_eq!(lag, 0);
    let (kept, _) = bus.drain(b);
    assert_eq!(kept.len(), 1);
}
