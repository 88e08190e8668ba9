use ebb::bingo::BingoState;
use ebb::channel::CommandChannel;
use ebb::channel::ResponseBus;
use ebb::countdown::CountdownMode;
use ebb::countdown::CountdownTimer;
use ebb::loader::PresetManager;
use ebb::server::BingoMethod;
use ebb::server::CountdownMethod;
use ebb::server::TickOwner;
use ebb::server::WsCommand;
use ebb::server::WsResponse;
use ebb::text::ScrollState;
use ebb::text::ScrollingState;
use ebb::text::TextQueue;
use ebb::text::TextSource;

fn item(content: &str, duration: u64) -> TextSource {
    TextSource { content: content.to_string(), duration }
}

fn catalog() -> PresetManager {
    let mut pm = PresetManager::new();
    pm.insert(
        "news".to_string(),
        vec![item("first", 5), item("second", 0), item("third", 2000)],
    );
    pm.insert("ads".to_string(), vec![item("buy", 5), item("sell", 5)]);
    pm
}

fn owner() -> TickOwner {
    let pm = catalog();
    let queue = TextQueue {
        texts: vec![item("first", 5), item("second", 0), item("third", 2000)],
        current_index: 0,
        current_preset: "news".to_string(),
    };
    TickOwner::new(
        pm,
        queue,
        ScrollingState::new(),
        BingoState::new(),
        CountdownTimer::new(10_000, CountdownMode::Normal),
    )
}

fn bulletin(preset: &str, index: u32) -> WsCommand {
    WsCommand::Bulletin { preset: preset.to_string(), index }
}

#[test]
fn valid_bulletin_sets_index_and_preset() {
    let mut o = owner();
    let resp = o.apply_command(bulletin("news", 1));
    assert_eq!(o.text_queue.current_index, 1);
    assert_eq!(o.text_queue.current_preset, "news");
    match resp {
        Some(WsResponse::Bulletin(b)) => {
            assert_eq!(b.prev_text, "first");
            assert_eq!(b.now_text, "second");
            assert_eq!(b.next_text, "third");
        }
        _ => panic!("a valid bulletin must answer with its neighbourhood"),
    }
}

#[test]
fn bulletin_neighbours_missing_read_as_empty() {
    let mut o = owner();
    match o.apply_command(bulletin("news", 0)) {
        Some(WsResponse::Bulletin(b)) => {
            assert_eq!(b.prev_text, "");
            assert_eq!(b.now_text, "first");
            assert_eq!(b.next_text, "second");
        }
        _ => panic!("expected a bulletin response"),
    }
    match o.apply_command(bulletin("news", 2)) {
        Some(WsResponse::Bulletin(b)) => {
            assert_eq!(b.prev_text, "second");
            assert_eq!(b.now_text, "third");
            assert_eq!(b.next_text, "");
        }
        _ => panic!("expected a bulletin response"),
    }
}

#[test]
fn out_of_range_bulletin_on_current_preset_changes_nothing() {
    let mut o = owner();
    o.apply_command(bulletin("news", 1));
    let resp = o.apply_command(bulletin("news", 7));
    assert!(resp.is_none());
    assert_eq!(o.text_queue.current_index, 1);
    assert_eq!(o.text_queue.current_preset, "news");
}

#[test]
fn unknown_preset_changes_nothing_when_index_invalid() {
    let mut o = owner();
    let resp = o.apply_command(bulletin("missing", 9));
    assert!(resp.is_none());
    assert_eq!(o.text_queue.current_preset, "news");
    assert_eq!(o.text_queue.current_index, 0);
    assert_eq!(o.text_queue.texts.len(), 3);
}

#[test]
fn unknown_preset_keeps_current_queue_for_valid_index() {
    let mut o = owner();
    match o.apply_command(bulletin("missing", 1)) {
        Some(WsResponse::Bulletin(b)) => assert_eq!(b.now_text, "second"),
        _ => panic!("a valid index on the kept queue still answers"),
    }
    assert_eq!(o.text_queue.current_preset, "news");
}

#[test]
fn bulletin_swaps_known_preset_and_addresses_it() {
    let mut o = owner();
    match o.apply_command(bulletin("ads", 1)) {
        Some(WsResponse::Bulletin(b)) => {
            assert_eq!(b.prev_text, "buy");
            assert_eq!(b.now_text, "sell");
            assert_eq!(b.next_text, "");
        }
        _ => panic!("expected a bulletin response"),
    }
    assert_eq!(o.text_queue.current_preset, "ads");
    assert_eq!(o.text_queue.current_index, 1);
    assert_eq!(o.text_queue.texts.len(), 2);
}

#[test]
fn preset_swap_happens_before_the_index_check() {
    let mut o = owner();
    let resp = o.apply_command(bulletin("ads", 9));
    assert!(resp.is_none());
    assert_eq!(o.text_queue.current_preset, "ads");
    assert_eq!(o.text_queue.current_index, 0);
}

#[test]
fn scroll_state_follows_item_duration() {
    let mut o = owner();
    o.apply_command(bulletin("news", 0));
    assert_eq!(o.scrolling.state, ScrollState::Scrolling);
    o.apply_command(bulletin("news", 1));
    assert_eq!(o.scrolling.state, ScrollState::Idle);
    o.apply_command(bulletin("news", 2));
    assert_eq!(o.scrolling.state, ScrollState::Looping);
}

#[test]
fn scroll_completion_optionally_advances_the_queue() {
    let mut o = owner();
    o.apply_command(bulletin("news", 0));
    o.on_scroll_complete(false);
    assert_eq!(o.scrolling.state, ScrollState::Idle);
    assert_eq!(o.text_queue.current_index, 0);

    let mut o2 = owner();
    o2.apply_command(bulletin("news", 0));
    o2.on_scroll_complete(true);
    assert_eq!(o2.scrolling.state, ScrollState::Idle);
    assert_eq!(o2.text_queue.current_index, 1);

    let mut o3 = owner();
    o3.apply_command(bulletin("news", 2));
    o3.on_scroll_complete(true);
    assert_eq!(o3.scrolling.state, ScrollState::Looping, "a loop never completes");
    assert_eq!(o3.text_queue.current_index, 2);
}

#[test]
fn list_presets_reports_every_catalog_name() {
    let mut o = owner();
    match o.apply_command(WsCommand::ListPresets) {
        Some(WsResponse::PresetList(p)) => {
            assert_eq!(p.presets, vec!["news".to_string(), "ads".to_string()]);
        }
        _ => panic!("expected the preset list"),
    }
}

#[test]
fn seventy_five_bingo_commands_then_silence() {
    let mut o = owner();
    let mut seen = [false; 76];
    for draw in 1..=75u8 {
        match o.apply_command(WsCommand::Bingo { method: BingoMethod::Next }) {
            Some(WsResponse::Bingo(b)) => {
                assert!(1 <= b.current && b.current <= 75);
                assert!(!seen[b.current as usize], "draw repeated");
                seen[b.current as usize] = true;
                assert_eq!(b.no, draw, "draw count must follow the draws");
            }
            _ => panic!("each of the 75 draws must answer"),
        }
    }
    let resp = o.apply_command(WsCommand::Bingo { method: BingoMethod::Next });
    assert!(resp.is_none(), "an exhausted session must not answer with a draw");
}

#[test]
fn countdown_start_command_answers_started() {
    let mut o = owner();
    match o.apply_command(WsCommand::Countdown { method: CountdownMethod::Start }) {
        Some(WsResponse::Countdown(c)) => assert_eq!(c.status, "started"),
        _ => panic!("expected a countdown response"),
    }
    assert!(o.countdown.is_active);
    assert_eq!(o.countdown.total_elapsed_ms, 0);
}

#[test]
fn ten_seconds_of_ticks_publish_finished_exactly_once() {
    let mut o = owner();
    let mut chan = CommandChannel::new(100);
    let mut bus = ResponseBus::new(100);
    let sub = bus.subscribe();
    chan.send(WsCommand::Countdown { method: CountdownMethod::Start });
    let mut finished = 0;
    let mut started = 0;
    for _ in 0..12 {
        o.tick(1000, &mut chan, &mut bus);
        let (msgs, lagged) = bus.drain(sub);
        assert_eq!(lagged, 0);
        for m in &msgs {
            if let WsResponse::Countdown(c) = m {
                match c.status.as_str() {
                    "started" => started += 1,
                    "finished" => finished += 1,
                    other => panic!("unexpected status {}", other),
                }
            }
        }
    }
    assert_eq!(started, 1);
    assert_eq!(finished, 1, "the finish notice must come exactly once");
    assert!(!o.countdown.is_active);
}

#[test]
fn tick_applies_commands_in_arrival_order_and_drains() {
    let mut o = owner();
    let mut chan = CommandChannel::new(100);
    let mut bus = ResponseBus::new(100);
    let sub = bus.subscribe();
    chan.send(bulletin("news", 1));
    chan.send(WsCommand::ListPresets);
    o.tick(16, &mut chan, &mut bus);
    assert_eq!(chan.len(), 0);
    let (msgs, _) = bus.drain(sub);
    assert_eq!(msgs.len(), 2);
    assert!(matches!(msgs[0], WsResponse::Bulletin(_)));
    assert!(matches!(msgs[1], WsResponse::PresetList(_)));
}
