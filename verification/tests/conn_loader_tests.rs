use ebb::conn::conn_step;
use ebb::conn::ConnAction;
use ebb::conn::ConnEvent;
use ebb::conn::ConnState;
use ebb::loader::fallback_manager;
use ebb::loader::fallback_texts;
use ebb::loader::PresetManager;
use ebb::text::TextSource;

#[test]
fn only_an_open_connection_forwards_commands() {
    assert_eq!(
        conn_step(ConnState::Open, ConnEvent::TextDecoded),
        (ConnState::Open, ConnAction::Forward)
    );
    assert_eq!(
        conn_step(ConnState::Connecting, ConnEvent::TextDecoded),
        (ConnState::Closed, ConnAction::Shut)
    );
    assert_eq!(
        conn_step(ConnState::Closed, ConnEvent::TextDecoded),
        (ConnState::Closed, ConnAction::Ignore)
    );
}

#[test]
fn malformed_input_keeps_the_connection_open() {
    assert_eq!(
        conn_step(ConnState::Open, ConnEvent::TextMalformed),
        (ConnState::Open, ConnAction::Ignore)
    );
    assert_eq!(
        conn_step(ConnState::Open, ConnEvent::OtherFrame),
        (ConnState::Open, ConnAction::Ignore)
    );
}

#[test]
fn close_error_or_sibling_end_shuts_the_connection() {
    for e in [ConnEvent::CloseFrame, ConnEvent::TransportError, ConnEvent::SiblingEnded] {
        assert_eq!(conn_step(ConnState::Open, e), (ConnState::Closed, ConnAction::Shut));
    }
}

#[test]
fn handshake_opens_the_connection() {
    assert_eq!(
        conn_step(ConnState::Connecting, ConnEvent::Opened),
        (ConnState::Open, ConnAction::Ignore)
    );
}

#[test]
fn duplicate_preset_names_are_refused() {
    let mut pm = PresetManager::new();
    assert!(pm.insert(
        "a".to_string(),
        vec![TextSource { content: "x".to_string(), duration: 5 }]
    ));
    assert!(!pm.insert("a".to_string(), Vec::new()));
    assert_eq!(pm.presets.len(), 1);
    assert_eq!(pm.presets[0].texts.len(), 1);
}

#[test]
fn lookup_finds_only_known_presets() {
    let mut pm = PresetManager::new();
    pm.insert(
        "a".to_string(),
        vec![TextSource { content: "x".to_string(), duration: 5 }],
    );
    assert!(pm.contains_name(&"a".to_string()));
    assert!(!pm.contains_name(&"b".to_string()));
    let texts = pm.get(&"a".to_string()).expect("known preset resolves");
    assert_eq!(texts[0].content, "x");
    assert!(pm.get(&"b".to_string()).is_none());
}

#[test]
fn names_come_back_in_catalog_order() {
    let mut pm = PresetManager::new();
    pm.insert("z".to_string(), Vec::new());
    pm.insert("a".to_string(), Vec::new());
    pm.insert("m".to_string(), Vec::new());
    assert_eq!(pm.names(), vec!["z".to_string(), "a".to_string(), "m".to_string()]);
}

#[test]
fn fallbacks_give_the_display_something_to_show() {
    let texts = fallback_texts();
    assert_eq!(texts.len(), 1);
    assert_eq!(texts[0].content, "This is a Demo Text");
    assert_eq!(texts[0].duration, 5);
    let pm = fallback_manager();
    assert_eq!(pm.names(), vec!["default".to_string()]);
}
