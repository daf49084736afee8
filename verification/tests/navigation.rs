use math_session::navigation::{
    apply_navigation, arrival, classify_key, is_navigation_key, KeyAction, KeyEffect, KeyEvent,
    KeyResponse, NavOutcome, NavigationMove, KEY_ARROW_RIGHT, NAVIGATION_REJECTED_MESSAGE,
};
use math_session::session::{Flags, Session};

fn key(name: &str, code: u32) -> KeyEvent {
    KeyEvent { key: name.to_string(), key_code: code, shift: false, ctrl: false, alt: false, meta: false }
}

fn clean_session() -> Session {
    let mut session = Session::new();
    session.canonical_markup = Some("<math><mi>x</mi></math>".to_string());
    session.speech_text = "x".to_string();
    session.braille_text = "\u{282D}".to_string();
    session
}

#[test]
fn the_navigation_keys_are_enter_space_home_end_backspace_arrows_and_digits() {
    let allowed: Vec<u32> = (0..=300).filter(|code| is_navigation_key(*code)).collect();
    let expected: Vec<u32> =
        vec![8, 13, 32, 35, 36, 37, 38, 39, 40, 48, 49, 50, 51, 52, 53, 54, 55, 56, 57];
    assert_eq!(allowed, expected);
    assert!(!is_navigation_key(u32::MAX));
}

#[test]
fn escape_gives_up_the_focus() {
    assert_eq!(classify_key(&key("Escape", 27)), KeyAction::ClearFocus);
    assert_eq!(classify_key(&key("Escape", 39)), KeyAction::ClearFocus);
    assert_eq!(classify_key(&key("Esc", 27)), KeyAction::PassThrough);
    assert_eq!(classify_key(&key("escape", 27)), KeyAction::PassThrough);
}

#[test]
fn navigation_keys_are_handed_on() {
    assert_eq!(classify_key(&key("ArrowRight", 39)), KeyAction::Navigate);
    assert_eq!(classify_key(&key("Enter", 13)), KeyAction::Navigate);
    assert_eq!(classify_key(&key("5", 53)), KeyAction::Navigate);
    assert_eq!(classify_key(&key("", 32)), KeyAction::Navigate);
}

#[test]
fn other_keys_pass_through() {
    assert_eq!(classify_key(&key("a", 65)), KeyAction::PassThrough);
    assert_eq!(classify_key(&key("Tab", 9)), KeyAction::PassThrough);
    assert_eq!(classify_key(&key("F5", 116)), KeyAction::PassThrough);
    assert_eq!(classify_key(&key("ArrowRight", 0)), KeyAction::PassThrough);
}

#[test]
fn a_move_is_taken_into_the_session() {
    assert_eq!(classify_key(&key("ArrowRight", KEY_ARROW_RIGHT)), KeyAction::Navigate);
    let mut session = clean_session();
    let response = apply_navigation(
        &mut session,
        Ok(NavigationMove { speech: "squared".to_string(), node_id: "id-7".to_string(), offset: 0 }),
    );
    assert_eq!(
        response,
        KeyResponse {
            outcome: NavOutcome::Consumed,
            suppress_default: true,
            effect: KeyEffect::Highlight("id-7".to_string()),
        }
    );
    assert_eq!(session.focused_node_id, "id-7");
    assert!(session.flags.braille_stale);
    assert!(session.flags.should_speak_now);
    assert!(!session.flags.speech_stale);
    assert_eq!(session.speech_text, "squared");
    assert_eq!(session.braille_text, "\u{282D}");
}

#[test]
fn a_rejected_move_changes_nothing_and_is_announced() {
    let mut session = clean_session();
    session.focused_node_id = "id-2".to_string();
    let before = session.clone();
    let response = apply_navigation(&mut session, Err("no next sibling".to_string()));
    assert_eq!(
        response,
        KeyResponse {
            outcome: NavOutcome::Consumed,
            suppress_default: true,
            effect: KeyEffect::Announce(NAVIGATION_REJECTED_MESSAGE.to_string()),
        }
    );
    assert_eq!(session, before);
    assert_eq!(
        session.flags,
        Flags { speech_stale: false, braille_stale: false, should_speak_now: false }
    );
}

#[test]
fn a_move_is_its_speech_and_where_it_arrived() {
    assert_eq!(
        arrival("x squared".to_string(), Ok(("id-7".to_string(), 2))),
        Ok(NavigationMove { speech: "x squared".to_string(), node_id: "id-7".to_string(), offset: 2 })
    );
}

#[test]
fn there_is_no_move_where_the_engine_cannot_say_where_it_arrived() {
    assert_eq!(
        arrival("x squared".to_string(), Err("no current node".to_string())),
        Err("no current node".to_string())
    );
}
