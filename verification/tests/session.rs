use math_session::notation::NoMatch;
use math_session::preferences::{
    BrailleCode, BrailleDisplay, BrailleHighlight, NavigationMode, Preferences, Setting,
    SpeechStyle, TextToSpeech, Verbosity,
};
use math_session::session::{Flags, PreferenceOutcome, Session};

const CLEAN: Flags = Flags { speech_stale: false, braille_stale: false, should_speak_now: false };

fn with_expression() -> Session {
    let mut session = Session::new();
    session.accept_input("$x$", Ok("<math><mi>x</mi></math>".to_string()));
    session.store_speech(Ok("x".to_string()));
    session.take_vocalization();
    session.store_braille(Ok("\u{282D}".to_string()));
    session
}

#[test]
fn a_new_session_is_empty_and_clean() {
    let session = Session::new();
    assert_eq!(session.raw_input, "");
    assert_eq!(session.canonical_markup, None);
    assert_eq!(session.focused_node_id, "");
    assert_eq!(session.speech_text, "");
    assert_eq!(session.braille_text, "");
    assert_eq!(session.flags, CLEAN);
    assert_eq!(session.preferences, Preferences::new());
}

#[test]
fn a_restored_session_has_the_kept_preferences() {
    let session = Session::restore("braille_display=ASCIIBraille;foo;speech_style=SimpleSpeak");
    let mut expected = Session::new();
    expected.preferences.braille_display = BrailleDisplay::ASCIIBraille;
    expected.preferences.speech_style = SpeechStyle::SimpleSpeak;
    assert_eq!(session, expected);
    assert_eq!(Session::restore(""), Session::new());
}

#[test]
fn recognized_input_marks_everything() {
    let mut session = with_expression();
    session.focused_node_id = "id-3".to_string();
    let recognized = session.accept_input("`2+2`", Ok("<math><mn>4</mn></math>".to_string()));
    assert!(recognized);
    assert_eq!(session.raw_input, "`2+2`");
    assert_eq!(session.canonical_markup, Some("<math><mn>4</mn></math>".to_string()));
    assert_eq!(session.focused_node_id, "");
    assert_eq!(
        session.flags,
        Flags { speech_stale: true, braille_stale: true, should_speak_now: true }
    );
    assert_eq!(session.speech_text, "x");
    assert_eq!(session.braille_text, "\u{282D}");
}

#[test]
fn input_that_is_not_recognized_changes_nothing() {
    let mut session = with_expression();
    session.focused_node_id = "id-3".to_string();
    let before = session.clone();
    let recognized =
        session.accept_input("<math", Err(NoMatch { detail: "Invalid MathML input".to_string() }));
    assert!(!recognized);
    assert_eq!(session, before);
}

#[test]
fn changing_the_speech_style_marks_speech_alone() {
    for braille_stale in [false, true] {
        let mut session = with_expression();
        session.flags.braille_stale = braille_stale;
        assert_eq!(session.preferences.speech_style, SpeechStyle::ClearSpeak);
        let changed = session.commit(Setting::SpeechStyle(SpeechStyle::SimpleSpeak));
        assert!(changed);
        assert_eq!(session.preferences.speech_style, SpeechStyle::SimpleSpeak);
        assert!(session.flags.speech_stale);
        assert_eq!(session.flags.braille_stale, braille_stale);
        assert!(!session.flags.should_speak_now);
    }
}

#[test]
fn each_speech_preference_marks_speech_alone() {
    for setting in [
        Setting::SpeechStyle(SpeechStyle::SimpleSpeak),
        Setting::SpeechVerbosity(Verbosity::Terse),
        Setting::TextToSpeech(TextToSpeech::Plain),
    ] {
        let mut session = with_expression();
        assert!(session.commit(setting));
        assert_eq!(
            session.flags,
            Flags { speech_stale: true, braille_stale: false, should_speak_now: false }
        );
    }
}

#[test]
fn each_braille_preference_marks_braille_alone() {
    for setting in [
        Setting::BrailleCode(BrailleCode::UEB),
        Setting::BrailleDisplay(BrailleDisplay::ASCIIBraille),
        Setting::BrailleNavHighlight(BrailleHighlight::Off),
    ] {
        let mut session = with_expression();
        assert!(session.commit(setting));
        assert_eq!(
            session.flags,
            Flags { speech_stale: false, braille_stale: true, should_speak_now: false }
        );
    }
}

#[test]
fn a_navigation_preference_marks_nothing() {
    for setting in [
        Setting::NavigationMode(NavigationMode::Character),
        Setting::NavigationVerbosity(Verbosity::Verbose),
    ] {
        let mut session = with_expression();
        assert!(session.commit(setting));
        assert_eq!(session.flags, CLEAN);
        assert_eq!(session.preferences.setting(setting.key()), setting);
    }
}

#[test]
fn a_setting_that_is_in_place_marks_nothing() {
    let mut session = with_expression();
    let before = session.clone();
    assert!(!session.commit(Setting::SpeechStyle(SpeechStyle::ClearSpeak)));
    assert!(!session.commit(Setting::BrailleCode(BrailleCode::Nemeth)));
    assert_eq!(session, before);
}

#[test]
fn a_refused_setting_keeps_the_value_from_before() {
    let mut session = with_expression();
    let before = session.clone();
    let outcome = session
        .settle(Setting::BrailleCode(BrailleCode::UEB), Err("UEB is an invalid value!".to_string()));
    assert_eq!(outcome, PreferenceOutcome::Rejected("UEB is an invalid value!".to_string()));
    assert_eq!(session, before);
}

#[test]
fn an_agreed_setting_is_committed() {
    let mut session = with_expression();
    assert_eq!(
        session.settle(Setting::BrailleCode(BrailleCode::UEB), Ok(())),
        PreferenceOutcome::Applied
    );
    assert_eq!(session.preferences.braille_code, BrailleCode::UEB);
    assert!(session.flags.braille_stale);
    assert_eq!(
        session.settle(Setting::BrailleCode(BrailleCode::UEB), Ok(())),
        PreferenceOutcome::Unchanged
    );
}

#[test]
fn stored_speech_clears_its_flag_alone() {
    let mut session = Session::new();
    session.accept_input("x", Ok("<math><mi>x</mi></math>".to_string()));
    session.store_speech(Ok("x".to_string()));
    assert_eq!(session.speech_text, "x");
    assert_eq!(
        session.flags,
        Flags { speech_stale: false, braille_stale: true, should_speak_now: true }
    );
    session.store_speech(Err("no rules".to_string()));
    assert_eq!(session.speech_text, "no rules");
    assert!(!session.flags.speech_stale);
}

#[test]
fn speech_is_handed_out_once() {
    let mut session = Session::new();
    session.preferences.text_to_speech = TextToSpeech::Plain;
    session.accept_input("x", Ok("<math><mi>x</mi></math>".to_string()));
    session.store_speech(Ok("x".to_string()));
    assert_eq!(session.take_vocalization(), Some("x".to_string()));
    assert!(!session.flags.should_speak_now);
    assert_eq!(session.take_vocalization(), None);
}

#[test]
fn nothing_is_handed_out_while_speech_output_is_off() {
    let mut session = Session::new();
    assert_eq!(session.preferences.text_to_speech, TextToSpeech::Off);
    session.accept_input("x", Ok("<math><mi>x</mi></math>".to_string()));
    session.store_speech(Ok("x".to_string()));
    assert_eq!(session.take_vocalization(), None);
    assert!(!session.flags.should_speak_now);
    session.preferences.text_to_speech = TextToSpeech::SSML;
    assert_eq!(session.take_vocalization(), None);
}

#[test]
fn braille_is_stored_as_dots_or_as_ascii() {
    let mut session = Session::new();
    session.accept_input("14", Ok("<math><mn>14</mn></math>".to_string()));
    session.store_braille(Ok("\u{283C}\u{2802}\u{2832}".to_string()));
    assert_eq!(session.braille_text, "\u{283C}\u{2802}\u{2832}");
    assert!(!session.flags.braille_stale);
    assert!(session.flags.speech_stale);
    session.commit(Setting::BrailleDisplay(BrailleDisplay::ASCIIBraille));
    assert!(session.flags.braille_stale);
    session.store_braille(Ok("\u{283C}\u{2802}\u{28F2}".to_string()));
    assert_eq!(session.braille_text, "#1<span style='font-weight:bold'>4</span>");
    assert!(!session.flags.braille_stale);
}

#[test]
fn what_is_not_braille_is_stored_as_it_is() {
    let mut session = Session::new();
    session.preferences.braille_display = BrailleDisplay::ASCIIBraille;
    session.store_braille(Err("no braille rules".to_string()));
    assert_eq!(session.braille_text, "no braille rules");
    assert!(!session.flags.braille_stale);
    session.store_braille(Ok("\u{2801} b".to_string()));
    assert_eq!(session.braille_text, "\u{2801} b");
}

#[test]
fn a_move_sets_focus_and_speech_and_marks_braille() {
    let mut session = with_expression();
    session.accept_move("x squared".to_string(), "id-7".to_string());
    assert_eq!(session.focused_node_id, "id-7");
    assert_eq!(session.speech_text, "x squared");
    assert_eq!(
        session.flags,
        Flags { speech_stale: false, braille_stale: true, should_speak_now: true }
    );
    assert_eq!(session.braille_text, "\u{282D}");
    assert_eq!(session.canonical_markup, Some("<math><mi>x</mi></math>".to_string()));
}

#[test]
fn a_viewer_begins_where_the_engine_is_ready() {
    let mut expected = Session::new();
    expected.preferences.braille_code = BrailleCode::UEB;
    assert_eq!(Session::begin(Ok(()), "braille_code=UEB;foo"), Ok(expected));
    assert_eq!(Session::begin(Ok(()), ""), Ok(Session::new()));
}

#[test]
fn a_viewer_does_not_begin_where_the_engine_is_not_ready() {
    assert_eq!(
        Session::begin(Err("Unable to find MathCAT Rules directory".to_string()), "braille_code=UEB"),
        Err("Unable to find MathCAT Rules directory".to_string())
    );
}
