use math_session::preferences::{
    all_keys, all_settings, BrailleCode, BrailleDisplay, BrailleHighlight, NavigationMode,
    PreferenceKey, Preferences, Setting, SpeechStyle, TextToSpeech, Verbosity,
};

const DEFAULT_TEXT: &str = "navigation_mode=Enhanced;navigation_verbosity=Medium;speech_style=ClearSpeak;speech_verbosity=Medium;text_to_speech=Off;braille_code=Nemeth;braille_display=Dots;braille_nav_highlight=EndPoints;";

fn every_preferences() -> Vec<Preferences> {
    let mut all = Vec::new();
    for mode in [NavigationMode::Enhanced, NavigationMode::Simple, NavigationMode::Character] {
        for nav in [Verbosity::Terse, Verbosity::Medium, Verbosity::Verbose] {
            for style in [SpeechStyle::ClearSpeak, SpeechStyle::SimpleSpeak] {
                for speech in [Verbosity::Terse, Verbosity::Medium, Verbosity::Verbose] {
                    for tts in [TextToSpeech::Off, TextToSpeech::Plain, TextToSpeech::SSML] {
                        for code in [BrailleCode::Nemeth, BrailleCode::UEB] {
                            for display in [BrailleDisplay::Dots, BrailleDisplay::ASCIIBraille] {
                                for highlight in [
                                    BrailleHighlight::Off,
                                    BrailleHighlight::FirstChar,
                                    BrailleHighlight::EndPoints,
                                    BrailleHighlight::All,
                                ] {
                                    all.push(Preferences {
                                        navigation_mode: mode,
                                        navigation_verbosity: nav,
                                        speech_style: style,
                                        speech_verbosity: speech,
                                        text_to_speech: tts,
                                        braille_code: code,
                                        braille_display: display,
                                        braille_nav_highlight: highlight,
                                    });
                                }
                            }
                        }
                    }
                }
            }
        }
    }
    all
}

#[test]
fn every_preference_has_a_value_from_the_start() {
    let p = Preferences::new();
    assert_eq!(p, Preferences::default());
    assert_eq!(p.get("navigation_mode"), Some("Enhanced".to_string()));
    assert_eq!(p.get("navigation_verbosity"), Some("Medium".to_string()));
    assert_eq!(p.get("speech_style"), Some("ClearSpeak".to_string()));
    assert_eq!(p.get("speech_verbosity"), Some("Medium".to_string()));
    assert_eq!(p.get("text_to_speech"), Some("Off".to_string()));
    assert_eq!(p.get("braille_code"), Some("Nemeth".to_string()));
    assert_eq!(p.get("braille_display"), Some("Dots".to_string()));
    assert_eq!(p.get("braille_nav_highlight"), Some("EndPoints".to_string()));
}

#[test]
fn an_unknown_key_has_no_value() {
    let p = Preferences::new();
    assert_eq!(p.get("bar"), None);
    assert_eq!(p.get(""), None);
    assert_eq!(p.get("Speech_Style"), None);
    assert_eq!(p.get("speech_style "), None);
}

#[test]
fn set_puts_a_known_value_in_place() {
    let mut p = Preferences::new();
    assert!(p.set("speech_style", "SimpleSpeak"));
    assert_eq!(p.speech_style, SpeechStyle::SimpleSpeak);
    assert_eq!(p.get("speech_style"), Some("SimpleSpeak".to_string()));
    assert!(p.set("braille_display", "ASCIIBraille"));
    assert_eq!(p.braille_display, BrailleDisplay::ASCIIBraille);
    assert!(p.set("braille_nav_highlight", "All"));
    assert_eq!(p.braille_nav_highlight, BrailleHighlight::All);
    assert!(p.set("text_to_speech", "SSML"));
    assert_eq!(p.text_to_speech, TextToSpeech::SSML);
    assert!(p.set("navigation_verbosity", "Verbose"));
    assert_eq!(p.navigation_verbosity, Verbosity::Verbose);
    assert_eq!(p.speech_verbosity, Verbosity::Medium);
}

#[test]
fn set_says_whether_the_value_changed() {
    let mut p = Preferences::new();
    assert!(!p.set("speech_style", "ClearSpeak"));
    assert!(p.set("speech_style", "SimpleSpeak"));
    assert!(!p.set("speech_style", "SimpleSpeak"));
    assert!(p.set("speech_style", "ClearSpeak"));
    assert_eq!(p, Preferences::new());
}

#[test]
fn set_of_an_unknown_key_or_value_is_a_no_op() {
    let mut p = Preferences::new();
    assert!(!p.set("bar", "baz"));
    assert!(!p.set("speech_style", "Loud"));
    assert!(!p.set("speech_style", "Nemeth"));
    assert!(!p.set("braille_code", "ClearSpeak"));
    assert!(!p.set("speech_style", "simplespeak"));
    assert!(!p.set("speech_style", ""));
    assert!(!p.set("", "SimpleSpeak"));
    assert!(!p.set("text_to_speech", "All"));
    assert_eq!(p, Preferences::new());
}

#[test]
fn every_setting_is_found_by_its_names() {
    let settings = all_settings();
    assert_eq!(settings.len(), 22);
    for setting in settings {
        assert_eq!(Setting::parse(setting.key().name(), setting.value_name()), Some(setting));
        let mut p = Preferences::new();
        p.set(setting.key().name(), setting.value_name());
        assert_eq!(p.setting(setting.key()), setting);
        assert_eq!(p.get(setting.key().name()), Some(setting.value_name().to_string()));
    }
}

#[test]
fn every_key_is_found_by_its_name() {
    let keys = all_keys();
    assert_eq!(keys.len(), 8);
    for key in keys {
        assert_eq!(PreferenceKey::parse(key.name()), Some(key));
    }
    assert_eq!(PreferenceKey::parse("braille_display_as"), None);
}

#[test]
fn serialize_writes_every_key_in_order() {
    assert_eq!(Preferences::new().serialize(), DEFAULT_TEXT);
    let p = Preferences {
        navigation_mode: NavigationMode::Character,
        navigation_verbosity: Verbosity::Terse,
        speech_style: SpeechStyle::SimpleSpeak,
        speech_verbosity: Verbosity::Verbose,
        text_to_speech: TextToSpeech::SSML,
        braille_code: BrailleCode::UEB,
        braille_display: BrailleDisplay::ASCIIBraille,
        braille_nav_highlight: BrailleHighlight::FirstChar,
    };
    assert_eq!(
        p.serialize(),
        "navigation_mode=Character;navigation_verbosity=Terse;speech_style=SimpleSpeak;speech_verbosity=Verbose;text_to_speech=SSML;braille_code=UEB;braille_display=ASCIIBraille;braille_nav_highlight=FirstChar;"
    );
}

#[test]
fn load_of_serialize_gives_the_same_preferences() {
    let all = every_preferences();
    assert_eq!(all.len(), 2592);
    for (i, p) in all.iter().enumerate() {
        let mut q = all[(i * 7 + 3) % all.len()];
        q.load(&p.serialize());
        assert_eq!(q, *p);
    }
}

#[test]
fn load_passes_over_malformed_and_unknown_entries() {
    let mut p = Preferences::new();
    p.load("foo;bar=baz");
    assert_eq!(p, Preferences::new());
    p.load("foo;bar=baz;speech_style=SimpleSpeak;=;;==;speech_verbosity");
    let mut expected = Preferences::new();
    expected.speech_style = SpeechStyle::SimpleSpeak;
    assert_eq!(p, expected);
}

#[test]
fn load_passes_over_values_outside_the_domain() {
    let mut p = Preferences::new();
    p.load("braille_code=Morse;braille_display=ASCIIBraille;text_to_speech=Loud");
    let mut expected = Preferences::new();
    expected.braille_display = BrailleDisplay::ASCIIBraille;
    assert_eq!(p, expected);
}

#[test]
fn load_of_nothing_changes_nothing() {
    let mut p = Preferences::new();
    p.speech_style = SpeechStyle::SimpleSpeak;
    let before = p;
    p.load("");
    assert_eq!(p, before);
    p.load(";;;");
    assert_eq!(p, before);
}

#[test]
fn load_splits_an_entry_at_its_first_equals_sign() {
    let mut p = Preferences::new();
    p.load("speech_style=SimpleSpeak=ClearSpeak");
    assert_eq!(p, Preferences::new());
    p.load("speech_style==SimpleSpeak");
    assert_eq!(p, Preferences::new());
}

#[test]
fn load_takes_white_space_off_keys_and_values() {
    let mut p = Preferences::new();
    p.load(" speech_style = SimpleSpeak ; braille_code=UEB;\tbraille_display\t=\tASCIIBraille\n");
    let mut expected = Preferences::new();
    expected.speech_style = SpeechStyle::SimpleSpeak;
    expected.braille_code = BrailleCode::UEB;
    expected.braille_display = BrailleDisplay::ASCIIBraille;
    assert_eq!(p, expected);
    p.load("speech _style=ClearSpeak");
    assert_eq!(p, expected);
}

#[test]
fn a_later_entry_wins_over_an_earlier_one() {
    let mut p = Preferences::new();
    p.load("braille_code=UEB;braille_code=Nemeth;braille_code=UEB;braille_code=Braille");
    assert_eq!(p.braille_code, BrailleCode::UEB);
    p.load("braille_code=UEB;braille_code=Nemeth");
    assert_eq!(p.braille_code, BrailleCode::Nemeth);
}

#[test]
fn apply_changes_one_preference() {
    let mut p = Preferences::new();
    assert!(p.apply(Setting::NavigationMode(NavigationMode::Simple)));
    assert!(!p.apply(Setting::NavigationMode(NavigationMode::Simple)));
    let mut expected = Preferences::new();
    expected.navigation_mode = NavigationMode::Simple;
    assert_eq!(p, expected);
    assert_eq!(
        p.setting(PreferenceKey::NavigationMode),
        Setting::NavigationMode(NavigationMode::Simple)
    );
    assert_eq!(
        p.setting(PreferenceKey::SpeechVerbosity),
        Setting::SpeechVerbosity(Verbosity::Medium)
    );
}
