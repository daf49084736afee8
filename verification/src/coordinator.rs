//! The coordinator: the functions that a viewer calls for each of its
//! events. Each one asks the engine what it needs and hands the answers to
//! the transitions of the session, so that after every event the derived
//! texts are recomputed where they were stale, and nowhere else.
//!
//! What the engine answers is not known here. The contracts therefore say
//! that the session ends as the transitions give it for some answers, and
//! what holds for every answer.

use crate::engine::{
    engine_braille, engine_error_text, engine_focus, engine_navigate, engine_register,
    engine_set_preference, engine_speech, engine_start, engine_version,
};
use crate::navigation::{
    action_for, apply_navigation, arrival, classify_key, focus_cleared, passed_through, KeyAction,
    KeyEffect, KeyEvent, KeyResponse, NavOutcome, NavigationMove, NAVIGATION_REJECTED_MESSAGE,
};
use crate::notation::{
    detect, ensure_block_display, finish_registration, markup_of, NoMatch, Notation,
};
use crate::preferences::{PreferenceKey, Preferences, Setting, TextToSpeech};
use crate::session::{answer_of, PreferenceOutcome, Session, SessionView};
use crate::text::{append_str, chars_of, is_space, string_of, trimmed_end};
use vstd::prelude::*;

verus! {

/// What the header of the viewer says before the engine's version.
pub const HEADER_OPEN: &'static str = "MathCAT Demo (using v";

/// What the header of the viewer says behind the engine's version.
pub const HEADER_CLOSE: &'static str = ")";

/// The header of a viewer whose engine has this version.
pub open spec fn header_for(version: Seq<char>) -> Seq<char> {
    HEADER_OPEN@ + version + HEADER_CLOSE@
}

/// The header of the viewer: its name, and the version of the engine that
/// it uses.
pub fn get_header() -> (r: String)
    ensures
        exists|version: Seq<char>| r@ == header_for(version),
{
    let version = engine_version();
    let mut header = chars_of(HEADER_OPEN);
    append_str(&mut header, version.as_str());
    append_str(&mut header, HEADER_CLOSE);
    assert(header@ == header_for(version@));
    string_of(&header)
}

/// The name and the value under which the engine knows a setting. How
/// braille is shown is the viewer's own business and has no such name; that
/// speech output is off or plain is `None` to the engine.
pub open spec fn engine_preference_of(s: Setting) -> Option<(Seq<char>, Seq<char>)> {
    match s {
        Setting::NavigationMode(_) => Some(("NavMode"@, s.value_name_of())),
        Setting::NavigationVerbosity(_) => Some(("NavVerbosity"@, s.value_name_of())),
        Setting::SpeechStyle(_) => Some(("SpeechStyle"@, s.value_name_of())),
        Setting::SpeechVerbosity(_) => Some(("Verbosity"@, s.value_name_of())),
        Setting::TextToSpeech(TextToSpeech::SSML) => Some(("TTS"@, "SSML"@)),
        Setting::TextToSpeech(_) => Some(("TTS"@, "None"@)),
        Setting::BrailleCode(_) => Some(("BrailleCode"@, s.value_name_of())),
        Setting::BrailleDisplay(_) => None,
        Setting::BrailleNavHighlight(_) => Some(("BrailleNavHighlight"@, s.value_name_of())),
    }
}

/// The name and the value under which the engine knows a setting.
pub fn engine_preference(s: Setting) -> (r: Option<(&'static str, &'static str)>)
    ensures
        (match engine_preference_of(s) {
            Some((name, value)) => r matches Some(pair) && pair.0@ == name && pair.1@ == value,
            None => r is None,
        }),
{
    match s {
        Setting::NavigationMode(_) => Some(("NavMode", s.value_name())),
        Setting::NavigationVerbosity(_) => Some(("NavVerbosity", s.value_name())),
        Setting::SpeechStyle(_) => Some(("SpeechStyle", s.value_name())),
        Setting::SpeechVerbosity(_) => Some(("Verbosity", s.value_name())),
        Setting::TextToSpeech(TextToSpeech::SSML) => Some(("TTS", "SSML")),
        Setting::TextToSpeech(_) => Some(("TTS", "None")),
        Setting::BrailleCode(_) => Some(("BrailleCode", s.value_name())),
        Setting::BrailleDisplay(_) => None,
        Setting::BrailleNavHighlight(_) => Some(("BrailleNavHighlight", s.value_name())),
    }
}

/// An answer of the engine with its error put into words.
fn described<T>(answer: Result<T, libmathcat::errors::Error>) -> (r: Result<T, String>)
    ensures
        answer matches Ok(value) ==> r == Ok::<T, String>(value),
        answer is Err ==> r is Err,
{
    match answer {
        Ok(value) => Ok(value),
        Err(error) => Err(engine_error_text(&error)),
    }
}

/// Offers a setting to the engine. A setting that the engine does not know
/// of is agreed to without asking.
fn offer(s: Setting) -> (answer: Result<(), String>)
    ensures
        engine_preference_of(s) is None ==> answer is Ok,
{
    match engine_preference(s) {
        Some((name, value)) => described(engine_set_preference(name, value)),
        None => Ok(()),
    }
}

/// Hands the engine the preferences that the spoken text depends on. What
/// the engine refuses it keeps as it had it.
fn push_speech_preferences(preferences: &Preferences) {
    let _ = offer(preferences.setting(PreferenceKey::SpeechStyle));
    let _ = offer(preferences.setting(PreferenceKey::SpeechVerbosity));
    let _ = offer(preferences.setting(PreferenceKey::TextToSpeech));
}

/// Hands the engine the preferences that the braille text depends on.
fn push_braille_preferences(preferences: &Preferences) {
    let _ = offer(preferences.setting(PreferenceKey::BrailleCode));
    let _ = offer(preferences.setting(PreferenceKey::BrailleNavHighlight));
}

/// Normalizes markup: puts the block attribute on its root element, has the
/// engine register it, and takes the trailing white space off what the
/// engine hands back. Canonical markup therefore never ends in a line break.
/// Markup that the engine refuses gives `NoMatch`.
pub fn normalize(markup: &str) -> (r: Result<String, NoMatch>)
    ensures
        r matches Ok(canonical) ==> exists|registered: Seq<char>|
            canonical@ == trimmed_end(registered),
        r matches Ok(canonical) ==> canonical@.len() > 0 ==> !is_space(canonical@.last())
            && canonical@.last() != '\n',
{
    let prepared = ensure_block_display(markup);
    let answer = described(engine_register(prepared.as_str()));
    finish_registration(answer)
}

/// Detects the notation of a submitted text and normalizes it: the text is
/// cleaned and classified, text in a notation is handed to `convert`, and
/// the markup is normalized. `convert` is called at most once, and not at
/// all for text that is markup already.
pub fn detect_and_normalize<F: FnOnce(Notation, String) -> String>(raw: &str, convert: F) -> (r:
    Result<String, NoMatch>)
    requires
        forall|notation: Notation, text: String| call_requires(convert, (notation, text)),
    ensures
        r matches Ok(canonical) ==> exists|registered: Seq<char>|
            canonical@ == trimmed_end(registered),
        r matches Ok(canonical) ==> canonical@.len() > 0 ==> !is_space(canonical@.last())
            && canonical@.last() != '\n',
{
    let markup = markup_of(detect(raw), convert);
    normalize(markup.as_str())
}

/// Starts a viewer: makes the engine ready with the rules under
/// `rules_dir`, restores the preferences from their kept text and hands the
/// engine those of navigation, which no regeneration pass hands over. Where
/// the engine cannot be made ready there is no session, and the error says
/// why.
pub fn create(rules_dir: &str, persisted: &str) -> (r: Result<Session, String>)
    ensures
        r matches Ok(session) ==> session@ == SessionView::started(persisted@),
{
    match Session::begin(described(engine_start(rules_dir)), persisted) {
        Err(detail) => Err(detail),
        Ok(session) => {
            let _ = offer(session.preferences.setting(PreferenceKey::NavigationMode));
            let _ = offer(session.preferences.setting(PreferenceKey::NavigationVerbosity));
            Ok(session)
        },
    }
}

/// Whether a request to set the preference named `key` to the value named
/// `value` can lead from `before` to `after` with this outcome. Names that
/// name no setting change nothing, and neither does a setting that is in
/// place already. A new setting is either put in place, which marks what
/// depends on it, or refused by the engine, which changes nothing; the
/// engine is asked only about what it knows of.
pub open spec fn preference_settled(
    before: SessionView,
    key: Seq<char>,
    value: Seq<char>,
    outcome: PreferenceOutcome,
    after: SessionView,
) -> bool {
    match Setting::named(key, value) {
        None => outcome is Unknown && after == before,
        Some(s) => if before.preferences.setting_of(s.key_of()) == s {
            outcome is Unchanged && after == before
        } else {
            ||| outcome is Applied && after == before.after_setting(s)
            ||| outcome is Rejected && after == before && engine_preference_of(s) is Some
        },
    }
}

/// Whether a key press can lead from `before` to `after` with this
/// response. The escape key gives up the focus and a key that is none of
/// navigation's passes through, both without touching the session. A
/// navigation key is taken and its default suppressed: either navigation
/// moved, the move is in the session and its node has to be highlighted, or
/// the engine rejected the key, which is announced and changes nothing.
pub open spec fn key_handled(
    before: SessionView,
    key: Seq<char>,
    code: u32,
    response: KeyResponse,
    after: SessionView,
) -> bool {
    match action_for(key, code) {
        KeyAction::ClearFocus => {
            &&& after == before
            &&& response.outcome == NavOutcome::Consumed
            &&& !response.suppress_default
            &&& response.effect is ClearFocus
        },
        KeyAction::PassThrough => {
            &&& after == before
            &&& response.outcome == NavOutcome::Ignored
            &&& !response.suppress_default
            &&& response.effect is Nothing
        },
        KeyAction::Navigate => {
            &&& response.outcome == NavOutcome::Consumed
            &&& response.suppress_default
            &&& {
                ||| response.effect matches KeyEffect::Highlight(id) && exists|speech: Seq<char>|
                    after == before.after_move(speech, id@)
                ||| response.effect matches KeyEffect::Announce(message) && message@
                    == NAVIGATION_REJECTED_MESSAGE@ && after == before
            }
        },
    }
}

/// Sets the preference named `key` to the value named `value`. Names that
/// name no setting, and a setting that is in place already, change nothing
/// and are not offered to the engine. A new setting is offered to the
/// engine: where the engine agrees it is put in place and what depends on it
/// is marked stale, and where the engine refuses the session stays as it is.
pub fn change_preference(session: &mut Session, key: &str, value: &str) -> (r: PreferenceOutcome)
    ensures
        preference_settled(old(session)@, key@, value@, r, final(session)@),
{
    match Setting::parse(key, value) {
        None => PreferenceOutcome::Unknown,
        Some(s) => {
            if session.preferences.setting(s.key()) == s {
                PreferenceOutcome::Unchanged
            } else {
                let answer = offer(s);
                session.settle(s, answer)
            }
        },
    }
}

/// What an optional text says.
pub open spec fn spoken_of(spoken: Option<String>) -> Option<Seq<char>> {
    match spoken {
        Some(text) => Some(text@),
        None => None,
    }
}

/// Runs a regeneration pass and hands back the text that has to be given to
/// speech output, if any. Without canonical markup the pass does nothing.
/// With it, the engine is asked for speech only where the spoken text is
/// stale and for braille only where the braille text is stale; afterwards
/// nothing is stale and nothing is due to be spoken.
pub fn regenerate(session: &mut Session) -> (spoken: Option<String>)
    ensures
        exists|speech: Result<Seq<char>, Seq<char>>, braille: Result<Seq<char>, Seq<char>>|
            final(session)@ == old(session)@.regenerated(speech, braille) && spoken_of(spoken)
                == old(session)@.vocalized_by_pass(speech),
        old(session)@.canonical_markup is None ==> final(session)@ == old(session)@ && spoken
            is None,
        old(session)@.canonical_markup is Some ==> final(session)@.is_clean(),
        old(session)@.canonical_markup is Some ==> !final(session)@.flags.should_speak_now,
{
    let ghost nothing: Result<Seq<char>, Seq<char>> = Ok(Seq::empty());
    if session.canonical_markup.is_none() {
        assert(session@ == old(session)@.regenerated(nothing, nothing) && spoken_of(None)
            == old(session)@.vocalized_by_pass(nothing));
        return None;
    }
    let ghost mut speech = nothing;
    if session.flags.speech_stale {
        push_speech_preferences(&session.preferences);
        let answer = described(engine_speech());
        proof {
            speech = answer_of(answer);
        }
        session.store_speech(answer);
    }
    let spoken = session.take_vocalization();
    let ghost mut braille = nothing;
    if session.flags.braille_stale {
        push_braille_preferences(&session.preferences);
        let answer = described(engine_braille(session.focused_node_id.as_str()));
        proof {
            braille = answer_of(answer);
        }
        session.store_braille(answer);
    }
    assert(session@ == old(session)@.regenerated(speech, braille) && spoken_of(spoken)
        == old(session)@.vocalized_by_pass(speech));
    spoken
}

/// The speech of a move; empty where there was none.
spec fn arrival_speech(answer: Result<NavigationMove, String>) -> Seq<char> {
    match answer {
        Ok(arrived) => arrived.speech@,
        Err(_) => Seq::empty(),
    }
}

/// Asks the engine's navigation to act on a key, and where it moved, asks
/// where it arrived.
fn navigate(event: &KeyEvent) -> (r: Result<NavigationMove, String>) {
    match described(
        engine_navigate(event.key_code as usize, event.shift, event.ctrl, event.alt, event.meta),
    ) {
        Err(detail) => Err(detail),
        Ok(speech) => arrival(speech, described(engine_focus())),
    }
}

/// Handles a key press on the rendered expression. The escape key gives up
/// the focus and a key that is none of navigation's passes through, both
/// without touching the session and without asking the engine. A navigation
/// key is handed to the engine: a move is taken into the session and its
/// node has to be highlighted, a rejection is announced and changes nothing.
pub fn handle_key(session: &mut Session, event: &KeyEvent) -> (r: KeyResponse)
    ensures
        key_handled(old(session)@, event.key@, event.key_code, r, final(session)@),
{
    match classify_key(event) {
        KeyAction::ClearFocus => focus_cleared(),
        KeyAction::PassThrough => passed_through(),
        KeyAction::Navigate => {
            let answer = navigate(event);
            let ghost speech = arrival_speech(answer);
            let r = apply_navigation(session, answer);
            assert(r.effect matches KeyEffect::Highlight(id) ==> session@ == old(
                session,
            )@.after_move(speech, id@));
            r
        },
    }
}

/// An event of the viewer.
#[derive(Clone, Debug, PartialEq, Eq)]
pub enum Command {
    /// The text `raw` was submitted, and `markup` is its markup: what
    /// conversion made of it, or the text itself where it is markup already.
    Markup { raw: String, markup: String },
    /// The preference named `key` is to be set to the value named `value`.
    Preference { key: String, value: String },
    /// A key was pressed on the rendered expression.
    Key(KeyEvent),
}

/// What the viewer has to do about an event itself.
#[derive(Clone, Debug, PartialEq, Eq)]
pub enum Reaction {
    /// Show this canonical markup, typeset.
    Typeset(String),
    /// Show the message for input that is not recognized.
    Unrecognized,
    /// Nothing but what the outcome may ask for.
    Preference(PreferenceOutcome),
    /// What the response asks for.
    Key(KeyResponse),
}

/// What became of an event.
#[derive(Clone, Debug, PartialEq, Eq)]
pub struct Update {
    /// What the viewer has to do about the event itself.
    pub reaction: Reaction,
    /// The text that has to be handed to speech output, if any.
    pub speak: Option<String>,
}

/// Whether an event can lead from `before` to `after` with this reaction,
/// before the regeneration pass that follows it.
pub open spec fn triggered(
    before: SessionView,
    command: Command,
    reaction: Reaction,
    after: SessionView,
) -> bool {
    match command {
        Command::Markup { raw, markup } => match reaction {
            Reaction::Typeset(canonical) => after == before.after_input(raw@, Ok(canonical@)),
            Reaction::Unrecognized => after == before,
            _ => false,
        },
        Command::Preference { key, value } => reaction matches Reaction::Preference(outcome)
            && preference_settled(before, key@, value@, outcome, after),
        Command::Key(event) => reaction matches Reaction::Key(response) && key_handled(
            before,
            event.key@,
            event.key_code,
            response,
            after,
        ),
    }
}

/// Handles one event to its end: what the event itself does to the session,
/// and then a regeneration pass. Afterwards, where there is an expression,
/// nothing is stale and nothing is due to be spoken.
pub fn update(session: &mut Session, command: Command) -> (r: Update)
    ensures
        exists|
            after: SessionView,
            speech: Result<Seq<char>, Seq<char>>,
            braille: Result<Seq<char>, Seq<char>>,
        |
            triggered(old(session)@, command, r.reaction, after) && final(session)@
                == after.regenerated(speech, braille) && spoken_of(r.speak)
                == after.vocalized_by_pass(speech),
        final(session)@.canonical_markup is Some ==> final(session)@.is_clean(),
        final(session)@.canonical_markup is Some ==> !final(session)@.flags.should_speak_now,
{
    let reaction = match &command {
        Command::Markup { raw, markup } => {
            match normalize(markup.as_str()) {
                Ok(canonical) => {
                    let shown = canonical.clone();
                    session.accept_input(raw.as_str(), Ok(canonical));
                    Reaction::Typeset(shown)
                },
                Err(_) => Reaction::Unrecognized,
            }
        },
        Command::Preference { key, value } => Reaction::Preference(
            change_preference(session, key.as_str(), value.as_str()),
        ),
        Command::Key(event) => Reaction::Key(handle_key(session, event)),
    };
    let ghost after = session@;
    assert(triggered(old(session)@, command, reaction, after));
    let speak = regenerate(session);
    Update { reaction, speak }
}

} // verus!
