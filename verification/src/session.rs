//! The session and its transitions: what each trigger does to the state, and
//! what a regeneration pass does with the engine's answers.
//!
//! Every function here takes what the engine answered as an argument, so
//! that each is stated for every answer there can be.

use crate::braille::{ascii_of, is_braille, is_braille_text, to_ascii};
use crate::notation::NoMatch;
use crate::preferences::{
    BrailleCode, BrailleDisplay, BrailleHighlight, PreferenceKey, Preferences, Setting,
    SpeechStyle, TextToSpeech, Verbosity,
};
use vstd::prelude::*;

verus! {

/// What has to be done before the derived texts can be read again.
#[derive(Clone, Copy, Debug, PartialEq, Eq, Structural)]
pub struct Flags {
    /// The spoken text does not reflect the state.
    pub speech_stale: bool,
    /// The braille text does not reflect the state.
    pub braille_stale: bool,
    /// The spoken text has to be vocalized by the next regeneration pass.
    pub should_speak_now: bool,
}

/// The state of one viewer.
#[derive(Clone, Debug, PartialEq, Eq)]
pub struct Session {
    /// The text that was submitted last and recognized.
    pub raw_input: String,
    /// The canonical markup of the current expression, once there is one.
    pub canonical_markup: Option<String>,
    /// The structural id that navigation is at; empty where it is nowhere.
    pub focused_node_id: String,
    /// The spoken text that was computed last.
    pub speech_text: String,
    /// The braille text that was computed last.
    pub braille_text: String,
    /// What is stale.
    pub flags: Flags,
    /// The preferences.
    pub preferences: Preferences,
}

/// The mathematical value of a `Session`: the same fields, each text as
/// the sequence of its characters.
pub struct SessionView {
    /// The text that was submitted last and recognized.
    pub raw_input: Seq<char>,
    /// The canonical markup of the current expression, once there is one.
    pub canonical_markup: Option<Seq<char>>,
    /// The structural id that navigation is at; empty where it is nowhere.
    pub focused_node_id: Seq<char>,
    /// The spoken text that was computed last.
    pub speech_text: Seq<char>,
    /// The braille text that was computed last.
    pub braille_text: Seq<char>,
    /// What is stale.
    pub flags: Flags,
    /// The preferences.
    pub preferences: Preferences,
}

impl View for Session {
    type V = SessionView;

    open spec fn view(&self) -> SessionView {
        SessionView {
            raw_input: self.raw_input@,
            canonical_markup: match self.canonical_markup {
                Some(markup) => Some(markup@),
                None => None,
            },
            focused_node_id: self.focused_node_id@,
            speech_text: self.speech_text@,
            braille_text: self.braille_text@,
            flags: self.flags,
            preferences: self.preferences,
        }
    }
}

/// What became of a request to set a preference.
#[derive(Clone, Debug, PartialEq, Eq)]
pub enum PreferenceOutcome {
    /// The setting is in place, and what depends on it is stale.
    Applied,
    /// The setting was in place already.
    Unchanged,
    /// The key names no preference, or the value is none of its values.
    Unknown,
    /// The engine refused the value, in these words; the value from before
    /// stays.
    Rejected(String),
}

/// What the engine said to a preference that was offered to it.
pub open spec fn verdict_of(answer: Result<(), String>) -> Result<(), Seq<char>> {
    match answer {
        Ok(_) => Ok(()),
        Err(detail) => Err(detail@),
    }
}

/// What an answer of the engine says: its text, or its words of refusal.
pub open spec fn answer_of(answer: Result<String, String>) -> Result<Seq<char>, Seq<char>> {
    match answer {
        Ok(text) => Ok(text@),
        Err(detail) => Err(detail@),
    }
}

/// What the outcome of normalization says: canonical markup, or the words
/// of the refusal.
pub open spec fn outcome_of(outcome: Result<String, NoMatch>) -> Result<Seq<char>, Seq<char>> {
    match outcome {
        Ok(markup) => Ok(markup@),
        Err(refusal) => Err(refusal.detail@),
    }
}

/// The text that stands for an answer: what the engine produced, or, where
/// it refused, what it said.
pub open spec fn text_of(answer: Result<Seq<char>, Seq<char>>) -> Seq<char> {
    match answer {
        Ok(text) => text,
        Err(detail) => detail,
    }
}

/// The braille that is shown for an answer. Braille cells are shown as ASCII
/// braille where the display asks for it; anything else is shown as it is.
pub open spec fn shown_braille(
    answer: Result<Seq<char>, Seq<char>>,
    display: BrailleDisplay,
) -> Seq<char> {
    match answer {
        Ok(text) => if display == BrailleDisplay::ASCIIBraille && is_braille(text) {
            ascii_of(text)
        } else {
            text
        },
        Err(detail) => detail,
    }
}

/// Whether the spoken text depends on the preference.
pub open spec fn affects_speech(key: PreferenceKey) -> bool {
    key == PreferenceKey::SpeechStyle || key == PreferenceKey::SpeechVerbosity || key
        == PreferenceKey::TextToSpeech
}

/// Whether the braille text depends on the preference.
pub open spec fn affects_braille(key: PreferenceKey) -> bool {
    key == PreferenceKey::BrailleCode || key == PreferenceKey::BrailleDisplay || key
        == PreferenceKey::BrailleNavHighlight
}

impl SessionView {
    /// The session that a viewer starts with: nothing entered, nothing
    /// stale, the default preferences.
    pub open spec fn initial() -> SessionView {
        SessionView {
            raw_input: Seq::empty(),
            canonical_markup: None,
            focused_node_id: Seq::empty(),
            speech_text: Seq::empty(),
            braille_text: Seq::empty(),
            flags: Flags { speech_stale: false, braille_stale: false, should_speak_now: false },
            preferences: Preferences::defaults(),
        }
    }

    /// The session that a viewer starts with when `persisted` is the kept
    /// text of its preferences.
    pub open spec fn started(persisted: Seq<char>) -> SessionView {
        SessionView { preferences: Preferences::defaults().loaded(persisted), ..Self::initial() }
    }

    /// What the spoken text of the expression is computed from: the
    /// expression and the speech preferences.
    pub open spec fn speech_basis(self) -> (
        Option<Seq<char>>,
        SpeechStyle,
        Verbosity,
        TextToSpeech,
    ) {
        (
            self.canonical_markup,
            self.preferences.speech_style,
            self.preferences.speech_verbosity,
            self.preferences.text_to_speech,
        )
    }

    /// What the braille text is computed from: the expression, the focused
    /// node and the braille preferences.
    pub open spec fn braille_basis(self) -> (
        Option<Seq<char>>,
        Seq<char>,
        BrailleCode,
        BrailleDisplay,
        BrailleHighlight,
    ) {
        (
            self.canonical_markup,
            self.focused_node_id,
            self.preferences.braille_code,
            self.preferences.braille_display,
            self.preferences.braille_nav_highlight,
        )
    }

    /// Whether both derived texts reflect the state.
    pub open spec fn is_clean(self) -> bool {
        !self.flags.speech_stale && !self.flags.braille_stale
    }

    /// The session after a text was submitted. Recognized input becomes the
    /// current expression, with no node focused, and makes both derived texts
    /// stale and due to be spoken; input that was not recognized changes
    /// nothing.
    pub open spec fn after_input(
        self,
        raw: Seq<char>,
        outcome: Result<Seq<char>, Seq<char>>,
    ) -> SessionView {
        match outcome {
            Ok(markup) => SessionView {
                raw_input: raw,
                canonical_markup: Some(markup),
                focused_node_id: Seq::empty(),
                flags: Flags { speech_stale: true, braille_stale: true, should_speak_now: true },
                ..self
            },
            Err(_) => self,
        }
    }

    /// The session after a preference was set. A setting that is in place
    /// already changes nothing; a new one is put in place and makes stale
    /// the text that depends on its preference, and no other.
    pub open spec fn after_setting(self, s: Setting) -> SessionView {
        if self.preferences.setting_of(s.key_of()) == s {
            self
        } else {
            SessionView {
                preferences: self.preferences.with(s),
                flags: Flags {
                    speech_stale: self.flags.speech_stale || affects_speech(s.key_of()),
                    braille_stale: self.flags.braille_stale || affects_braille(s.key_of()),
                    should_speak_now: self.flags.should_speak_now,
                },
                ..self
            }
        }
    }

    /// The session after the engine answered a preference that was offered
    /// to it: where it refused, the value from before stays.
    pub open spec fn after_offer(self, s: Setting, answer: Result<(), Seq<char>>) -> SessionView {
        match answer {
            Ok(_) => self.after_setting(s),
            Err(_) => self,
        }
    }

    /// The session after navigation moved: the move's speech is the spoken
    /// text, its node is focused, braille is stale and the speech is due to
    /// be spoken. The flag of the spoken text is not touched.
    pub open spec fn after_move(self, speech: Seq<char>, node_id: Seq<char>) -> SessionView {
        SessionView {
            speech_text: speech,
            focused_node_id: node_id,
            flags: Flags {
                speech_stale: self.flags.speech_stale,
                braille_stale: true,
                should_speak_now: true,
            },
            ..self
        }
    }

    /// The session after the engine's spoken text was stored.
    pub open spec fn after_speech(self, answer: Result<Seq<char>, Seq<char>>) -> SessionView {
        SessionView {
            speech_text: text_of(answer),
            flags: Flags { speech_stale: false, ..self.flags },
            ..self
        }
    }

    /// The text that has to be vocalized now, if any: the spoken text, where
    /// it is due to be spoken and speech output is not off.
    pub open spec fn vocalized(self) -> Option<Seq<char>> {
        if self.flags.should_speak_now && self.preferences.text_to_speech != TextToSpeech::Off {
            Some(self.speech_text)
        } else {
            None
        }
    }

    /// The session after what was due to be spoken was handed out.
    pub open spec fn after_vocalization(self) -> SessionView {
        SessionView { flags: Flags { should_speak_now: false, ..self.flags }, ..self }
    }

    /// The session after the engine's braille was stored.
    pub open spec fn after_braille(self, answer: Result<Seq<char>, Seq<char>>) -> SessionView {
        SessionView {
            braille_text: shown_braille(answer, self.preferences.braille_display),
            flags: Flags { braille_stale: false, ..self.flags },
            ..self
        }
    }

    /// The session as the speech step of a regeneration pass leaves it.
    pub open spec fn with_fresh_speech(self, speech: Result<Seq<char>, Seq<char>>) -> SessionView {
        if self.flags.speech_stale {
            self.after_speech(speech)
        } else {
            self
        }
    }

    /// The session after a regeneration pass in which the engine answered
    /// `speech` and `braille`. Without canonical markup the pass does
    /// nothing. With it, spoken text is stored where it was stale, what is
    /// due to be spoken is handed out, and braille is stored where it was
    /// stale. An answer is read only in the step that asks for it.
    pub open spec fn regenerated(
        self,
        speech: Result<Seq<char>, Seq<char>>,
        braille: Result<Seq<char>, Seq<char>>,
    ) -> SessionView {
        if self.canonical_markup is None {
            self
        } else {
            let spoken = self.with_fresh_speech(speech).after_vocalization();
            if spoken.flags.braille_stale {
                spoken.after_braille(braille)
            } else {
                spoken
            }
        }
    }

    /// The text that a regeneration pass hands to speech output, if any.
    pub open spec fn vocalized_by_pass(self, speech: Result<Seq<char>, Seq<char>>) -> Option<
        Seq<char>,
    > {
        if self.canonical_markup is None {
            None
        } else {
            self.with_fresh_speech(speech).vocalized()
        }
    }
}

/// After a regeneration pass on a session with canonical markup nothing is
/// stale and nothing is due to be spoken, whatever the engine answered; and
/// the pass changes neither the input, the markup, the focus nor the
/// preferences.
pub proof fn lemma_regenerated_is_clean(
    s: SessionView,
    speech: Result<Seq<char>, Seq<char>>,
    braille: Result<Seq<char>, Seq<char>>,
)
    ensures
        s.canonical_markup is Some ==> s.regenerated(speech, braille).is_clean() && !s.regenerated(
            speech,
            braille,
        ).flags.should_speak_now,
        s.canonical_markup is None ==> s.regenerated(speech, braille) == s,
        s.regenerated(speech, braille).raw_input == s.raw_input,
        s.regenerated(speech, braille).canonical_markup == s.canonical_markup,
        s.regenerated(speech, braille).focused_node_id == s.focused_node_id,
        s.regenerated(speech, braille).preferences == s.preferences,
{
}

/// A regeneration pass recomputes only what is stale: a text that is not
/// stale stays as it is, and a second pass right after a first changes
/// nothing and speaks nothing.
pub proof fn lemma_regeneration_recomputes_only_stale(
    s: SessionView,
    speech: Result<Seq<char>, Seq<char>>,
    braille: Result<Seq<char>, Seq<char>>,
    later_speech: Result<Seq<char>, Seq<char>>,
    later_braille: Result<Seq<char>, Seq<char>>,
)
    ensures
        !s.flags.speech_stale ==> s.regenerated(speech, braille).speech_text == s.speech_text,
        !s.flags.braille_stale ==> s.regenerated(speech, braille).braille_text == s.braille_text,
        s.canonical_markup is Some ==> s.regenerated(speech, braille).regenerated(
            later_speech,
            later_braille,
        ) == s.regenerated(speech, braille),
        s.canonical_markup is Some ==> s.regenerated(speech, braille).vocalized_by_pass(
            later_speech,
        ) is None,
{
}

/// A trigger that changes what a derived text is computed from marks that
/// text stale, and no trigger takes a mark away: so a text that is not
/// marked was computed from the state as it is, or set by a move of
/// navigation. A regeneration pass changes nothing that a text is computed
/// from.
pub proof fn lemma_triggers_mark_what_they_change(
    s: SessionView,
    raw: Seq<char>,
    outcome: Result<Seq<char>, Seq<char>>,
    setting: Setting,
    speech: Seq<char>,
    node_id: Seq<char>,
    answers: (Result<Seq<char>, Seq<char>>, Result<Seq<char>, Seq<char>>),
)
    ensures
        ({
            let after = s.after_input(raw, outcome);
            &&& after.speech_basis() != s.speech_basis() ==> after.flags.speech_stale
            &&& after.braille_basis() != s.braille_basis() ==> after.flags.braille_stale
            &&& s.flags.speech_stale ==> after.flags.speech_stale
            &&& s.flags.braille_stale ==> after.flags.braille_stale
        }),
        ({
            let after = s.after_setting(setting);
            &&& after.speech_basis() != s.speech_basis() ==> after.flags.speech_stale
            &&& after.braille_basis() != s.braille_basis() ==> after.flags.braille_stale
            &&& s.flags.speech_stale ==> after.flags.speech_stale
            &&& s.flags.braille_stale ==> after.flags.braille_stale
        }),
        ({
            let after = s.after_move(speech, node_id);
            &&& after.speech_basis() == s.speech_basis()
            &&& after.flags.braille_stale
            &&& s.flags.speech_stale ==> after.flags.speech_stale
        }),
        ({
            let after = s.regenerated(answers.0, answers.1);
            &&& after.speech_basis() == s.speech_basis()
            &&& after.braille_basis() == s.braille_basis()
        }),
{
}

/// The speech of a move is not computed again: where the spoken text was
/// not stale, the regeneration pass after a move keeps the move's speech,
/// hands it to speech output unless that is off, and computes braille anew.
pub proof fn lemma_move_speech_survives_regeneration(
    s: SessionView,
    speech: Seq<char>,
    node_id: Seq<char>,
    later_speech: Result<Seq<char>, Seq<char>>,
    later_braille: Result<Seq<char>, Seq<char>>,
)
    requires
        s.canonical_markup is Some,
        !s.flags.speech_stale,
    ensures
        ({
            let after = s.after_move(speech, node_id).regenerated(later_speech, later_braille);
            &&& after.speech_text == speech
            &&& after.focused_node_id == node_id
            &&& after.braille_text == shown_braille(later_braille, s.preferences.braille_display)
            &&& after.is_clean()
        }),
        s.after_move(speech, node_id).vocalized_by_pass(later_speech) == (if s.preferences.text_to_speech
            != TextToSpeech::Off {
            Some(speech)
        } else {
            None
        }),
{
}

/// Setting a preference marks only the text that depends on it: a speech
/// preference leaves the braille flag as it was, a braille preference leaves
/// the speech flag as it was, a navigation preference leaves both, and none
/// touches what is due to be spoken.
pub proof fn lemma_setting_marks_only_its_text(s: SessionView, setting: Setting)
    ensures
        s.after_setting(setting).flags.should_speak_now == s.flags.should_speak_now,
        !affects_speech(setting.key_of()) ==> s.after_setting(setting).flags.speech_stale
            == s.flags.speech_stale,
        !affects_braille(setting.key_of()) ==> s.after_setting(setting).flags.braille_stale
            == s.flags.braille_stale,
        !(affects_speech(setting.key_of()) && affects_braille(setting.key_of())),
        s.preferences.setting_of(setting.key_of()) != setting && affects_speech(setting.key_of())
            ==> s.after_setting(setting).flags.speech_stale,
        s.preferences.setting_of(setting.key_of()) != setting && affects_braille(setting.key_of())
            ==> s.after_setting(setting).flags.braille_stale,
{
}

impl Session {
    /// The session that a viewer starts with.
    pub fn new() -> (r: Session)
        ensures
            r@ == SessionView::initial(),
    {
        Session {
            raw_input: String::new(),
            canonical_markup: None,
            focused_node_id: String::new(),
            speech_text: String::new(),
            braille_text: String::new(),
            flags: Flags { speech_stale: false, braille_stale: false, should_speak_now: false },
            preferences: Preferences::new(),
        }
    }

    /// The session that a viewer starts with when `persisted` is the kept
    /// text of its preferences: the defaults, overlaid by what the text
    /// gives.
    pub fn restore(persisted: &str) -> (r: Session)
        ensures
            r@ == SessionView::started(persisted@),
    {
        let mut session = Session::new();
        session.preferences.load(persisted);
        session
    }

    /// Takes in what the engine answered when it was asked to make itself
    /// ready. Where it is ready the viewer starts with the session that
    /// `persisted` restores; where it is not there is no session, and the
    /// error is the engine's.
    pub fn begin(ready: Result<(), String>, persisted: &str) -> (r: Result<Session, String>)
        ensures
            ready is Ok ==> (r matches Ok(session) && session@ == SessionView::started(
                persisted@,
            )),
            ready matches Err(detail) ==> (r matches Err(words) && words@ == detail@),
    {
        match ready {
            Ok(_) => Ok(Session::restore(persisted)),
            Err(detail) => Err(detail),
        }
    }

    /// Takes in the outcome of normalizing the submitted text `raw`, and
    /// says whether the input was recognized.
    pub fn accept_input(&mut self, raw: &str, outcome: Result<String, NoMatch>) -> (recognized:
        bool)
        ensures
            final(self)@ == old(self)@.after_input(raw@, outcome_of(outcome)),
            recognized == outcome is Ok,
    {
        match outcome {
            Ok(markup) => {
                self.raw_input = raw.to_owned();
                self.canonical_markup = Some(markup);
                self.focused_node_id = String::new();
                self.flags = Flags {
                    speech_stale: true,
                    braille_stale: true,
                    should_speak_now: true,
                };
                true
            },
            Err(_) => false,
        }
    }

    /// Puts a setting in place and marks what depends on it, and says
    /// whether the setting was new.
    pub fn commit(&mut self, setting: Setting) -> (changed: bool)
        ensures
            final(self)@ == old(self)@.after_setting(setting),
            changed == (old(self).preferences.setting_of(setting.key_of()) != setting),
    {
        let changed = self.preferences.apply(setting);
        if changed {
            match setting.key() {
                PreferenceKey::SpeechStyle
                | PreferenceKey::SpeechVerbosity
                | PreferenceKey::TextToSpeech => {
                    self.flags.speech_stale = true;
                },
                PreferenceKey::BrailleCode
                | PreferenceKey::BrailleDisplay
                | PreferenceKey::BrailleNavHighlight => {
                    self.flags.braille_stale = true;
                },
                PreferenceKey::NavigationMode | PreferenceKey::NavigationVerbosity => {},
            }
        }
        changed
    }

    /// Takes in the engine's answer to a setting that was offered to it:
    /// where the engine agreed the setting is committed, and where it refused
    /// nothing changes.
    pub fn settle(&mut self, setting: Setting, answer: Result<(), String>) -> (r:
        PreferenceOutcome)
        ensures
            final(self)@ == old(self)@.after_offer(setting, verdict_of(answer)),
            (match answer {
                Err(detail) => r matches PreferenceOutcome::Rejected(words) && words@ == detail@,
                Ok(_) => if old(self).preferences.setting_of(setting.key_of()) == setting {
                    r is Unchanged
                } else {
                    r is Applied
                },
            }),
    {
        match answer {
            Ok(_) => {
                if self.commit(setting) {
                    PreferenceOutcome::Applied
                } else {
                    PreferenceOutcome::Unchanged
                }
            },
            Err(detail) => PreferenceOutcome::Rejected(detail),
        }
    }

    /// Takes in a move of navigation: its speech and the node it arrived at.
    pub fn accept_move(&mut self, speech: String, node_id: String)
        ensures
            final(self)@ == old(self)@.after_move(speech@, node_id@),
    {
        self.speech_text = speech;
        self.focused_node_id = node_id;
        self.flags.braille_stale = true;
        self.flags.should_speak_now = true;
    }

    /// Stores the engine's answer as the spoken text.
    pub fn store_speech(&mut self, answer: Result<String, String>)
        ensures
            final(self)@ == old(self)@.after_speech(answer_of(answer)),
    {
        match answer {
            Ok(text) => {
                self.speech_text = text;
            },
            Err(detail) => {
                self.speech_text = detail;
            },
        }
        self.flags.speech_stale = false;
    }

    /// Hands out what is due to be spoken, and notes that it was.
    pub fn take_vocalization(&mut self) -> (spoken: Option<String>)
        ensures
            final(self)@ == old(self)@.after_vocalization(),
            (match old(self)@.vocalized() {
                Some(text) => spoken matches Some(t) && t@ == text,
                None => spoken is None,
            }),
    {
        let due = self.flags.should_speak_now && self.preferences.text_to_speech
            != TextToSpeech::Off;
        self.flags.should_speak_now = false;
        if due {
            Some(self.speech_text.clone())
        } else {
            None
        }
    }

    /// Stores the engine's answer as the braille text, as ASCII braille
    /// where the display asks for it.
    pub fn store_braille(&mut self, answer: Result<String, String>)
        ensures
            final(self)@ == old(self)@.after_braille(answer_of(answer)),
    {
        match answer {
            Ok(text) => {
                if self.preferences.braille_display == BrailleDisplay::ASCIIBraille
                    && is_braille_text(text.as_str()) {
                    self.braille_text = to_ascii(text.as_str());
                } else {
                    self.braille_text = text;
                }
            },
            Err(detail) => {
                self.braille_text = detail;
            },
        }
        self.flags.braille_stale = false;
    }
}

} // verus!
