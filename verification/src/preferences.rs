//! The preference store: eight preferences, each with a closed set of values,
//! their names, and the `key=value;` text in which they are kept.

use crate::text::{
    append_str, chars_of, find_char, first_index_of, is_space, lemma_first_index_of, slice_of,
    spells, string_of, trim, trimmed, trimmed_end, trimmed_start,
};
use vstd::prelude::*;

verus! {

/// How navigation moves through an expression.
#[derive(Clone, Copy, Debug, PartialEq, Eq, Structural)]
pub enum NavigationMode {
    Enhanced,
    Simple,
    Character,
}

/// How much is said, in speech or during navigation.
#[derive(Clone, Copy, Debug, PartialEq, Eq, Structural)]
pub enum Verbosity {
    Terse,
    Medium,
    Verbose,
}

/// The style of the spoken text.
#[derive(Clone, Copy, Debug, PartialEq, Eq, Structural)]
pub enum SpeechStyle {
    ClearSpeak,
    SimpleSpeak,
}

/// Whether and how the spoken text is vocalized.
#[derive(Clone, Copy, Debug, PartialEq, Eq, Structural)]
pub enum TextToSpeech {
    Off,
    Plain,
    SSML,
}

/// The braille code.
#[derive(Clone, Copy, Debug, PartialEq, Eq, Structural)]
pub enum BrailleCode {
    Nemeth,
    UEB,
}

/// How braille is shown.
#[derive(Clone, Copy, Debug, PartialEq, Eq, Structural)]
pub enum BrailleDisplay {
    Dots,
    ASCIIBraille,
}

/// Which cells of the focused node are highlighted in braille.
#[derive(Clone, Copy, Debug, PartialEq, Eq, Structural)]
pub enum BrailleHighlight {
    Off,
    FirstChar,
    EndPoints,
    All,
}

/// The eight preferences, in the order in which they are written out.
#[derive(Clone, Copy, Debug, PartialEq, Eq, Structural)]
pub enum PreferenceKey {
    NavigationMode,
    NavigationVerbosity,
    SpeechStyle,
    SpeechVerbosity,
    TextToSpeech,
    BrailleCode,
    BrailleDisplay,
    BrailleNavHighlight,
}

/// A preference together with one of its values.
#[derive(Clone, Copy, Debug, PartialEq, Eq, Structural)]
pub enum Setting {
    NavigationMode(NavigationMode),
    NavigationVerbosity(Verbosity),
    SpeechStyle(SpeechStyle),
    SpeechVerbosity(Verbosity),
    TextToSpeech(TextToSpeech),
    BrailleCode(BrailleCode),
    BrailleDisplay(BrailleDisplay),
    BrailleNavHighlight(BrailleHighlight),
}

/// The value of every preference.
#[derive(Clone, Copy, Debug, PartialEq, Eq, Structural)]
pub struct Preferences {
    pub navigation_mode: NavigationMode,
    pub navigation_verbosity: Verbosity,
    pub speech_style: SpeechStyle,
    pub speech_verbosity: Verbosity,
    pub text_to_speech: TextToSpeech,
    pub braille_code: BrailleCode,
    pub braille_display: BrailleDisplay,
    pub braille_nav_highlight: BrailleHighlight,
}

impl PreferenceKey {
    /// The name under which the preference is kept.
    pub open spec fn name_of(self) -> Seq<char> {
        match self {
            PreferenceKey::NavigationMode => "navigation_mode"@,
            PreferenceKey::NavigationVerbosity => "navigation_verbosity"@,
            PreferenceKey::SpeechStyle => "speech_style"@,
            PreferenceKey::SpeechVerbosity => "speech_verbosity"@,
            PreferenceKey::TextToSpeech => "text_to_speech"@,
            PreferenceKey::BrailleCode => "braille_code"@,
            PreferenceKey::BrailleDisplay => "braille_display"@,
            PreferenceKey::BrailleNavHighlight => "braille_nav_highlight"@,
        }
    }

    /// The name under which the preference is kept.
    pub fn name(&self) -> (r: &'static str)
        ensures
            r@ == self.name_of(),
    {
        match self {
            PreferenceKey::NavigationMode => "navigation_mode",
            PreferenceKey::NavigationVerbosity => "navigation_verbosity",
            PreferenceKey::SpeechStyle => "speech_style",
            PreferenceKey::SpeechVerbosity => "speech_verbosity",
            PreferenceKey::TextToSpeech => "text_to_speech",
            PreferenceKey::BrailleCode => "braille_code",
            PreferenceKey::BrailleDisplay => "braille_display",
            PreferenceKey::BrailleNavHighlight => "braille_nav_highlight",
        }
    }

    /// The preference that is kept under `name`, if there is one.
    pub open spec fn named(name: Seq<char>) -> Option<PreferenceKey> {
        if exists|k: PreferenceKey| k.name_of() == name {
            Some(choose|k: PreferenceKey| k.name_of() == name)
        } else {
            None
        }
    }

    /// The preference that is kept under `name`, if there is one.
    pub fn parse(name: &str) -> (r: Option<PreferenceKey>)
        ensures
            r == Self::named(name@),
    {
        let wanted = chars_of(name);
        let keys = all_keys();
        let mut i: usize = 0;
        while i < keys.len()
            invariant
                i <= keys.len(),
                wanted@ == name@,
                keys@ == key_order(),
                forall|j: int| 0 <= j < i ==> keys@[j].name_of() != name@,
            decreases keys.len() - i,
        {
            let key = keys[i];
            if spells(&wanted, key.name()) {
                proof {
                    let chosen = choose|k: PreferenceKey| k.name_of() == name@;
                    lemma_key_names_are_unique(chosen, key);
                }
                return Some(key);
            }
            i += 1;
        }
        proof {
            assert forall|k: PreferenceKey| k.name_of() != name@ by {
                lemma_key_order_is_complete(k);
            }
        }
        None
    }
}

/// The preferences in the order in which they are written out.
pub open spec fn key_order() -> Seq<PreferenceKey> {
    seq![
        PreferenceKey::NavigationMode,
        PreferenceKey::NavigationVerbosity,
        PreferenceKey::SpeechStyle,
        PreferenceKey::SpeechVerbosity,
        PreferenceKey::TextToSpeech,
        PreferenceKey::BrailleCode,
        PreferenceKey::BrailleDisplay,
        PreferenceKey::BrailleNavHighlight,
    ]
}

/// The preferences in the order in which they are written out.
pub fn all_keys() -> (r: Vec<PreferenceKey>)
    ensures
        r@ == key_order(),
{
    let r = vec![
        PreferenceKey::NavigationMode,
        PreferenceKey::NavigationVerbosity,
        PreferenceKey::SpeechStyle,
        PreferenceKey::SpeechVerbosity,
        PreferenceKey::TextToSpeech,
        PreferenceKey::BrailleCode,
        PreferenceKey::BrailleDisplay,
        PreferenceKey::BrailleNavHighlight,
    ];
    assert(r@ =~= key_order());
    r
}

/// Every preference stands in `key_order`.
pub proof fn lemma_key_order_is_complete(k: PreferenceKey)
    ensures
        exists|i: int| 0 <= i < key_order().len() && key_order()[i] == k,
{
    let i: int = match k {
        PreferenceKey::NavigationMode => 0,
        PreferenceKey::NavigationVerbosity => 1,
        PreferenceKey::SpeechStyle => 2,
        PreferenceKey::SpeechVerbosity => 3,
        PreferenceKey::TextToSpeech => 4,
        PreferenceKey::BrailleCode => 5,
        PreferenceKey::BrailleDisplay => 6,
        PreferenceKey::BrailleNavHighlight => 7,
    };
    assert(key_order()[i] == k);
}

/// Whether `s` can stand as a key or a value in the kept text: it is not
/// empty, holds neither `;` nor `=`, and holds no white space.
pub open spec fn is_word(s: Seq<char>) -> bool {
    &&& s.len() > 0
    &&& forall|i: int|
        0 <= i < s.len() ==> s[i] != ';' && s[i] != '=' && !is_space(#[trigger] s[i])
}

/// What the names of the preferences look like: each is a word, and its
/// length and first letter together belong to it alone.
proof fn lemma_key_name_shapes(k: PreferenceKey)
    ensures
        is_word(k.name_of()),
        k.name_of().len() == (match k {
            PreferenceKey::NavigationMode => 15nat,
            PreferenceKey::NavigationVerbosity => 20nat,
            PreferenceKey::SpeechStyle => 12nat,
            PreferenceKey::SpeechVerbosity => 16nat,
            PreferenceKey::TextToSpeech => 14nat,
            PreferenceKey::BrailleCode => 12nat,
            PreferenceKey::BrailleDisplay => 15nat,
            PreferenceKey::BrailleNavHighlight => 21nat,
        }),
        k.name_of()[0] == (match k {
            PreferenceKey::NavigationMode | PreferenceKey::NavigationVerbosity => 'n',
            PreferenceKey::SpeechStyle | PreferenceKey::SpeechVerbosity => 's',
            PreferenceKey::TextToSpeech => 't',
            _ => 'b',
        }),
{
    reveal_strlit("navigation_mode");
    reveal_strlit("navigation_verbosity");
    reveal_strlit("speech_style");
    reveal_strlit("speech_verbosity");
    reveal_strlit("text_to_speech");
    reveal_strlit("braille_code");
    reveal_strlit("braille_display");
    reveal_strlit("braille_nav_highlight");
}

/// No two preferences have one name.
pub proof fn lemma_key_names_are_unique(a: PreferenceKey, b: PreferenceKey)
    requires
        a.name_of() == b.name_of(),
    ensures
        a == b,
{
    lemma_key_name_shapes(a);
    lemma_key_name_shapes(b);
}

/// The name of a preference is a word.
pub proof fn lemma_key_names_are_words(k: PreferenceKey)
    ensures
        is_word(k.name_of()),
{
    lemma_key_name_shapes(k);
}

impl Setting {
    /// The preference that the setting belongs to.
    pub open spec fn key_of(self) -> PreferenceKey {
        match self {
            Setting::NavigationMode(_) => PreferenceKey::NavigationMode,
            Setting::NavigationVerbosity(_) => PreferenceKey::NavigationVerbosity,
            Setting::SpeechStyle(_) => PreferenceKey::SpeechStyle,
            Setting::SpeechVerbosity(_) => PreferenceKey::SpeechVerbosity,
            Setting::TextToSpeech(_) => PreferenceKey::TextToSpeech,
            Setting::BrailleCode(_) => PreferenceKey::BrailleCode,
            Setting::BrailleDisplay(_) => PreferenceKey::BrailleDisplay,
            Setting::BrailleNavHighlight(_) => PreferenceKey::BrailleNavHighlight,
        }
    }

    /// The preference that the setting belongs to.
    pub fn key(&self) -> (r: PreferenceKey)
        ensures
            r == self.key_of(),
    {
        match self {
            Setting::NavigationMode(_) => PreferenceKey::NavigationMode,
            Setting::NavigationVerbosity(_) => PreferenceKey::NavigationVerbosity,
            Setting::SpeechStyle(_) => PreferenceKey::SpeechStyle,
            Setting::SpeechVerbosity(_) => PreferenceKey::SpeechVerbosity,
            Setting::TextToSpeech(_) => PreferenceKey::TextToSpeech,
            Setting::BrailleCode(_) => PreferenceKey::BrailleCode,
            Setting::BrailleDisplay(_) => PreferenceKey::BrailleDisplay,
            Setting::BrailleNavHighlight(_) => PreferenceKey::BrailleNavHighlight,
        }
    }

    /// The name of the setting's value.
    pub open spec fn value_name_of(self) -> Seq<char> {
        match self {
            Setting::NavigationMode(NavigationMode::Enhanced) => "Enhanced"@,
            Setting::NavigationMode(NavigationMode::Simple) => "Simple"@,
            Setting::NavigationMode(NavigationMode::Character) => "Character"@,
            Setting::NavigationVerbosity(Verbosity::Terse) => "Terse"@,
            Setting::NavigationVerbosity(Verbosity::Medium) => "Medium"@,
            Setting::NavigationVerbosity(Verbosity::Verbose) => "Verbose"@,
            Setting::SpeechStyle(SpeechStyle::ClearSpeak) => "ClearSpeak"@,
            Setting::SpeechStyle(SpeechStyle::SimpleSpeak) => "SimpleSpeak"@,
            Setting::SpeechVerbosity(Verbosity::Terse) => "Terse"@,
            Setting::SpeechVerbosity(Verbosity::Medium) => "Medium"@,
            Setting::SpeechVerbosity(Verbosity::Verbose) => "Verbose"@,
            Setting::TextToSpeech(TextToSpeech::Off) => "Off"@,
            Setting::TextToSpeech(TextToSpeech::Plain) => "Plain"@,
            Setting::TextToSpeech(TextToSpeech::SSML) => "SSML"@,
            Setting::BrailleCode(BrailleCode::Nemeth) => "Nemeth"@,
            Setting::BrailleCode(BrailleCode::UEB) => "UEB"@,
            Setting::BrailleDisplay(BrailleDisplay::Dots) => "Dots"@,
            Setting::BrailleDisplay(BrailleDisplay::ASCIIBraille) => "ASCIIBraille"@,
            Setting::BrailleNavHighlight(BrailleHighlight::Off) => "Off"@,
            Setting::BrailleNavHighlight(BrailleHighlight::FirstChar) => "FirstChar"@,
            Setting::BrailleNavHighlight(BrailleHighlight::EndPoints) => "EndPoints"@,
            Setting::BrailleNavHighlight(BrailleHighlight::All) => "All"@,
        }
    }

    /// The name of the setting's value.
    pub fn value_name(&self) -> (r: &'static str)
        ensures
            r@ == self.value_name_of(),
    {
        match self {
            Setting::NavigationMode(NavigationMode::Enhanced) => "Enhanced",
            Setting::NavigationMode(NavigationMode::Simple) => "Simple",
            Setting::NavigationMode(NavigationMode::Character) => "Character",
            Setting::NavigationVerbosity(Verbosity::Terse) => "Terse",
            Setting::NavigationVerbosity(Verbosity::Medium) => "Medium",
            Setting::NavigationVerbosity(Verbosity::Verbose) => "Verbose",
            Setting::SpeechStyle(SpeechStyle::ClearSpeak) => "ClearSpeak",
            Setting::SpeechStyle(SpeechStyle::SimpleSpeak) => "SimpleSpeak",
            Setting::SpeechVerbosity(Verbosity::Terse) => "Terse",
            Setting::SpeechVerbosity(Verbosity::Medium) => "Medium",
            Setting::SpeechVerbosity(Verbosity::Verbose) => "Verbose",
            Setting::TextToSpeech(TextToSpeech::Off) => "Off",
            Setting::TextToSpeech(TextToSpeech::Plain) => "Plain",
            Setting::TextToSpeech(TextToSpeech::SSML) => "SSML",
            Setting::BrailleCode(BrailleCode::Nemeth) => "Nemeth",
            Setting::BrailleCode(BrailleCode::UEB) => "UEB",
            Setting::BrailleDisplay(BrailleDisplay::Dots) => "Dots",
            Setting::BrailleDisplay(BrailleDisplay::ASCIIBraille) => "ASCIIBraille",
            Setting::BrailleNavHighlight(BrailleHighlight::Off) => "Off",
            Setting::BrailleNavHighlight(BrailleHighlight::FirstChar) => "FirstChar",
            Setting::BrailleNavHighlight(BrailleHighlight::EndPoints) => "EndPoints",
            Setting::BrailleNavHighlight(BrailleHighlight::All) => "All",
        }
    }

    /// Whether `key` and `value` are the names of this setting.
    pub open spec fn is_named(self, key: Seq<char>, value: Seq<char>) -> bool {
        self.key_of().name_of() == key && self.value_name_of() == value
    }

    /// The setting that `key` and `value` name, if they name one: `key` is
    /// the name of a preference and `value` the name of one of its values.
    pub open spec fn named(key: Seq<char>, value: Seq<char>) -> Option<Setting> {
        if exists|s: Setting| s.is_named(key, value) {
            Some(choose|s: Setting| s.is_named(key, value))
        } else {
            None
        }
    }

    /// The setting that `key` and `value` name, if they name one.
    pub fn parse(key: &str, value: &str) -> (r: Option<Setting>)
        ensures
            r == Self::named(key@, value@),
    {
        let k = chars_of(key);
        let v = chars_of(value);
        parse_setting(&k, &v)
    }
}

/// Every setting, by preference in the order of `key_order`.
pub open spec fn setting_order() -> Seq<Setting> {
    seq![
        Setting::NavigationMode(NavigationMode::Enhanced),
        Setting::NavigationMode(NavigationMode::Simple),
        Setting::NavigationMode(NavigationMode::Character),
        Setting::NavigationVerbosity(Verbosity::Terse),
        Setting::NavigationVerbosity(Verbosity::Medium),
        Setting::NavigationVerbosity(Verbosity::Verbose),
        Setting::SpeechStyle(SpeechStyle::ClearSpeak),
        Setting::SpeechStyle(SpeechStyle::SimpleSpeak),
        Setting::SpeechVerbosity(Verbosity::Terse),
        Setting::SpeechVerbosity(Verbosity::Medium),
        Setting::SpeechVerbosity(Verbosity::Verbose),
        Setting::TextToSpeech(TextToSpeech::Off),
        Setting::TextToSpeech(TextToSpeech::Plain),
        Setting::TextToSpeech(TextToSpeech::SSML),
        Setting::BrailleCode(BrailleCode::Nemeth),
        Setting::BrailleCode(BrailleCode::UEB),
        Setting::BrailleDisplay(BrailleDisplay::Dots),
        Setting::BrailleDisplay(BrailleDisplay::ASCIIBraille),
        Setting::BrailleNavHighlight(BrailleHighlight::Off),
        Setting::BrailleNavHighlight(BrailleHighlight::FirstChar),
        Setting::BrailleNavHighlight(BrailleHighlight::EndPoints),
        Setting::BrailleNavHighlight(BrailleHighlight::All),
    ]
}

/// Every setting, by preference in the order of `key_order`.
pub fn all_settings() -> (r: Vec<Setting>)
    ensures
        r@ == setting_order(),
{
    let r = vec![
        Setting::NavigationMode(NavigationMode::Enhanced),
        Setting::NavigationMode(NavigationMode::Simple),
        Setting::NavigationMode(NavigationMode::Character),
        Setting::NavigationVerbosity(Verbosity::Terse),
        Setting::NavigationVerbosity(Verbosity::Medium),
        Setting::NavigationVerbosity(Verbosity::Verbose),
        Setting::SpeechStyle(SpeechStyle::ClearSpeak),
        Setting::SpeechStyle(SpeechStyle::SimpleSpeak),
        Setting::SpeechVerbosity(Verbosity::Terse),
        Setting::SpeechVerbosity(Verbosity::Medium),
        Setting::SpeechVerbosity(Verbosity::Verbose),
        Setting::TextToSpeech(TextToSpeech::Off),
        Setting::TextToSpeech(TextToSpeech::Plain),
        Setting::TextToSpeech(TextToSpeech::SSML),
        Setting::BrailleCode(BrailleCode::Nemeth),
        Setting::BrailleCode(BrailleCode::UEB),
        Setting::BrailleDisplay(BrailleDisplay::Dots),
        Setting::BrailleDisplay(BrailleDisplay::ASCIIBraille),
        Setting::BrailleNavHighlight(BrailleHighlight::Off),
        Setting::BrailleNavHighlight(BrailleHighlight::FirstChar),
        Setting::BrailleNavHighlight(BrailleHighlight::EndPoints),
        Setting::BrailleNavHighlight(BrailleHighlight::All),
    ];
    assert(r@ =~= setting_order());
    r
}

/// Every setting stands in `setting_order`.
pub proof fn lemma_setting_order_is_complete(s: Setting)
    ensures
        exists|i: int| 0 <= i < setting_order().len() && setting_order()[i] == s,
{
    let i: int = match s {
        Setting::NavigationMode(NavigationMode::Enhanced) => 0,
        Setting::NavigationMode(NavigationMode::Simple) => 1,
        Setting::NavigationMode(NavigationMode::Character) => 2,
        Setting::NavigationVerbosity(Verbosity::Terse) => 3,
        Setting::NavigationVerbosity(Verbosity::Medium) => 4,
        Setting::NavigationVerbosity(Verbosity::Verbose) => 5,
        Setting::SpeechStyle(SpeechStyle::ClearSpeak) => 6,
        Setting::SpeechStyle(SpeechStyle::SimpleSpeak) => 7,
        Setting::SpeechVerbosity(Verbosity::Terse) => 8,
        Setting::SpeechVerbosity(Verbosity::Medium) => 9,
        Setting::SpeechVerbosity(Verbosity::Verbose) => 10,
        Setting::TextToSpeech(TextToSpeech::Off) => 11,
        Setting::TextToSpeech(TextToSpeech::Plain) => 12,
        Setting::TextToSpeech(TextToSpeech::SSML) => 13,
        Setting::BrailleCode(BrailleCode::Nemeth) => 14,
        Setting::BrailleCode(BrailleCode::UEB) => 15,
        Setting::BrailleDisplay(BrailleDisplay::Dots) => 16,
        Setting::BrailleDisplay(BrailleDisplay::ASCIIBraille) => 17,
        Setting::BrailleNavHighlight(BrailleHighlight::Off) => 18,
        Setting::BrailleNavHighlight(BrailleHighlight::FirstChar) => 19,
        Setting::BrailleNavHighlight(BrailleHighlight::EndPoints) => 20,
        Setting::BrailleNavHighlight(BrailleHighlight::All) => 21,
    };
    assert(setting_order()[i] == s);
}

/// What the names of the values look like: each is a word, and among the
/// values of one preference its length and first letter belong to it alone.
proof fn lemma_value_name_shapes(s: Setting)
    ensures
        is_word(s.value_name_of()),
        s.value_name_of().len() == (match s {
            Setting::NavigationMode(NavigationMode::Enhanced) => 8nat,
            Setting::NavigationMode(NavigationMode::Simple) => 6nat,
            Setting::NavigationMode(NavigationMode::Character) => 9nat,
            Setting::NavigationVerbosity(Verbosity::Terse) => 5nat,
            Setting::NavigationVerbosity(Verbosity::Medium) => 6nat,
            Setting::NavigationVerbosity(Verbosity::Verbose) => 7nat,
            Setting::SpeechStyle(SpeechStyle::ClearSpeak) => 10nat,
            Setting::SpeechStyle(SpeechStyle::SimpleSpeak) => 11nat,
            Setting::SpeechVerbosity(Verbosity::Terse) => 5nat,
            Setting::SpeechVerbosity(Verbosity::Medium) => 6nat,
            Setting::SpeechVerbosity(Verbosity::Verbose) => 7nat,
            Setting::TextToSpeech(TextToSpeech::Off) => 3nat,
            Setting::TextToSpeech(TextToSpeech::Plain) => 5nat,
            Setting::TextToSpeech(TextToSpeech::SSML) => 4nat,
            Setting::BrailleCode(BrailleCode::Nemeth) => 6nat,
            Setting::BrailleCode(BrailleCode::UEB) => 3nat,
            Setting::BrailleDisplay(BrailleDisplay::Dots) => 4nat,
            Setting::BrailleDisplay(BrailleDisplay::ASCIIBraille) => 12nat,
            Setting::BrailleNavHighlight(BrailleHighlight::Off) => 3nat,
            Setting::BrailleNavHighlight(BrailleHighlight::FirstChar) => 9nat,
            Setting::BrailleNavHighlight(BrailleHighlight::EndPoints) => 9nat,
            Setting::BrailleNavHighlight(BrailleHighlight::All) => 3nat,
        }),
        s matches Setting::BrailleNavHighlight(h) ==> s.value_name_of()[0] == (match h {
            BrailleHighlight::Off => 'O',
            BrailleHighlight::FirstChar => 'F',
            BrailleHighlight::EndPoints => 'E',
            BrailleHighlight::All => 'A',
        }),
{
    reveal_strlit("Enhanced");
    reveal_strlit("Simple");
    reveal_strlit("Character");
    reveal_strlit("Terse");
    reveal_strlit("Medium");
    reveal_strlit("Verbose");
    reveal_strlit("ClearSpeak");
    reveal_strlit("SimpleSpeak");
    reveal_strlit("Off");
    reveal_strlit("Plain");
    reveal_strlit("SSML");
    reveal_strlit("Nemeth");
    reveal_strlit("UEB");
    reveal_strlit("Dots");
    reveal_strlit("ASCIIBraille");
    reveal_strlit("FirstChar");
    reveal_strlit("EndPoints");
    reveal_strlit("All");
}

/// No two settings have the same two names.
pub proof fn lemma_setting_names_are_unique(a: Setting, b: Setting)
    requires
        a.key_of().name_of() == b.key_of().name_of(),
        a.value_name_of() == b.value_name_of(),
    ensures
        a == b,
{
    lemma_key_names_are_unique(a.key_of(), b.key_of());
    lemma_value_name_shapes(a);
    lemma_value_name_shapes(b);
}

/// The name of a value is a word.
pub proof fn lemma_value_names_are_words(s: Setting)
    ensures
        is_word(s.value_name_of()),
{
    lemma_value_name_shapes(s);
}

/// A setting is the one that its own names name.
pub proof fn lemma_named_by_own_names(s: Setting)
    ensures
        Setting::named(s.key_of().name_of(), s.value_name_of()) == Some(s),
{
    let key = s.key_of().name_of();
    let value = s.value_name_of();
    assert(s.is_named(key, value));
    let chosen = choose|t: Setting| t.is_named(key, value);
    lemma_setting_names_are_unique(chosen, s);
}

fn parse_setting(key: &Vec<char>, value: &Vec<char>) -> (r: Option<Setting>)
    ensures
        r == Setting::named(key@, value@),
{
    let settings = all_settings();
    let mut i: usize = 0;
    while i < settings.len()
        invariant
            i <= settings.len(),
            settings@ == setting_order(),
            forall|j: int| 0 <= j < i ==> !settings@[j].is_named(key@, value@),
        decreases settings.len() - i,
    {
        let setting = settings[i];
        if spells(key, setting.key().name()) && spells(value, setting.value_name()) {
            proof {
                assert(setting.is_named(key@, value@));
                let chosen = choose|s: Setting| s.is_named(key@, value@);
                lemma_setting_names_are_unique(chosen, setting);
            }
            return Some(setting);
        }
        i += 1;
    }
    proof {
        assert forall|s: Setting| !s.is_named(key@, value@) by {
            lemma_setting_order_is_complete(s);
        }
    }
    None
}

/// What one entry of the kept text holds: the setting's two names, `=`
/// between them and `;` behind them.
pub open spec fn entry_of(s: Setting) -> Seq<char> {
    s.key_of().name_of() + seq!['='] + s.value_name_of() + seq![';']
}

/// The pieces of `text` between its `;`: what `text` is split into. A text
/// without `;` is one piece, and a text that ends in `;` has an empty last
/// piece.
pub open spec fn entries(text: Seq<char>) -> Seq<Seq<char>>
    decreases text.len(),
{
    let semicolon: int = first_index_of(text, ';');
    if 0 <= semicolon < text.len() {
        seq![text.take(semicolon)] + entries(text.skip(semicolon + 1))
    } else {
        seq![text]
    }
}

/// The part of an entry before its first `=`, without surrounding white space.
pub open spec fn entry_key(entry: Seq<char>) -> Seq<char> {
    trimmed(entry.take(first_index_of(entry, '=')))
}

/// The part of an entry behind its first `=`, without surrounding white space.
pub open spec fn entry_value(entry: Seq<char>) -> Seq<char> {
    trimmed(entry.skip(first_index_of(entry, '=') + 1))
}

/// The setting that an entry gives, if it gives one: the entry holds `=`,
/// and what stands before and behind the first `=` names a setting.
pub open spec fn entry_setting(entry: Seq<char>) -> Option<Setting> {
    if entry.contains('=') {
        Setting::named(entry_key(entry), entry_value(entry))
    } else {
        None
    }
}

impl Preferences {
    /// The preferences that a session starts with.
    pub open spec fn defaults() -> Preferences {
        Preferences {
            navigation_mode: NavigationMode::Enhanced,
            navigation_verbosity: Verbosity::Medium,
            speech_style: SpeechStyle::ClearSpeak,
            speech_verbosity: Verbosity::Medium,
            text_to_speech: TextToSpeech::Off,
            braille_code: BrailleCode::Nemeth,
            braille_display: BrailleDisplay::Dots,
            braille_nav_highlight: BrailleHighlight::EndPoints,
        }
    }

    /// The preferences that a session starts with.
    pub fn new() -> (r: Preferences)
        ensures
            r == Self::defaults(),
    {
        Preferences {
            navigation_mode: NavigationMode::Enhanced,
            navigation_verbosity: Verbosity::Medium,
            speech_style: SpeechStyle::ClearSpeak,
            speech_verbosity: Verbosity::Medium,
            text_to_speech: TextToSpeech::Off,
            braille_code: BrailleCode::Nemeth,
            braille_display: BrailleDisplay::Dots,
            braille_nav_highlight: BrailleHighlight::EndPoints,
        }
    }

    /// The value of `key`, as a setting.
    pub open spec fn setting_of(self, key: PreferenceKey) -> Setting {
        match key {
            PreferenceKey::NavigationMode => Setting::NavigationMode(self.navigation_mode),
            PreferenceKey::NavigationVerbosity => Setting::NavigationVerbosity(
                self.navigation_verbosity,
            ),
            PreferenceKey::SpeechStyle => Setting::SpeechStyle(self.speech_style),
            PreferenceKey::SpeechVerbosity => Setting::SpeechVerbosity(self.speech_verbosity),
            PreferenceKey::TextToSpeech => Setting::TextToSpeech(self.text_to_speech),
            PreferenceKey::BrailleCode => Setting::BrailleCode(self.braille_code),
            PreferenceKey::BrailleDisplay => Setting::BrailleDisplay(self.braille_display),
            PreferenceKey::BrailleNavHighlight => Setting::BrailleNavHighlight(
                self.braille_nav_highlight,
            ),
        }
    }

    /// The value of `key`, as a setting.
    pub fn setting(&self, key: PreferenceKey) -> (r: Setting)
        ensures
            r == self.setting_of(key),
    {
        match key {
            PreferenceKey::NavigationMode => Setting::NavigationMode(self.navigation_mode),
            PreferenceKey::NavigationVerbosity => Setting::NavigationVerbosity(
                self.navigation_verbosity,
            ),
            PreferenceKey::SpeechStyle => Setting::SpeechStyle(self.speech_style),
            PreferenceKey::SpeechVerbosity => Setting::SpeechVerbosity(self.speech_verbosity),
            PreferenceKey::TextToSpeech => Setting::TextToSpeech(self.text_to_speech),
            PreferenceKey::BrailleCode => Setting::BrailleCode(self.braille_code),
            PreferenceKey::BrailleDisplay => Setting::BrailleDisplay(self.braille_display),
            PreferenceKey::BrailleNavHighlight => Setting::BrailleNavHighlight(
                self.braille_nav_highlight,
            ),
        }
    }

    /// These preferences with `s` in place of the value of its preference.
    pub open spec fn with(self, s: Setting) -> Preferences {
        match s {
            Setting::NavigationMode(v) => Preferences { navigation_mode: v, ..self },
            Setting::NavigationVerbosity(v) => Preferences { navigation_verbosity: v, ..self },
            Setting::SpeechStyle(v) => Preferences { speech_style: v, ..self },
            Setting::SpeechVerbosity(v) => Preferences { speech_verbosity: v, ..self },
            Setting::TextToSpeech(v) => Preferences { text_to_speech: v, ..self },
            Setting::BrailleCode(v) => Preferences { braille_code: v, ..self },
            Setting::BrailleDisplay(v) => Preferences { braille_display: v, ..self },
            Setting::BrailleNavHighlight(v) => Preferences { braille_nav_highlight: v, ..self },
        }
    }

    /// Puts `s` in place of the value of its preference, and says whether
    /// that changed the value.
    pub fn apply(&mut self, s: Setting) -> (changed: bool)
        ensures
            *final(self) == old(self).with(s),
            changed == (old(self).setting_of(s.key_of()) != s),
    {
        let changed = self.setting(s.key()) != s;
        match s {
            Setting::NavigationMode(v) => {
                self.navigation_mode = v;
            },
            Setting::NavigationVerbosity(v) => {
                self.navigation_verbosity = v;
            },
            Setting::SpeechStyle(v) => {
                self.speech_style = v;
            },
            Setting::SpeechVerbosity(v) => {
                self.speech_verbosity = v;
            },
            Setting::TextToSpeech(v) => {
                self.text_to_speech = v;
            },
            Setting::BrailleCode(v) => {
                self.braille_code = v;
            },
            Setting::BrailleDisplay(v) => {
                self.braille_display = v;
            },
            Setting::BrailleNavHighlight(v) => {
                self.braille_nav_highlight = v;
            },
        }
        changed
    }

    /// These preferences after `key` is set to `value`: where the two name a
    /// setting it takes its place, and otherwise nothing changes.
    pub open spec fn with_named(self, key: Seq<char>, value: Seq<char>) -> Preferences {
        match Setting::named(key, value) {
            Some(s) => self.with(s),
            None => self,
        }
    }

    /// Sets the preference named `key` to the value named `value`, and says
    /// whether that changed the value. A key that names no preference, and a
    /// value that the preference does not have, change nothing.
    pub fn set(&mut self, key: &str, value: &str) -> (changed: bool)
        ensures
            *final(self) == old(self).with_named(key@, value@),
            changed == (*final(self) != *old(self)),
    {
        match Setting::parse(key, value) {
            Some(s) => self.apply(s),
            None => false,
        }
    }

    /// The name of the value of the preference named `key`; `None` where
    /// `key` names no preference.
    pub fn get(&self, key: &str) -> (r: Option<String>)
        ensures
            (match PreferenceKey::named(key@) {
                Some(k) => r matches Some(name) && name@ == self.setting_of(k).value_name_of(),
                None => r is None,
            }),
    {
        match PreferenceKey::parse(key) {
            Some(k) => {
                let name = chars_of(self.setting(k).value_name());
                Some(string_of(&name))
            },
            None => None,
        }
    }

    /// The kept text: one entry for each preference, in the order of
    /// `key_order`.
    pub open spec fn serialized(self) -> Seq<char> {
        entry_of(self.setting_of(PreferenceKey::NavigationMode)) + entry_of(
            self.setting_of(PreferenceKey::NavigationVerbosity),
        ) + entry_of(self.setting_of(PreferenceKey::SpeechStyle)) + entry_of(
            self.setting_of(PreferenceKey::SpeechVerbosity),
        ) + entry_of(self.setting_of(PreferenceKey::TextToSpeech)) + entry_of(
            self.setting_of(PreferenceKey::BrailleCode),
        ) + entry_of(self.setting_of(PreferenceKey::BrailleDisplay)) + entry_of(
            self.setting_of(PreferenceKey::BrailleNavHighlight),
        )
    }

    /// Writes the preferences out as `key=value;` entries.
    pub fn serialize(&self) -> (r: String)
        ensures
            r@ == self.serialized(),
    {
        let mut out: Vec<char> = Vec::new();
        append_entry(&mut out, self.setting(PreferenceKey::NavigationMode));
        append_entry(&mut out, self.setting(PreferenceKey::NavigationVerbosity));
        append_entry(&mut out, self.setting(PreferenceKey::SpeechStyle));
        append_entry(&mut out, self.setting(PreferenceKey::SpeechVerbosity));
        append_entry(&mut out, self.setting(PreferenceKey::TextToSpeech));
        append_entry(&mut out, self.setting(PreferenceKey::BrailleCode));
        append_entry(&mut out, self.setting(PreferenceKey::BrailleDisplay));
        append_entry(&mut out, self.setting(PreferenceKey::BrailleNavHighlight));
        assert(out@ == self.serialized());
        string_of(&out)
    }

    /// These preferences after one entry of kept text: an entry that gives a
    /// setting puts it in place, and any other entry changes nothing.
    pub open spec fn with_entry(self, entry: Seq<char>) -> Preferences {
        match entry_setting(entry) {
            Some(s) => self.with(s),
            None => self,
        }
    }

    /// These preferences after the entries `es`, taken in order.
    pub open spec fn with_entries(self, es: Seq<Seq<char>>) -> Preferences
        decreases es.len(),
    {
        if es.len() == 0 {
            self
        } else {
            self.with_entry(es[0]).with_entries(es.skip(1))
        }
    }

    /// These preferences after kept text is read: the text is split at each
    /// `;`, and the pieces are taken as entries, in order.
    pub open spec fn loaded(self, text: Seq<char>) -> Preferences {
        self.with_entries(entries(text))
    }

    /// Reads kept text. Each entry that names a preference and one of its
    /// values sets it; every other entry is passed over.
    pub fn load(&mut self, text: &str)
        ensures
            *final(self) == old(self).loaded(text@),
    {
        let v = chars_of(text);
        let mut start: usize = 0;
        assert(v@.skip(0) == v@);
        loop
            invariant
                start <= v.len(),
                v@ == text@,
                self.with_entries(entries(v@.skip(start as int))) == old(self).loaded(text@),
            ensures
                *self == old(self).loaded(text@),
            decreases v.len() - start,
        {
            let ghost rest = v@.skip(start as int);
            let end: usize = find_char(&v, start, ';');
            proof {
                lemma_first_index_of(rest, ';');
                assert(rest.take(end - start) == v@.subrange(start as int, end as int));
            }
            let entry = slice_of(&v, start, end);
            let ghost before = *self;
            self.load_entry(&entry);
            if end >= v.len() {
                proof {
                    assert(rest.take(end - start) == rest);
                    assert(entries(rest) == seq![rest]);
                    assert(seq![rest][0] == rest);
                    assert(seq![rest].skip(1) == Seq::<Seq<char>>::empty());
                    assert(before.with_entries(seq![rest]) == before.with_entry(
                        rest,
                    ).with_entries(Seq::<Seq<char>>::empty()));
                }
                break;
            }
            proof {
                assert(rest.skip(end - start + 1) == v@.skip(end + 1));
                let tail = entries(v@.skip(end + 1));
                assert((seq![entry@] + tail)[0] == entry@);
                assert((seq![entry@] + tail).skip(1) == tail);
                assert(before.with_entries(seq![entry@] + tail) == before.with_entry(
                    entry@,
                ).with_entries(tail));
            }
            start = end + 1;
        }
    }

    fn load_entry(&mut self, entry: &Vec<char>)
        ensures
            *final(self) == old(self).with_entry(entry@),
    {
        let eq: usize = find_char(entry, 0, '=');
        proof {
            assert(entry@.skip(0) == entry@);
            lemma_first_index_of(entry@, '=');
        }
        if eq < entry.len() {
            let key = trim(&slice_of(entry, 0, eq));
            let value = trim(&slice_of(entry, eq + 1, entry.len()));
            match parse_setting(&key, &value) {
                Some(s) => {
                    self.apply(s);
                },
                None => {},
            }
        }
    }
}

impl Default for Preferences {
    fn default() -> (r: Preferences)
        ensures
            r == Preferences::defaults(),
    {
        Preferences::new()
    }
}

fn append_entry(out: &mut Vec<char>, s: Setting)
    ensures
        final(out)@ == old(out)@ + entry_of(s),
{
    append_str(out, s.key().name());
    out.push('=');
    append_str(out, s.value_name());
    out.push(';');
    assert(out@ == old(out)@ + entry_of(s));
}

/// Putting a setting in place changes the value of its preference to it and
/// leaves every other preference as it was.
pub proof fn lemma_with_changes_one_preference(p: Preferences, s: Setting, key: PreferenceKey)
    ensures
        p.with(s).setting_of(s.key_of()) == s,
        key != s.key_of() ==> p.with(s).setting_of(key) == p.setting_of(key),
        p.with(p.setting_of(key)) == p,
{
}

/// A word is left as it is when surrounding white space is taken off.
proof fn lemma_word_is_trimmed(w: Seq<char>)
    requires
        is_word(w),
    ensures
        trimmed(w) == w,
{
    assert(!is_space(w[0]));
    assert(!is_space(w[w.len() - 1]));
    assert(trimmed_start(w) == w);
    assert(trimmed_end(w) == w);
}

/// An entry made of a setting's two names gives that setting.
proof fn lemma_entry_gives_its_setting(s: Setting)
    ensures
        entry_setting(s.key_of().name_of() + seq!['='] + s.value_name_of()) == Some(s),
{
    let key = s.key_of().name_of();
    let value = s.value_name_of();
    let entry = key + seq!['='] + value;
    lemma_key_names_are_words(s.key_of());
    lemma_value_names_are_words(s);
    assert(entry[key.len() as int] == '=');
    assert forall|j: int| 0 <= j < key.len() implies entry[j] != '=' by {
        assert(entry[j] == key[j]);
    }
    crate::text::lemma_first_index_of_unique(entry, '=', key.len() as int);
    assert(entry.take(key.len() as int) == key);
    assert(entry.skip(key.len() as int + 1) == value);
    lemma_word_is_trimmed(key);
    lemma_word_is_trimmed(value);
    lemma_named_by_own_names(s);
}

/// Kept text that begins with the entry of a setting splits into that
/// entry's two names around `=`, and the pieces of what follows.
proof fn lemma_entries_after_entry(s: Setting, rest: Seq<char>)
    ensures
        entries(entry_of(s) + rest) == seq![s.key_of().name_of() + seq!['='] + s.value_name_of()]
            + entries(rest),
{
    let key = s.key_of().name_of();
    let value = s.value_name_of();
    let pair = key + seq!['='] + value;
    let text = entry_of(s) + rest;
    lemma_key_names_are_words(s.key_of());
    lemma_value_names_are_words(s);
    let at: int = pair.len() as int;
    assert(text[at] == ';');
    assert forall|j: int| 0 <= j < at implies text[j] != ';' by {
        if j < key.len() {
            assert(text[j] == key[j]);
        } else if j > key.len() {
            assert(text[j] == value[j - key.len() - 1]);
        }
    }
    crate::text::lemma_first_index_of_unique(text, ';', at);
    assert(text.take(at) == pair);
    assert(text.skip(at + 1) == rest);
}

/// Reading kept text that begins with the entry of a setting puts the
/// setting in place and goes on with what follows.
proof fn lemma_load_after_entry(q: Preferences, s: Setting, rest: Seq<char>)
    ensures
        q.loaded(entry_of(s) + rest) == q.with(s).loaded(rest),
{
    let pair = s.key_of().name_of() + seq!['='] + s.value_name_of();
    let tail = entries(rest);
    lemma_entries_after_entry(s, rest);
    lemma_entry_gives_its_setting(s);
    assert((seq![pair] + tail)[0] == pair);
    assert((seq![pair] + tail).skip(1) == tail);
}

/// Eight texts joined one after the other are the first before the joined
/// rest.
proof fn lemma_join_eight(
    e1: Seq<char>,
    e2: Seq<char>,
    e3: Seq<char>,
    e4: Seq<char>,
    e5: Seq<char>,
    e6: Seq<char>,
    e7: Seq<char>,
    e8: Seq<char>,
)
    ensures
        e1 + e2 + e3 + e4 + e5 + e6 + e7 + e8 == e1 + (e2 + (e3 + (e4 + (e5 + (e6 + (e7 + (e8
            + Seq::<char>::empty()))))))),
{
    assert(e1 + e2 + e3 + e4 + e5 + e6 + e7 + e8 =~= e1 + (e2 + (e3 + (e4 + (e5 + (e6 + (e7 + (e8
        + Seq::<char>::empty()))))))));
}

/// Putting the value of every preference of `p` in place gives `p`.
proof fn lemma_with_every_setting(p: Preferences, q: Preferences)
    ensures
        q.with(p.setting_of(PreferenceKey::NavigationMode)).with(
            p.setting_of(PreferenceKey::NavigationVerbosity),
        ).with(p.setting_of(PreferenceKey::SpeechStyle)).with(
            p.setting_of(PreferenceKey::SpeechVerbosity),
        ).with(p.setting_of(PreferenceKey::TextToSpeech)).with(
            p.setting_of(PreferenceKey::BrailleCode),
        ).with(p.setting_of(PreferenceKey::BrailleDisplay)).with(
            p.setting_of(PreferenceKey::BrailleNavHighlight),
        ) == p,
{
}

/// Reading the empty text changes nothing.
proof fn lemma_load_of_nothing(q: Preferences)
    ensures
        q.loaded(Seq::<char>::empty()) == q,
{
    let nothing = Seq::<char>::empty();
    assert(entries(nothing) == seq![nothing]);
    assert(!nothing.contains('='));
    assert(seq![nothing][0] == nothing);
    assert(seq![nothing].skip(1) == Seq::<Seq<char>>::empty());
    assert(q.with_entries(seq![nothing]) == q.with_entry(nothing).with_entries(
        Seq::<Seq<char>>::empty(),
    ));
}

/// Reading what `serialize` wrote gives the preferences that were written,
/// whatever the preferences were before.
pub proof fn lemma_load_of_serialized(p: Preferences, q: Preferences)
    ensures
        q.loaded(p.serialized()) == p,
{
    let s1 = p.setting_of(PreferenceKey::NavigationMode);
    let s2 = p.setting_of(PreferenceKey::NavigationVerbosity);
    let s3 = p.setting_of(PreferenceKey::SpeechStyle);
    let s4 = p.setting_of(PreferenceKey::SpeechVerbosity);
    let s5 = p.setting_of(PreferenceKey::TextToSpeech);
    let s6 = p.setting_of(PreferenceKey::BrailleCode);
    let s7 = p.setting_of(PreferenceKey::BrailleDisplay);
    let s8 = p.setting_of(PreferenceKey::BrailleNavHighlight);
    let t9 = Seq::<char>::empty();
    let t8 = entry_of(s8) + t9;
    let t7 = entry_of(s7) + t8;
    let t6 = entry_of(s6) + t7;
    let t5 = entry_of(s5) + t6;
    let t4 = entry_of(s4) + t5;
    let t3 = entry_of(s3) + t4;
    let t2 = entry_of(s2) + t3;
    let t1 = entry_of(s1) + t2;
    lemma_join_eight(
        entry_of(s1),
        entry_of(s2),
        entry_of(s3),
        entry_of(s4),
        entry_of(s5),
        entry_of(s6),
        entry_of(s7),
        entry_of(s8),
    );
    let q1 = q.with(s1);
    let q2 = q1.with(s2);
    let q3 = q2.with(s3);
    let q4 = q3.with(s4);
    let q5 = q4.with(s5);
    let q6 = q5.with(s6);
    let q7 = q6.with(s7);
    let q8 = q7.with(s8);
    lemma_load_after_entry(q, s1, t2);
    lemma_load_after_entry(q1, s2, t3);
    lemma_load_after_entry(q2, s3, t4);
    lemma_load_after_entry(q3, s4, t5);
    lemma_load_after_entry(q4, s5, t6);
    lemma_load_after_entry(q5, s6, t7);
    lemma_load_after_entry(q6, s7, t8);
    lemma_load_after_entry(q7, s8, t9);
    lemma_load_of_nothing(q8);
    lemma_with_every_setting(p, q);
}

/// The kept text holds one entry for each preference, in the order of
/// `key_order`, each closed by `;`: split at its `;` it gives the eight
/// entries and, behind the last `;`, nothing.
pub proof fn lemma_serialized_entries(p: Preferences)
    ensures
        entries(p.serialized()).len() == 9,
        forall|i: int|
            0 <= i < 8 ==> #[trigger] entries(p.serialized())[i] == key_order()[i].name_of()
                + seq!['='] + p.setting_of(key_order()[i]).value_name_of(),
        entries(p.serialized())[8] == Seq::<char>::empty(),
        p.serialized().len() > 0 && p.serialized().last() == ';',
{
    let s1 = p.setting_of(PreferenceKey::NavigationMode);
    let s2 = p.setting_of(PreferenceKey::NavigationVerbosity);
    let s3 = p.setting_of(PreferenceKey::SpeechStyle);
    let s4 = p.setting_of(PreferenceKey::SpeechVerbosity);
    let s5 = p.setting_of(PreferenceKey::TextToSpeech);
    let s6 = p.setting_of(PreferenceKey::BrailleCode);
    let s7 = p.setting_of(PreferenceKey::BrailleDisplay);
    let s8 = p.setting_of(PreferenceKey::BrailleNavHighlight);
    let t9 = Seq::<char>::empty();
    let t8 = entry_of(s8) + t9;
    let t7 = entry_of(s7) + t8;
    let t6 = entry_of(s6) + t7;
    let t5 = entry_of(s5) + t6;
    let t4 = entry_of(s4) + t5;
    let t3 = entry_of(s3) + t4;
    let t2 = entry_of(s2) + t3;
    let t1 = entry_of(s1) + t2;
    lemma_join_eight(
        entry_of(s1),
        entry_of(s2),
        entry_of(s3),
        entry_of(s4),
        entry_of(s5),
        entry_of(s6),
        entry_of(s7),
        entry_of(s8),
    );
    lemma_entries_after_entry(s1, t2);
    lemma_entries_after_entry(s2, t3);
    lemma_entries_after_entry(s3, t4);
    lemma_entries_after_entry(s4, t5);
    lemma_entries_after_entry(s5, t6);
    lemma_entries_after_entry(s6, t7);
    lemma_entries_after_entry(s7, t8);
    lemma_entries_after_entry(s8, t9);
    assert(entries(t9) == seq![t9]);
    let es = entries(p.serialized());
    assert(es.len() == 9);
    assert(es[8] == t9);
    assert(p.serialized().last() == entry_of(s8).last());
}

/// An entry without `=` changes nothing, and neither does an entry whose
/// key or value names nothing.
pub proof fn lemma_noise_changes_nothing(p: Preferences, entry: Seq<char>)
    requires
        !entry.contains('=') || forall|s: Setting|
            !s.is_named(entry_key(entry), entry_value(entry)),
    ensures
        p.with_entry(entry) == p,
{
}

/// After kept text is read, each preference has the value it had before, or
/// a value that an entry of the text gives for it.
pub proof fn lemma_load_changes_only_what_entries_give(
    p: Preferences,
    text: Seq<char>,
    key: PreferenceKey,
)
    ensures
        p.loaded(text).setting_of(key) == p.setting_of(key) || exists|i: int|
            0 <= i < entries(text).len() && entry_setting(#[trigger] entries(text)[i]) == Some(
                p.loaded(text).setting_of(key),
            ),
{
    lemma_entries_change_only_what_they_give(p, entries(text), key);
}

proof fn lemma_entries_change_only_what_they_give(
    p: Preferences,
    es: Seq<Seq<char>>,
    key: PreferenceKey,
)
    ensures
        p.with_entries(es).setting_of(key) == p.setting_of(key) || exists|i: int|
            0 <= i < es.len() && entry_setting(#[trigger] es[i]) == Some(
                p.with_entries(es).setting_of(key),
            ),
    decreases es.len(),
{
    if es.len() > 0 {
        let next = p.with_entry(es[0]);
        let tail = es.skip(1);
        lemma_entries_change_only_what_they_give(next, tail, key);
        let last = next.with_entries(tail).setting_of(key);
        if last == next.setting_of(key) {
            if next.setting_of(key) != p.setting_of(key) {
                let s = entry_setting(es[0])->0;
                lemma_with_changes_one_preference(p, s, key);
                assert(entry_setting(es[0]) == Some(last));
            }
        } else {
            let i: int = choose|i: int|
                0 <= i < tail.len() && entry_setting(#[trigger] tail[i]) == Some(last);
            assert(tail[i] == es[i + 1]);
            assert(entry_setting(es[i + 1]) == Some(last));
        }
    }
}

} // verus!
