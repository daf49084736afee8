//! Keyboard navigation: which keys are taken, and what a move of the
//! engine's navigation does to the session.

use crate::session::{Session, SessionView};
use crate::text::{chars_of, spells};
use vstd::prelude::*;

verus! {

/// The logical name of the key that gives up focus.
pub const ESCAPE_KEY: &'static str = "Escape";

/// What is shown, and not vocalized, when the engine rejects a move.
pub const NAVIGATION_REJECTED_MESSAGE: &'static str =
    "Error in Navigation (key combo not yet implemented)";

/// The key code of Backspace.
pub const KEY_BACKSPACE: u32 = 8;

/// The key code of Enter.
pub const KEY_ENTER: u32 = 13;

/// The key code of Space.
pub const KEY_SPACE: u32 = 32;

/// The key code of End.
pub const KEY_END: u32 = 35;

/// The key code of Home.
pub const KEY_HOME: u32 = 36;

/// The key code of the left arrow, the first of the four arrows.
pub const KEY_ARROW_LEFT: u32 = 37;

/// The key code of the up arrow.
pub const KEY_ARROW_UP: u32 = 38;

/// The key code of the right arrow.
pub const KEY_ARROW_RIGHT: u32 = 39;

/// The key code of the down arrow, the last of the four arrows.
pub const KEY_ARROW_DOWN: u32 = 40;

/// The key code of the digit 0, the first of the digits.
pub const KEY_DIGIT_0: u32 = 48;

/// The key code of the digit 9, the last of the digits.
pub const KEY_DIGIT_9: u32 = 57;

/// A key press on the rendered expression.
#[derive(Clone, Debug, PartialEq, Eq)]
pub struct KeyEvent {
    /// The logical name of the key.
    pub key: String,
    /// The code of the key.
    pub key_code: u32,
    /// Whether Shift was held.
    pub shift: bool,
    /// Whether Control was held.
    pub ctrl: bool,
    /// Whether Alt was held.
    pub alt: bool,
    /// Whether Meta was held.
    pub meta: bool,
}

/// Whether a key press was taken.
#[derive(Clone, Copy, Debug, PartialEq, Eq, Structural)]
pub enum NavOutcome {
    /// The key was taken.
    Consumed,
    /// The key is none of navigation's: it keeps its default behaviour.
    Ignored,
}

/// What a key press asks for.
#[derive(Clone, Copy, Debug, PartialEq, Eq, Structural)]
pub enum KeyAction {
    /// Take the focus off the rendered expression.
    ClearFocus,
    /// Hand the key to the engine's navigation.
    Navigate,
    /// Nothing: the key is not a navigation key.
    PassThrough,
}

/// Where a move of navigation arrived, and what it says.
#[derive(Clone, Debug, PartialEq, Eq)]
pub struct NavigationMove {
    /// The speech of the move.
    pub speech: String,
    /// The structural id of the node that the move arrived at.
    pub node_id: String,
    /// The offset in that node.
    pub offset: usize,
}

/// What the viewer has to do after a key press.
#[derive(Clone, Debug, PartialEq, Eq)]
pub enum KeyEffect {
    /// Nothing.
    Nothing,
    /// Take the focus off the rendered expression.
    ClearFocus,
    /// Highlight the node with this structural id.
    Highlight(String),
    /// Show this message, without vocalizing it.
    Announce(String),
}

/// The answer to a key press.
#[derive(Clone, Debug, PartialEq, Eq)]
pub struct KeyResponse {
    /// Whether the key was taken.
    pub outcome: NavOutcome,
    /// Whether the key's default behaviour has to be suppressed.
    pub suppress_default: bool,
    /// What the viewer has to do.
    pub effect: KeyEffect,
}

/// Whether `code` is the code of a navigation key: Enter, Space, Home, End,
/// Backspace, one of the four arrows, or a digit.
pub open spec fn is_navigation_code(code: u32) -> bool {
    ||| code == KEY_ENTER
    ||| code == KEY_SPACE
    ||| code == KEY_HOME
    ||| code == KEY_END
    ||| code == KEY_BACKSPACE
    ||| KEY_ARROW_LEFT <= code <= KEY_ARROW_DOWN
    ||| KEY_DIGIT_0 <= code <= KEY_DIGIT_9
}

/// What a key press asks for. The escape key goes first, whatever its code;
/// then the navigation keys; every other key passes through.
pub open spec fn action_for(key: Seq<char>, code: u32) -> KeyAction {
    if key == ESCAPE_KEY@ {
        KeyAction::ClearFocus
    } else if is_navigation_code(code) {
        KeyAction::Navigate
    } else {
        KeyAction::PassThrough
    }
}

/// Whether `code` is the code of a navigation key.
pub fn is_navigation_key(code: u32) -> (r: bool)
    ensures
        r == is_navigation_code(code),
{
    code == KEY_ENTER || code == KEY_SPACE || code == KEY_HOME || code == KEY_END || code
        == KEY_BACKSPACE || (KEY_ARROW_LEFT <= code && code <= KEY_ARROW_DOWN) || (KEY_DIGIT_0
        <= code && code <= KEY_DIGIT_9)
}

/// What a key press asks for.
pub fn classify_key(event: &KeyEvent) -> (action: KeyAction)
    ensures
        action == action_for(event.key@, event.key_code),
{
    let name = chars_of(event.key.as_str());
    if spells(&name, ESCAPE_KEY) {
        KeyAction::ClearFocus
    } else if is_navigation_key(event.key_code) {
        KeyAction::Navigate
    } else {
        KeyAction::PassThrough
    }
}

/// The answer to the escape key: the focus is given up, and the key keeps
/// its default behaviour.
pub fn focus_cleared() -> (r: KeyResponse)
    ensures
        r.outcome == NavOutcome::Consumed,
        !r.suppress_default,
        r.effect is ClearFocus,
{
    KeyResponse {
        outcome: NavOutcome::Consumed,
        suppress_default: false,
        effect: KeyEffect::ClearFocus,
    }
}

/// The answer to a key that is none of navigation's.
pub fn passed_through() -> (r: KeyResponse)
    ensures
        r.outcome == NavOutcome::Ignored,
        !r.suppress_default,
        r.effect is Nothing,
{
    KeyResponse {
        outcome: NavOutcome::Ignored,
        suppress_default: false,
        effect: KeyEffect::Nothing,
    }
}

/// Puts a move together from its speech and from what the engine answered
/// when it was asked where navigation arrived. Where the engine cannot say
/// where, there is no move, and the error is the engine's.
pub fn arrival(speech: String, position: Result<(String, usize), String>) -> (r: Result<
    NavigationMove,
    String,
>)
    ensures
        position matches Ok(place) ==> (r matches Ok(arrived) && arrived.speech@ == speech@
            && arrived.node_id@ == place.0@ && arrived.offset == place.1),
        position matches Err(detail) ==> (r matches Err(words) && words@ == detail@),
{
    match position {
        Ok((node_id, offset)) => Ok(NavigationMove { speech, node_id, offset }),
        Err(detail) => Err(detail),
    }
}

/// Takes in what the engine's navigation answered to a navigation key. A
/// move is taken into the session and its node has to be highlighted; a
/// rejection leaves the session as it is and is announced with the fixed
/// message. Either way the key was taken and its default is suppressed.
pub fn apply_navigation(session: &mut Session, answer: Result<NavigationMove, String>) -> (r:
    KeyResponse)
    ensures
        r.outcome == NavOutcome::Consumed,
        r.suppress_default,
        answer matches Ok(arrived) ==> final(session)@ == old(session)@.after_move(
            arrived.speech@,
            arrived.node_id@,
        ),
        answer matches Ok(arrived) ==> (r.effect matches KeyEffect::Highlight(id) && id@
            == arrived.node_id@),
        answer is Err ==> final(session)@ == old(session)@,
        answer is Err ==> (r.effect matches KeyEffect::Announce(message) && message@
            == NAVIGATION_REJECTED_MESSAGE@),
{
    match answer {
        Ok(arrived) => {
            let highlighted = arrived.node_id.clone();
            session.accept_move(arrived.speech, arrived.node_id);
            KeyResponse {
                outcome: NavOutcome::Consumed,
                suppress_default: true,
                effect: KeyEffect::Highlight(highlighted),
            }
        },
        Err(_) => KeyResponse {
            outcome: NavOutcome::Consumed,
            suppress_default: true,
            effect: KeyEffect::Announce(NAVIGATION_REJECTED_MESSAGE.to_owned()),
        },
    }
}

/// A move of navigation sets the focus and the spoken text from the move
/// itself, makes braille stale and the speech due, and leaves the flag of
/// the spoken text, the expression and the preferences as they were.
pub proof fn lemma_move_bypasses_speech_regeneration(
    s: SessionView,
    speech: Seq<char>,
    node_id: Seq<char>,
)
    ensures
        s.after_move(speech, node_id).focused_node_id == node_id,
        s.after_move(speech, node_id).speech_text == speech,
        s.after_move(speech, node_id).flags.braille_stale,
        s.after_move(speech, node_id).flags.should_speak_now,
        s.after_move(speech, node_id).flags.speech_stale == s.flags.speech_stale,
        s.after_move(speech, node_id).canonical_markup == s.canonical_markup,
        s.after_move(speech, node_id).preferences == s.preferences,
        s.after_move(speech, node_id).braille_text == s.braille_text,
{
}

} // verus!
