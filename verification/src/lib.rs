//! Session control for an accessible-math viewer.
//!
//! A viewer shows a math expression that its user typed, together with the
//! speech and the braille that an accessibility engine derives from it, and
//! lets the user walk through the expression with the keyboard. This
//! library decides what each event of the viewer does: which notation a
//! text is written in, when speech and braille have to be computed anew,
//! and what a key press means.
//!
//! - `notation` finds the notation of a submitted text and prepares markup.
//! - `braille` turns braille cells into ASCII braille.
//! - `preferences` holds the preferences and their kept text.
//! - `session` holds the state and the transitions between states.
//! - `navigation` tells the navigation keys from the others.
//! - `coordinator` handles an event from its start to its end.
//! - `engine` is the accessibility engine as the library calls it.
//! - `rules` takes in rule files that the user hands to the viewer.
//! - `text` holds the text primitives that the others share.

pub mod braille;
pub mod coordinator;
pub mod engine;
pub mod navigation;
pub mod notation;
pub mod preferences;
pub mod rules;
pub mod session;
pub mod text;
