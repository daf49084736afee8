//! The accessibility engine, as this library calls it.
//!
//! The engine keeps the registered expression, the preferences and the place
//! of navigation to itself, and reads its rules from files. What a call
//! answers therefore depends on more than its arguments, and nothing is
//! claimed of any answer here: the callers are verified for every answer.

use vstd::prelude::*;

verus! {

/// The engine's error type, `libmathcat::errors::Error`. The library carries
/// such a value from a call to `engine_error_text` and looks at nothing in
/// it.
#[verifier::external_type_specification]
#[verifier::external_body]
pub struct ExEngineError(libmathcat::errors::Error);

/// Calls `libmathcat::errors_to_string`, which writes out an error and its
/// causes. Nothing is claimed of the text.
#[verifier::external_body]
pub(crate) fn engine_error_text(error: &libmathcat::errors::Error) -> (text: String) {
    libmathcat::errors_to_string(error)
}

/// Calls `libmathcat::get_version`, which answers with the version of the
/// engine that the library was built with. Nothing is claimed of the text.
#[verifier::external_body]
pub(crate) fn engine_version() -> (version: String) {
    libmathcat::get_version()
}

/// Calls `libmathcat::set_rules_dir`, which makes the engine ready to work
/// with the rules under `dir`, or answers with an error where it finds none
/// there. Nothing is claimed of the answer.
#[verifier::external_body]
pub(crate) fn engine_start(dir: &str) -> (answer: Result<(), libmathcat::errors::Error>) {
    libmathcat::set_rules_dir(dir)
}

/// Calls `libmathcat::set_mathml`, which makes `markup` the engine's current
/// expression and answers with its canonical form, an id set on every node
/// that had none, or with an error where the markup cannot be read. Nothing
/// is claimed of the answer.
#[verifier::external_body]
pub(crate) fn engine_register(markup: &str) -> (answer: Result<
    String,
    libmathcat::errors::Error,
>) {
    libmathcat::set_mathml(markup)
}

/// Calls `libmathcat::set_preference`, which sets the engine's preference
/// `name` to `value` or answers with an error. Nothing is claimed of the
/// answer.
#[verifier::external_body]
pub(crate) fn engine_set_preference(name: &str, value: &str) -> (answer: Result<
    (),
    libmathcat::errors::Error,
>) {
    libmathcat::set_preference(name, value)
}

/// Calls `libmathcat::get_spoken_text`, which answers with the speech of the
/// engine's current expression under its current preferences. Nothing is
/// claimed of the answer.
#[verifier::external_body]
pub(crate) fn engine_speech() -> (answer: Result<String, libmathcat::errors::Error>) {
    libmathcat::get_spoken_text()
}

/// Calls `libmathcat::get_braille`, which answers with the braille of the
/// engine's current expression, the node with id `focused` highlighted
/// where the id is not empty. Nothing is claimed of the answer.
#[verifier::external_body]
pub(crate) fn engine_braille(focused: &str) -> (answer: Result<
    String,
    libmathcat::errors::Error,
>) {
    libmathcat::get_braille(focused)
}

/// Calls `libmathcat::do_navigate_keypress`, which moves the engine's place
/// of navigation as the key asks and answers with the speech of the move, or
/// with an error where the key asks for no move. Nothing is claimed of the
/// answer.
#[verifier::external_body]
pub(crate) fn engine_navigate(key: usize, shift: bool, ctrl: bool, alt: bool, meta: bool) -> (answer:
    Result<String, libmathcat::errors::Error>) {
    libmathcat::do_navigate_keypress(key, shift, ctrl, alt, meta)
}

/// Calls `libmathcat::get_navigation_mathml_id`, which answers with the id
/// of the node that the engine's navigation is at and the offset in it.
/// Nothing is claimed of the answer.
#[verifier::external_body]
pub(crate) fn engine_focus() -> (answer: Result<(String, usize), libmathcat::errors::Error>) {
    libmathcat::get_navigation_mathml_id()
}

} // verus!
