//! Rule files that the user hands to the viewer, to try them out in place
//! of the engine's own.

use crate::text::{append_str, chars_of, string_of};
use vstd::prelude::*;

verus! {

/// Where the rule files of the language stand. Of a file that the user
/// picks only the name is known, so this is where it is taken to belong.
pub const RULE_FILE_DIRECTORY: &'static str = "Rules/Languages/en/";

/// A rule file that takes the place of the engine's own.
#[derive(Clone, Debug, PartialEq, Eq)]
pub struct RuleFile {
    /// The path of the file that is replaced.
    pub path: String,
    /// What the file holds.
    pub contents: String,
}

/// Takes in a rule file that the user picked: says which of the engine's
/// files it replaces, and with what.
pub fn load_yaml_file(file_name: &str, contents: &str) -> (r: RuleFile)
    ensures
        r.path@ == RULE_FILE_DIRECTORY@ + file_name@,
        r.contents@ == contents@,
{
    let mut path = chars_of(RULE_FILE_DIRECTORY);
    append_str(&mut path, file_name);
    RuleFile { path: string_of(&path), contents: contents.to_owned() }
}

} // verus!
