//! Showing the script file.
use vstd::prelude::*;
use crate::error::debug_quoted;
use crate::error::debug_text;
use crate::settings::Settings;
use crate::text::join3;

verus! {

/// What is printed for the script: its text, and on a line of its own
/// where the file is.
pub open spec fn listing(script: Seq<char>, file: Seq<char>) -> Seq<char> {
    script + "\n# file: "@ + debug_quoted(file) + "\n"@
}

/// Words the current script for printing.
pub fn run(settings: &Settings) -> (text: String)
    ensures
        text@ == listing(settings.script@, settings.script_file@),
{
    let quoted = debug_text(settings.script_file.as_str());
    join3(settings.script.as_str(), "\n# file: ", quoted.as_str()).concat("\n")
}

} // verus!
