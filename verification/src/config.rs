//! Showing the configuration file.
use vstd::prelude::*;
use crate::error::debug_quoted;
use crate::error::debug_text;
use crate::settings::Settings;
use crate::text::join3;

verus! {

/// What is printed for the configuration: where the file is, how to edit
/// it, an empty line, and the text of the file as it was read.
pub open spec fn listing(file: Seq<char>, raw: Seq<char>) -> Seq<char> {
    "# file: "@ + debug_quoted(file) + "\n# Use `sssh edit` to edit this file.\n\n"@ + raw
}

/// Words the current configuration for printing.
pub fn run(settings: &Settings) -> (text: String)
    ensures
        text@ == listing(settings.configuration_file@, settings.configuration@.raw),
{
    let quoted = debug_text(settings.configuration_file.as_str());
    join3("# file: ", quoted.as_str(), "\n# Use `sssh edit` to edit this file.\n\n").concat(
        settings.configuration.raw.as_str(),
    )
}

} // verus!
