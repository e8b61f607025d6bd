//! The configuration and script that ship with the program.
use vstd::prelude::*;
use crate::error::AppError;
use crate::settings::Settings;
use crate::settings::SubCommand;

verus! {

/// The script written when none exists yet.
pub const DEFAULT_SCRIPT: &'static str = "#!/usr/bin/env sh\n\n# Arguments: <address> <username> <hostname> <port> <debug>\nADDRESS=\"$1\"\nPORT=\"$4\"\nDEBUG=\"$5\"\n\nif test \"$DEBUG\" = \"1\"; then\n    set -x\nfi\n\nexec ssh -p \"$PORT\" \"$ADDRESS\"\n";

/// The configuration written when none exists yet.
pub const DEFAULT_CONFIGURATION: &'static str = "# Each table is one server.\n#\n# [name]\n# hostname = \"example.com\"   # required\n# port = 22                    # optional\n# users = [\"root\"]            # optional\n# description = \"...\"         # optional\n\n[localhost]\nhostname = \"127.0.0.1\"\nusers = [\"root\"]\ndescription = \"This machine\"\n";

/// Which sample to show.
#[derive(Debug, Clone, Copy, PartialEq, Eq, Structural)]
pub enum Samples {
    Config,
    Script,
}

/// The text of a sample.
pub open spec fn sample_text(sample: Samples) -> Seq<char> {
    match sample {
        Samples::Config => DEFAULT_CONFIGURATION@,
        Samples::Script => DEFAULT_SCRIPT@,
    }
}

/// The sample that the settings ask for, as the text to print.
pub fn run(settings: &Settings) -> (text: Result<String, AppError>)
    requires
        settings.subcommand is Sample,
    ensures
        text is Ok,
        forall|sample: Samples|
            settings.subcommand == SubCommand::Sample(sample) ==> text.unwrap()@ == sample_text(
                sample,
            ),
{
    match settings.subcommand {
        SubCommand::Sample(Samples::Script) => Ok(sample_script()),
        SubCommand::Sample(Samples::Config) => Ok(sample_config()),
        _ => Ok(String::new()),
    }
}

/// The configuration that ships with the program.
pub fn sample_config() -> (text: String)
    ensures
        text@ == DEFAULT_CONFIGURATION@,
{
    String::from_str(DEFAULT_CONFIGURATION)
}

/// The script that ships with the program.
pub fn sample_script() -> (text: String)
    ensures
        text@ == DEFAULT_SCRIPT@,
{
    String::from_str(DEFAULT_SCRIPT)
}

} // verus!
