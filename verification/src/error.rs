//! Everything that can go wrong, and how each failure reads.
use vstd::prelude::*;
use crate::text::join2;
use crate::text::join3;
use crate::text::views;

verus! {

/// A failure of the picker. A `source` field holds the message of the
/// failure underneath.
#[derive(Debug)]
pub enum AppError {
    FileWrite { title: &'static str, filename: String, source: String },
    FileRead { title: &'static str, filename: String, source: String },
    FileSetPermission { title: &'static str, filename: String, source: String },
    ConfigSyntax { filename: String, source: String },
    FileAlreadyExists { title: &'static str, filename: String },
    CommandNotFound { title: &'static str, command: String },
    EditorFastStop,
    ProcessStart { title: &'static str, command: String, argument_list: Vec<String>, source: String },
    ProcessWait { title: &'static str, command: String, argument_list: Vec<String>, source: String },
    ProcessFailed { title: &'static str, command: String, argument_list: Vec<String>, source: String },
    UI { source: String },
}

/// The text that the standard debug formatting gives for a string: the
/// string between double quotes, with its special characters escaped.
pub uninterp spec fn debug_quoted(text: Seq<char>) -> Seq<char>;

/// Formats a string with `{:?}` of the standard library. The contract only
/// names the result: the same text always gives the same quoted text.
#[verifier::external_body]
pub(crate) fn debug_text(text: &str) -> (quoted: String)
    ensures
        quoted@ == debug_quoted(text@),
{
    format!("{:?}", text)
}

/// The first `end` items of `items`, each quoted, separated by a comma and
/// a space.
pub open spec fn debug_joined(items: Seq<Seq<char>>, end: int) -> Seq<char>
    decreases end,
{
    if end <= 0 {
        Seq::<char>::empty()
    } else if end == 1 {
        debug_quoted(items[0])
    } else {
        debug_joined(items, end - 1) + ", "@ + debug_quoted(items[end - 1])
    }
}

/// The debug formatting of a list of strings: the quoted items between
/// square brackets, separated by a comma and a space.
pub open spec fn debug_list(items: Seq<Seq<char>>) -> Seq<char> {
    "["@ + debug_joined(items, items.len() as int) + "]"@
}

/// Formats a list of strings as the standard debug formatting does.
pub fn debug_list_text(items: &Vec<String>) -> (text: String)
    ensures
        text@ == debug_list(views(items@)),
{
    let ghost all = views(items@);
    let mut text = String::from_str("[");
    let mut i: usize = 0;
    proof {
        assert(text@ =~= "["@ + debug_joined(all, 0));
    }
    while i < items.len()
        invariant
            i <= items.len(),
            all == views(items@),
            text@ == "["@ + debug_joined(all, i as int),
        decreases items.len() - i,
    {
        if i > 0 {
            text.append(", ");
        }
        let quoted = debug_text(items[i].as_str());
        text.append(quoted.as_str());
        proof {
            assert(all[i as int] == items@[i as int]@);
            assert(text@ =~= "["@ + debug_joined(all, i + 1));
        }
        i += 1;
    }
    text.append("]");
    proof {
        assert(text@ =~= debug_list(all));
    }
    text
}

/// The tail shared by the three process failures.
pub open spec fn process_text(
    head: Seq<char>,
    title: Seq<char>,
    middle: Seq<char>,
    command: Seq<char>,
    link: Seq<char>,
    argument_list: Seq<Seq<char>>,
    tail: Seq<char>,
) -> Seq<char> {
    head + title + middle + debug_quoted(command) + link + debug_list(argument_list) + tail
}

fn process_message(
    head: &str,
    title: &str,
    middle: &str,
    command: &String,
    link: &str,
    argument_list: &Vec<String>,
    tail: &str,
) -> (text: String)
    ensures
        text@ == process_text(
            head@,
            title@,
            middle@,
            command@,
            link@,
            views(argument_list@),
            tail@,
        ),
{
    let quoted = debug_text(command.as_str());
    let list = debug_list_text(argument_list);
    join3(head, title, middle).concat(quoted.as_str()).concat(link).concat(list.as_str()).concat(
        tail,
    )
}

impl AppError {
    /// The one-line description of the failure.
    pub open spec fn message_text(&self) -> Seq<char> {
        match self {
            AppError::FileWrite { title, filename, .. } => "Could not write to "@ + title@
                + " file "@ + debug_quoted(filename@),
            AppError::FileRead { title, filename, .. } => "Could not read "@ + title@ + " file "@
                + debug_quoted(filename@),
            AppError::FileSetPermission {
                title,
                filename,
                ..
            } => "Could not set execute permissions for "@ + title@ + " file "@ + debug_quoted(
                filename@,
            ),
            AppError::ConfigSyntax { filename, .. } => "Could not decode configuration from "@
                + debug_quoted(filename@),
            AppError::FileAlreadyExists { title, filename } => title@ + " "@ + debug_quoted(
                filename@,
            ) + " already exists"@,
            AppError::CommandNotFound { title, command } => title@ + " command "@ + debug_quoted(
                command@,
            ) + " not found."@,
            AppError::EditorFastStop => "Editor process was running for less than 2 seconds!\nMaybe your editor opened the edit tab inside another session."@,
            AppError::ProcessStart { title, command, argument_list, .. } => process_text(
                "Could not start "@,
                title@,
                " process with command "@,
                command@,
                " and arguments "@,
                views(argument_list@),
                ""@,
            ),
            AppError::ProcessWait { title, command, argument_list, .. } => process_text(
                "Could not wait for "@,
                title@,
                " process running command "@,
                command@,
                " with argument "@,
                views(argument_list@),
                ""@,
            ),
            AppError::ProcessFailed { title, command, argument_list, .. } => process_text(
                ""@,
                title@,
                " process running command "@,
                command@,
                " with argument "@,
                views(argument_list@),
                " failed"@,
            ),
            AppError::UI { .. } => "UI error"@,
        }
    }

    /// The message of the failure underneath, where there is one.
    pub open spec fn source_text(&self) -> Option<Seq<char>> {
        match self {
            AppError::FileWrite { source, .. } => Some(source@),
            AppError::FileRead { source, .. } => Some(source@),
            AppError::FileSetPermission { source, .. } => Some(source@),
            AppError::ConfigSyntax { source, .. } => Some(source@),
            AppError::FileAlreadyExists { .. } => None,
            AppError::CommandNotFound { .. } => None,
            AppError::EditorFastStop => None,
            AppError::ProcessStart { source, .. } => Some(source@),
            AppError::ProcessWait { source, .. } => Some(source@),
            AppError::ProcessFailed { source, .. } => Some(source@),
            AppError::UI { source } => Some(source@),
        }
    }

    /// The failure and what lies underneath it, each on a line of its own
    /// after `prefix`.
    pub open spec fn chain_text(&self, prefix: Seq<char>) -> Seq<char> {
        match self.source_text() {
            Some(source) => prefix + "\n"@ + self.message_text() + "\n"@ + source,
            None => prefix + "\n"@ + self.message_text(),
        }
    }

    /// Describes the failure in one line.
    pub fn message(&self) -> (text: String)
        ensures
            text@ == self.message_text(),
    {
        match self {
            AppError::FileWrite { title, filename, .. } => {
                let quoted = debug_text(filename.as_str());
                join3("Could not write to ", title, " file ").concat(quoted.as_str())
            },
            AppError::FileRead { title, filename, .. } => {
                let quoted = debug_text(filename.as_str());
                join3("Could not read ", title, " file ").concat(quoted.as_str())
            },
            AppError::FileSetPermission { title, filename, .. } => {
                let quoted = debug_text(filename.as_str());
                join3("Could not set execute permissions for ", title, " file ").concat(
                    quoted.as_str(),
                )
            },
            AppError::ConfigSyntax { filename, .. } => {
                let quoted = debug_text(filename.as_str());
                join2("Could not decode configuration from ", quoted.as_str())
            },
            AppError::FileAlreadyExists { title, filename } => {
                let quoted = debug_text(filename.as_str());
                join3(title, " ", quoted.as_str()).concat(" already exists")
            },
            AppError::CommandNotFound { title, command } => {
                let quoted = debug_text(command.as_str());
                join3(title, " command ", quoted.as_str()).concat(" not found.")
            },
            AppError::EditorFastStop => String::from_str(
                "Editor process was running for less than 2 seconds!\nMaybe your editor opened the edit tab inside another session.",
            ),
            AppError::ProcessStart { title, command, argument_list, .. } => process_message(
                "Could not start ",
                title,
                " process with command ",
                command,
                " and arguments ",
                argument_list,
                "",
            ),
            AppError::ProcessWait { title, command, argument_list, .. } => process_message(
                "Could not wait for ",
                title,
                " process running command ",
                command,
                " with argument ",
                argument_list,
                "",
            ),
            AppError::ProcessFailed { title, command, argument_list, .. } => process_message(
                "",
                title,
                " process running command ",
                command,
                " with argument ",
                argument_list,
                " failed",
            ),
            AppError::UI { .. } => String::from_str("UI error"),
        }
    }

    /// The message of the failure underneath, where there is one.
    pub fn source(&self) -> (source: Option<&String>)
        ensures
            match source {
                Some(text) => self.source_text() == Some(text@),
                None => self.source_text() is None,
            },
    {
        match self {
            AppError::FileWrite { source, .. } => Some(source),
            AppError::FileRead { source, .. } => Some(source),
            AppError::FileSetPermission { source, .. } => Some(source),
            AppError::ConfigSyntax { source, .. } => Some(source),
            AppError::FileAlreadyExists { .. } => None,
            AppError::CommandNotFound { .. } => None,
            AppError::EditorFastStop => None,
            AppError::ProcessStart { source, .. } => Some(source),
            AppError::ProcessWait { source, .. } => Some(source),
            AppError::ProcessFailed { source, .. } => Some(source),
            AppError::UI { source } => Some(source),
        }
    }
}

/// Writes a failure and the failure underneath it below `prefix`, one line
/// each.
pub fn error_to_string(error: &AppError, prefix: String) -> (text: String)
    ensures
        text@ == error.chain_text(prefix@),
{
    let message = error.message();
    let text = prefix.concat("\n").concat(message.as_str());
    match error.source() {
        Some(source) => text.concat("\n").concat(source.as_str()),
        None => text,
    }
}

} // verus!
