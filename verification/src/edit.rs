//! Editing the configuration file with an outside editor: what to start,
//! how to judge the way the editor ended, and how a failure is shown.
use vstd::prelude::*;
use crate::error::debug_quoted;
use crate::error::debug_text;
use crate::error::error_to_string;
use crate::error::AppError;
use crate::settings::editor_arguments;
use crate::settings::Config;
use crate::settings::Settings;
use crate::text::clone_strings;
use crate::text::views;

verus! {

/// An editor that comes back sooner than this many seconds has most likely
/// handed the file to a window that was already open. This is a rule of
/// thumb, not a guarantee.
pub const MINIMUM_EDITOR_SECONDS: u64 = 2;

/// What happened outside since the last request.
#[derive(Debug)]
pub enum EditEvent {
    /// Nothing yet: the edit is about to begin.
    Begin,
    /// The editor ended after so many seconds, or could not be run.
    EditorExited(Result<u64, AppError>),
    /// The configuration file was read again.
    Loaded(Result<Config, AppError>),
}

/// What is to be done outside next.
#[derive(Debug)]
pub enum EditRequest {
    RunEditor { command: String, argument_list: Vec<String> },
    LoadConfiguration,
    Finish(Result<(), AppError>),
}

/// How an edit proceeds from `pre` on `event`: it begins by settling the
/// editor's arguments and asking for the editor; an editor that failed or
/// came back too soon ends the edit with that failure; otherwise the file
/// is read again, and the outcome of reading it ends the edit.
pub open spec fn edit_step(pre: Settings, event: EditEvent, post: Settings, request: EditRequest) -> bool {
    match event {
        EditEvent::Begin => {
            &&& post.same_but_editor_arguments(&pre)
            &&& views(post.editor_argument_list@) == editor_arguments(
                pre.editor_command@,
                views(pre.editor_argument_list@),
                pre.configuration_file@,
            )
            &&& request matches EditRequest::RunEditor { command, argument_list }
            &&& command@ == pre.editor_command@
            &&& views(argument_list@) == views(post.editor_argument_list@)
        },
        EditEvent::EditorExited(Ok(seconds)) => {
            &&& post == pre
            &&& seconds < MINIMUM_EDITOR_SECONDS ==> request == EditRequest::Finish(
                Err(AppError::EditorFastStop),
            )
            &&& seconds >= MINIMUM_EDITOR_SECONDS ==> request is LoadConfiguration
        },
        EditEvent::EditorExited(Err(error)) => {
            &&& post == pre
            &&& request == EditRequest::Finish(Err(error))
        },
        EditEvent::Loaded(Ok(config)) => {
            &&& post.same_but_configuration(&pre)
            &&& post.configuration@ == config@
            &&& request == EditRequest::Finish(Ok(()))
        },
        EditEvent::Loaded(Err(error)) => {
            &&& post == pre
            &&& request == EditRequest::Finish(Err(error))
        },
    }
}

/// Takes one step of an edit: reacts to what happened outside and says what
/// is to be done next.
pub fn run(settings: &mut Settings, event: EditEvent) -> (request: EditRequest)
    ensures
        edit_step(*old(settings), event, *final(settings), request),
{
    match event {
        EditEvent::Begin => {
            let _ = settings.ensure_editor_command();
            EditRequest::RunEditor {
                command: settings.editor_command.clone(),
                argument_list: clone_strings(&settings.editor_argument_list),
            }
        },
        EditEvent::EditorExited(Ok(seconds)) => {
            if seconds < MINIMUM_EDITOR_SECONDS {
                EditRequest::Finish(Err(AppError::EditorFastStop))
            } else {
                EditRequest::LoadConfiguration
            }
        },
        EditEvent::EditorExited(Err(error)) => EditRequest::Finish(Err(error)),
        EditEvent::Loaded(loaded) => {
            match settings.try_load_and_set_configuration(loaded) {
                Ok(_) => EditRequest::Finish(Ok(())),
                Err(error) => EditRequest::Finish(Err(error)),
            }
        },
    }
}

/// The text shown over the lists after an edit failed with `error`, or
/// `None` if the failure is not one to recover from. A configuration that
/// does not parse, an editor that came back too soon and an editor process
/// that failed are shown; the last two with advice on what to do.
pub open spec fn edit_overlay(error: AppError, configuration_file: Seq<char>) -> Option<Seq<char>> {
    match error {
        AppError::ConfigSyntax { .. } => Some(error.chain_text(Seq::<char>::empty())),
        AppError::EditorFastStop => Some(
            error.chain_text(Seq::<char>::empty())
                + "\nAfter editing configuration file press `r` to reload it.\n\nfile: "@
                + debug_quoted(configuration_file),
        ),
        AppError::ProcessStart { .. } | AppError::ProcessWait { .. } | AppError::ProcessFailed {
            ..
        } => Some(
            error.chain_text(Seq::<char>::empty())
                + "\nEdit the file manually and press `r` to reload it."@,
        ),
        _ => None,
    }
}

/// Turns the outcome of an edit into what the picker shows next: nothing
/// after a good edit, a text over the lists after a failure to recover
/// from, and the failure itself otherwise.
pub fn edit_and_convert_errors(edited: Result<(), AppError>, configuration_file: &String) -> (shown:
    Result<Option<String>, AppError>)
    ensures
        edited is Ok ==> shown == Ok::<Option<String>, AppError>(None),
        edited matches Err(error) ==> match edit_overlay(error, configuration_file@) {
            Some(text) => shown matches Ok(Some(overlay)) && overlay@ == text,
            None => shown == Err::<Option<String>, AppError>(error),
        },
{
    match edited {
        Ok(_) => Ok(None),
        Err(error) => {
            match error {
                AppError::ConfigSyntax { .. } => Ok(Some(error_to_string(&error, String::new()))),
                AppError::EditorFastStop => {
                    let quoted = debug_text(configuration_file.as_str());
                    Ok(
                        Some(
                            error_to_string(&error, String::new()).concat(
                                "\nAfter editing configuration file press `r` to reload it.\n\nfile: ",
                            ).concat(quoted.as_str()),
                        ),
                    )
                },
                AppError::ProcessStart { .. } => Ok(Some(manual_advice(&error))),
                AppError::ProcessWait { .. } => Ok(Some(manual_advice(&error))),
                AppError::ProcessFailed { .. } => Ok(Some(manual_advice(&error))),
                _ => Err(error),
            }
        },
    }
}

/// The failure, followed by the advice to edit by hand.
fn manual_advice(error: &AppError) -> (text: String)
    ensures
        text@ == error.chain_text(Seq::<char>::empty())
            + "\nEdit the file manually and press `r` to reload it."@,
{
    error_to_string(error, String::new()).concat(
        "\nEdit the file manually and press `r` to reload it.",
    )
}

} // verus!
