//! The session loop as a state machine: it reacts to what happened outside
//! (a file was read, a key was pressed, a process ended) and says what is to
//! be done outside next.
use vstd::prelude::*;
use crate::edit::edit_and_convert_errors;
use crate::edit::edit_overlay;
use crate::edit::MINIMUM_EDITOR_SECONDS;
use crate::error::AppError;
use crate::keys::Key;
use crate::keys::KeyAction;
use crate::layout::Area;
use crate::sample::DEFAULT_CONFIGURATION;
use crate::select::choice_message;
use crate::select::choice_text;
use crate::select::control_flow_of;
use crate::select::environment_views;
use crate::select::run_script;
use crate::select::script_arguments;
use crate::select::script_environment;
use crate::select::sorted_by_name;
use crate::select::ControlFlow;
use crate::select::ScriptCall;
use crate::select::State;
use crate::settings::all_have_identity;
use crate::settings::all_identified;
use crate::settings::clone_servers;
use crate::settings::editor_arguments;
use crate::settings::Config;
use crate::settings::Settings;
use crate::text::clone_strings;
use crate::text::views;
use crate::theme::Theme;
use crate::ui::draw_ui;
use crate::ui::drawable;
use crate::ui::screen_shows;
use crate::ui::Screen;

verus! {

/// Where the session stands: what it is waiting for.
#[derive(Debug, Clone, Copy, PartialEq, Eq, Structural)]
pub enum Stage {
    /// For the configuration, at the start.
    Loading,
    /// For the script file to be in place.
    EnsuringScript,
    /// For the screen to be taken.
    OpeningScreen,
    /// For a key, with the screen drawn.
    AwaitingInput,
    /// For the screen to be given back after the pass ended this way.
    ClosingScreen(ControlFlow),
    /// For the screen to be given back after drawing or reading failed.
    AbortingScreen,
    /// For the editor to end.
    Editing,
    /// For the configuration, after an edit.
    ReloadingEdited,
    /// For the configuration, after a reload was asked for.
    Reloading,
    /// For the script to end.
    RunningScript,
    /// For nothing: the session is over.
    Finished,
}

/// What happened outside since the last request.
#[derive(Debug)]
pub enum Event {
    Loaded(Result<Config, AppError>),
    ScriptEnsured(Result<String, AppError>),
    ScreenOpened(Result<(), AppError>),
    KeyPressed(Key),
    ScreenFailed(AppError),
    ScreenClosed(Result<(), AppError>),
    EditorExited(Result<u64, AppError>),
    ScriptExited(Result<(), AppError>),
}

/// What is to be done outside next.
#[derive(Debug)]
pub enum Request {
    LoadConfiguration,
    EnsureScriptFile,
    OpenScreen,
    DrawAndReadKey,
    CloseScreen,
    RunEditor { command: String, argument_list: Vec<String> },
    RunScript(ScriptCall),
    /// Print the text and end successfully.
    Announce(String),
    /// End with this result.
    Finish(Result<(), AppError>),
}

/// One interactive session.
#[derive(Debug)]
pub struct Session {
    pub settings: Settings,
    pub state: State,
    /// The text shown over the lists, if a failure is being shown.
    pub maybe_error: Option<String>,
    pub stage: Stage,
    /// The failure that ended the pass over the screen, kept until the
    /// screen is given back.
    pub failure: Option<AppError>,
}

/// The text shown over the lists for a configuration that does not parse:
/// the failure, and below it what the parser said.
pub open spec fn syntax_overlay(error: AppError) -> Seq<char> {
    match error.source_text() {
        Some(source) => error.message_text() + "\n"@ + source,
        None => error.message_text(),
    }
}

/// The view of the text over the lists.
pub open spec fn overlay_view(overlay: Option<String>) -> Option<Seq<char>> {
    match overlay {
        Some(text) => Some(text@),
        None => None,
    }
}

impl Session {
    /// The invariant of a session: the model is well formed, every target of
    /// the snapshot has an identity, a choice is confirmed only from the
    /// identity panel, a kept failure is there while the screen is being
    /// given back for it, and while a text lies over the lists on the screen
    /// the focus is on the target panel.
    pub open spec fn wf(&self) -> bool {
        &&& self.state@.wf()
        &&& all_have_identity(self.settings.configuration@.servers)
        &&& self.stage == Stage::ClosingScreen(ControlFlow::Selected) ==> self.state@.choosing_username
        &&& self.stage == Stage::AbortingScreen ==> self.failure is Some
        &&& (self.stage == Stage::OpeningScreen || self.stage == Stage::AwaitingInput)
            && self.maybe_error is Some ==> !self.state@.choosing_username
    }

    /// Whether `event` is an answer to what the session is waiting for.
    pub open spec fn accepts(&self, event: Event) -> bool {
        match self.stage {
            Stage::Loading | Stage::Reloading | Stage::ReloadingEdited => event is Loaded
                && (event->Loaded_0 matches Ok(config) ==> all_have_identity(config@.servers)),
            Stage::EnsuringScript => event is ScriptEnsured,
            Stage::OpeningScreen => event is ScreenOpened,
            Stage::AwaitingInput => event is KeyPressed || event is ScreenFailed,
            Stage::ClosingScreen(_) | Stage::AbortingScreen => event is ScreenClosed,
            Stage::Editing => event is EditorExited,
            Stage::RunningScript => event is ScriptExited,
            Stage::Finished => false,
        }
    }

    /// Tells whether the session meets its invariant.
    pub fn is_well_formed(&self) -> (ok: bool)
        ensures
            ok == self.wf(),
    {
        if !self.state.is_well_formed() || !all_identified(&self.settings.configuration.servers) {
            return false;
        }
        match self.stage {
            Stage::ClosingScreen(ControlFlow::Selected) => self.state.choosing_username,
            Stage::AbortingScreen => self.failure.is_some(),
            Stage::OpeningScreen | Stage::AwaitingInput => self.maybe_error.is_none()
                || !self.state.choosing_username,
            _ => true,
        }
    }

    /// Tells whether `event` is an answer to what the session is waiting
    /// for.
    pub fn expects(&self, event: &Event) -> (yes: bool)
        ensures
            yes == self.accepts(*event),
    {
        match self.stage {
            Stage::Loading | Stage::Reloading | Stage::ReloadingEdited => match event {
                Event::Loaded(Ok(config)) => all_identified(&config.servers),
                Event::Loaded(Err(_)) => true,
                _ => false,
            },
            Stage::EnsuringScript => match event {
                Event::ScriptEnsured(_) => true,
                _ => false,
            },
            Stage::OpeningScreen => match event {
                Event::ScreenOpened(_) => true,
                _ => false,
            },
            Stage::AwaitingInput => match event {
                Event::KeyPressed(_) => true,
                Event::ScreenFailed(_) => true,
                _ => false,
            },
            Stage::ClosingScreen(_) | Stage::AbortingScreen => match event {
                Event::ScreenClosed(_) => true,
                _ => false,
            },
            Stage::Editing => match event {
                Event::EditorExited(_) => true,
                _ => false,
            },
            Stage::RunningScript => match event {
                Event::ScriptExited(_) => true,
                _ => false,
            },
            Stage::Finished => false,
        }
    }

    /// Everything but the stage is the same in both.
    pub open spec fn same_but_stage(&self, other: &Session) -> bool {
        &&& self.settings == other.settings
        &&& self.state == other.state
        &&& self.maybe_error == other.maybe_error
        &&& self.failure == other.failure
    }

    /// The session ended with `result` and nothing else changed.
    pub open spec fn finished_with(&self, pre: &Session, request: Request, result: Result<(), AppError>) -> bool {
        &&& self.same_but_stage(pre)
        &&& self.stage == Stage::Finished
        &&& request == Request::Finish(result)
    }

    /// Describes the screen for the session as it stands, on a screen of
    /// `size`. The session is only read. There is no description for a
    /// screen too large to be divided.
    pub fn draw(&self, size: Area, theme: &Theme) -> (drawn: Option<Screen>)
        ensures
            drawn is Some <==> drawable(size),
            drawn matches Some(screen) ==> screen_shows(
                screen,
                self.settings.configuration@.raw == DEFAULT_CONFIGURATION@,
                self.state@,
                overlay_view(self.maybe_error),
                size,
                *theme,
            ),
    {
        draw_ui(self.settings.is_default_servers(), &self.state, &self.maybe_error, size, theme)
    }

    /// A new session, and its first request: to read the configuration.
    pub fn start(settings: Settings) -> (begun: (Session, Request))
        requires
            all_have_identity(settings.configuration@.servers),
        ensures
            begun.0.settings == settings,
            begun.0.stage == Stage::Loading,
            begun.0.maybe_error is None,
            begun.0.failure is None,
            begun.0.state@.server_list.len() == 0,
            begun.0.wf(),
            begun.1 is LoadConfiguration,
    {
        let session = Session {
            settings,
            state: State::build(Vec::new()),
            maybe_error: None,
            stage: Stage::Loading,
            failure: None,
        };
        (session, Request::LoadConfiguration)
    }

    /// How the session takes in the configuration that was read, at the
    /// start or on reload. A snapshot becomes the current one and clears the
    /// text over the lists. A configuration that does not parse leaves an
    /// empty snapshot and is shown over the lists. Either way the script
    /// file is asked for next. Any other failure ends the session.
    pub open spec fn loaded_step(pre: Session, loaded: Result<Config, AppError>, post: Session, request: Request) -> bool {
        match loaded {
            Ok(config) => {
                &&& post.settings.same_but_configuration(&pre.settings)
                &&& post.settings.configuration@ == config@
                &&& post.maybe_error is None
                &&& post.state == pre.state
                &&& post.failure == pre.failure
                &&& post.stage == Stage::EnsuringScript
                &&& request is EnsureScriptFile
            },
            Err(error) => if error is ConfigSyntax {
                &&& post.settings.same_but_configuration(&pre.settings)
                &&& post.settings.configuration@.servers.len() == 0
                &&& post.settings.configuration@.raw.len() == 0
                &&& overlay_view(post.maybe_error) == Some(syntax_overlay(error))
                &&& post.state == pre.state
                &&& post.failure == pre.failure
                &&& post.stage == Stage::EnsuringScript
                &&& request is EnsureScriptFile
            } else {
                post.finished_with(&pre, request, Err(error))
            },
        }
    }

    fn on_loaded(&mut self, loaded: Result<Config, AppError>) -> (request: Request)
        requires
            old(self).wf(),
            old(self).stage == Stage::Loading || old(self).stage == Stage::Reloading,
            loaded matches Ok(config) ==> all_have_identity(config@.servers),
        ensures
            Session::loaded_step(*old(self), loaded, *final(self), request),
            final(self).wf(),
    {
        match loaded {
            Ok(config) => {
                self.settings.configuration = config;
                self.maybe_error = None;
                self.stage = Stage::EnsuringScript;
                Request::EnsureScriptFile
            },
            Err(error) => {
                match error {
                    AppError::ConfigSyntax { ref source, .. } => {
                        let text = error.message().concat("\n").concat(source.as_str());
                        self.settings.configuration = Config::empty();
                        self.maybe_error = Some(text);
                        self.stage = Stage::EnsuringScript;
                        Request::EnsureScriptFile
                    },
                    _ => {
                        self.stage = Stage::Finished;
                        Request::Finish(Err(error))
                    },
                }
            },
        }
    }

    /// How the session takes in the script file: its text is kept, the
    /// model is built anew from the current snapshot, ordered by name, and
    /// the screen is asked for. A failure ends the session.
    pub open spec fn script_ensured_step(pre: Session, ensured: Result<String, AppError>, post: Session, request: Request) -> bool {
        match ensured {
            Ok(script) => {
                &&& post.settings.same_but_script(&pre.settings)
                &&& post.settings.script == script
                &&& post.maybe_error == pre.maybe_error
                &&& post.failure == pre.failure
                &&& sorted_by_name(post.state@.server_list)
                &&& post.state@.server_list.to_multiset()
                    == pre.settings.configuration@.servers.to_multiset()
                &&& post.state@.server_list.len() == pre.settings.configuration@.servers.len()
                &&& !post.state@.choosing_username
                &&& post.state@.server_offset == 0
                &&& post.stage == Stage::OpeningScreen
                &&& request is OpenScreen
            },
            Err(error) => post.finished_with(&pre, request, Err(error)),
        }
    }

    fn on_script_ensured(&mut self, ensured: Result<String, AppError>) -> (request: Request)
        requires
            old(self).wf(),
            old(self).stage == Stage::EnsuringScript,
        ensures
            Session::script_ensured_step(*old(self), ensured, *final(self), request),
            final(self).wf(),
    {
        match ensured {
            Ok(script) => {
                self.settings.script = script;
                self.state = State::build(clone_servers(&self.settings.configuration.servers));
                self.stage = Stage::OpeningScreen;
                Request::OpenScreen
            },
            Err(error) => {
                self.stage = Stage::Finished;
                Request::Finish(Err(error))
            },
        }
    }

    /// How the session takes in the opening of the screen: with the screen
    /// taken it asks for a key; a failure ends the session.
    pub open spec fn screen_opened_step(pre: Session, opened: Result<(), AppError>, post: Session, request: Request) -> bool {
        match opened {
            Ok(_) => {
                &&& post.same_but_stage(&pre)
                &&& post.stage == Stage::AwaitingInput
                &&& request is DrawAndReadKey
            },
            Err(error) => post.finished_with(&pre, request, Err(error)),
        }
    }

    fn on_screen_opened(&mut self, opened: Result<(), AppError>) -> (request: Request)
        requires
            old(self).wf(),
            old(self).stage == Stage::OpeningScreen,
        ensures
            Session::screen_opened_step(*old(self), opened, *final(self), request),
            final(self).wf(),
    {
        match opened {
            Ok(_) => {
                self.stage = Stage::AwaitingInput;
                Request::DrawAndReadKey
            },
            Err(error) => {
                self.stage = Stage::Finished;
                Request::Finish(Err(error))
            },
        }
    }

    /// How the session reacts to a key: the key is resolved against the
    /// model and the text over the lists; a move changes the model and the
    /// next key is asked for; quit, edit, reload and confirm end the pass,
    /// and the screen is given back before anything else happens.
    pub open spec fn key_step(pre: Session, key: Key, post: Session, request: Request) -> bool {
        let action = pre.state@.action_of(key, pre.maybe_error is Some);
        &&& post.settings == pre.settings
        &&& post.maybe_error == pre.maybe_error
        &&& post.failure == pre.failure
        &&& post.state@ == pre.state@.after_action(action)
        &&& match control_flow_of(action) {
            Some(flow) => post.stage == Stage::ClosingScreen(flow) && request is CloseScreen,
            None => post.stage == Stage::AwaitingInput && request is DrawAndReadKey,
        }
    }

    fn on_key(&mut self, key: Key) -> (request: Request)
        requires
            old(self).wf(),
            old(self).stage == Stage::AwaitingInput,
        ensures
            Session::key_step(*old(self), key, *final(self), request),
            final(self).wf(),
    {
        let overlay = self.maybe_error.is_some();
        match self.state.handle_key(key, overlay) {
            Some(flow) => {
                self.stage = Stage::ClosingScreen(flow);
                Request::CloseScreen
            },
            None => Request::DrawAndReadKey,
        }
    }

    /// How the session reacts to a failure of drawing or reading: the
    /// failure is kept and the screen is given back first.
    pub open spec fn screen_failed_step(pre: Session, error: AppError, post: Session, request: Request) -> bool {
        &&& post.settings == pre.settings
        &&& post.state == pre.state
        &&& post.maybe_error == pre.maybe_error
        &&& post.failure == Some(error)
        &&& post.stage == Stage::AbortingScreen
        &&& request is CloseScreen
    }

    fn on_screen_failed(&mut self, error: AppError) -> (request: Request)
        requires
            old(self).wf(),
            old(self).stage == Stage::AwaitingInput,
        ensures
            Session::screen_failed_step(*old(self), error, *final(self), request),
            final(self).wf(),
    {
        self.failure = Some(error);
        self.stage = Stage::AbortingScreen;
        Request::CloseScreen
    }

    /// How the session goes on once the screen is given back. A failure to
    /// give it back ends the session, and so does the failure that ended
    /// the pass. After quit the session ends well. After edit the editor's
    /// arguments are settled and the editor is asked for. After reload the
    /// configuration is asked for. After a confirmed choice the choice is
    /// announced if the script is to be skipped, else the script is asked
    /// for with the choice as its arguments and environment.
    pub open spec fn screen_closed_step(pre: Session, closed: Result<(), AppError>, post: Session, request: Request) -> bool {
        match closed {
            Err(error) => post.finished_with(&pre, request, Err(error)),
            Ok(_) => match pre.stage {
                Stage::ClosingScreen(ControlFlow::Stop) => post.finished_with(&pre, request, Ok(())),
                Stage::ClosingScreen(ControlFlow::Reload) => {
                    &&& post.same_but_stage(&pre)
                    &&& post.stage == Stage::Reloading
                    &&& request is LoadConfiguration
                },
                Stage::ClosingScreen(ControlFlow::Edit) => {
                    &&& post.state == pre.state
                    &&& post.maybe_error == pre.maybe_error
                    &&& post.failure == pre.failure
                    &&& post.settings.same_but_editor_arguments(&pre.settings)
                    &&& views(post.settings.editor_argument_list@) == editor_arguments(
                        pre.settings.editor_command@,
                        views(pre.settings.editor_argument_list@),
                        pre.settings.configuration_file@,
                    )
                    &&& post.stage == Stage::Editing
                    &&& request matches Request::RunEditor { command, argument_list }
                    &&& command@ == pre.settings.editor_command@
                    &&& views(argument_list@) == views(post.settings.editor_argument_list@)
                },
                Stage::ClosingScreen(ControlFlow::Selected) => {
                    let server = pre.state@.server_list[pre.state@.server_offset as int];
                    let username = pre.state@.usernames()[pre.state@.username_offset as int];
                    &&& post.same_but_stage(&pre)
                    &&& if pre.settings.skip_select {
                        &&& post.stage == Stage::Finished
                        &&& request matches Request::Announce(text)
                        &&& text@ == choice_text(server, username)
                    } else {
                        &&& post.stage == Stage::RunningScript
                        &&& request matches Request::RunScript(call)
                        &&& call.command@ == pre.settings.script_file@
                        &&& views(call.argument_list@) == script_arguments(
                            server,
                            username,
                            pre.settings.verbose,
                        )
                        &&& environment_views(call.env_list@) == script_environment(
                            server,
                            username,
                            pre.settings.verbose,
                        )
                    }
                },
                _ => {
                    &&& post.settings == pre.settings
                    &&& post.state == pre.state
                    &&& post.maybe_error == pre.maybe_error
                    &&& post.failure is None
                    &&& post.stage == Stage::Finished
                    &&& pre.failure matches Some(error)
                    &&& request == Request::Finish(Err(error))
                },
            },
        }
    }

    fn on_screen_closed(&mut self, closed: Result<(), AppError>) -> (request: Request)
        requires
            old(self).wf(),
            old(self).stage is ClosingScreen || old(self).stage is AbortingScreen,
        ensures
            Session::screen_closed_step(*old(self), closed, *final(self), request),
            final(self).wf(),
    {
        match closed {
            Err(error) => {
                self.stage = Stage::Finished;
                Request::Finish(Err(error))
            },
            Ok(_) => {
                match self.stage {
                    Stage::ClosingScreen(ControlFlow::Stop) => {
                        self.stage = Stage::Finished;
                        Request::Finish(Ok(()))
                    },
                    Stage::ClosingScreen(ControlFlow::Reload) => {
                        self.stage = Stage::Reloading;
                        Request::LoadConfiguration
                    },
                    Stage::ClosingScreen(ControlFlow::Edit) => {
                        let _ = self.settings.ensure_editor_command();
                        self.stage = Stage::Editing;
                        Request::RunEditor {
                            command: self.settings.editor_command.clone(),
                            argument_list: clone_strings(&self.settings.editor_argument_list),
                        }
                    },
                    Stage::ClosingScreen(ControlFlow::Selected) => {
                        let (server, username) = self.state.chosen();
                        if self.settings.skip_select {
                            self.stage = Stage::Finished;
                            Request::Announce(choice_message(&server, &username))
                        } else {
                            self.stage = Stage::RunningScript;
                            Request::RunScript(run_script(&self.settings, &server, &username))
                        }
                    },
                    _ => {
                        self.stage = Stage::Finished;
                        match self.failure.take() {
                            Some(error) => Request::Finish(Err(error)),
                            None => Request::Finish(Ok(())),
                        }
                    },
                }
            },
        }
    }

    /// The failure that an editor's end amounts to, if any: its own, or
    /// that it came back too soon.
    pub open spec fn editor_failure(exited: Result<u64, AppError>) -> Option<AppError> {
        match exited {
            Err(error) => Some(error),
            Ok(seconds) => if seconds < MINIMUM_EDITOR_SECONDS {
                Some(AppError::EditorFastStop)
            } else {
                None
            },
        }
    }

    /// How the session takes in the end of the editor. After a good edit
    /// the configuration is asked for. A failure to recover from is shown
    /// over the lists and the script file is asked for, without reading the
    /// configuration again. Any other failure ends the session.
    pub open spec fn editor_exited_step(pre: Session, exited: Result<u64, AppError>, post: Session, request: Request) -> bool {
        match Session::editor_failure(exited) {
            None => {
                &&& post.same_but_stage(&pre)
                &&& post.stage == Stage::ReloadingEdited
                &&& request is LoadConfiguration
            },
            Some(error) => match edit_overlay(error, pre.settings.configuration_file@) {
                Some(text) => {
                    &&& post.settings == pre.settings
                    &&& post.state == pre.state
                    &&& post.failure == pre.failure
                    &&& overlay_view(post.maybe_error) == Some(text)
                    &&& post.stage == Stage::EnsuringScript
                    &&& request is EnsureScriptFile
                },
                None => post.finished_with(&pre, request, Err(error)),
            },
        }
    }

    fn on_editor_exited(&mut self, exited: Result<u64, AppError>) -> (request: Request)
        requires
            old(self).wf(),
            old(self).stage == Stage::Editing,
        ensures
            Session::editor_exited_step(*old(self), exited, *final(self), request),
            final(self).wf(),
    {
        let edited: Result<(), AppError> = match exited {
            Err(error) => Err(error),
            Ok(seconds) => {
                if seconds < MINIMUM_EDITOR_SECONDS {
                    Err(AppError::EditorFastStop)
                } else {
                    self.stage = Stage::ReloadingEdited;
                    return Request::LoadConfiguration;
                }
            },
        };
        match edit_and_convert_errors(edited, &self.settings.configuration_file) {
            Ok(overlay) => {
                self.maybe_error = overlay;
                self.stage = Stage::EnsuringScript;
                Request::EnsureScriptFile
            },
            Err(error) => {
                self.stage = Stage::Finished;
                Request::Finish(Err(error))
            },
        }
    }

    /// How the session takes in the configuration read after an edit. A
    /// snapshot becomes the current one and clears the text over the lists.
    /// A configuration that does not parse leaves an empty snapshot and is
    /// shown over the lists. Either way the script file is asked for next.
    /// Any other failure ends the session.
    pub open spec fn reloaded_edited_step(pre: Session, loaded: Result<Config, AppError>, post: Session, request: Request) -> bool {
        match loaded {
            Ok(config) => {
                &&& post.settings.same_but_configuration(&pre.settings)
                &&& post.settings.configuration@ == config@
                &&& post.maybe_error is None
                &&& post.state == pre.state
                &&& post.failure == pre.failure
                &&& post.stage == Stage::EnsuringScript
                &&& request is EnsureScriptFile
            },
            Err(error) => if error is ConfigSyntax {
                &&& post.settings.same_but_configuration(&pre.settings)
                &&& post.settings.configuration@.servers.len() == 0
                &&& post.settings.configuration@.raw.len() == 0
                &&& overlay_view(post.maybe_error) == edit_overlay(
                    error,
                    pre.settings.configuration_file@,
                )
                &&& post.state == pre.state
                &&& post.failure == pre.failure
                &&& post.stage == Stage::EnsuringScript
                &&& request is EnsureScriptFile
            } else {
                post.finished_with(&pre, request, Err(error))
            },
        }
    }

    fn on_reloaded_edited(&mut self, loaded: Result<Config, AppError>) -> (request: Request)
        requires
            old(self).wf(),
            old(self).stage == Stage::ReloadingEdited,
            loaded matches Ok(config) ==> all_have_identity(config@.servers),
        ensures
            Session::reloaded_edited_step(*old(self), loaded, *final(self), request),
            final(self).wf(),
    {
        match loaded {
            Ok(config) => {
                self.settings.configuration = config;
                self.maybe_error = None;
                self.stage = Stage::EnsuringScript;
                Request::EnsureScriptFile
            },
            Err(error) => {
                let is_syntax = match error {
                    AppError::ConfigSyntax { .. } => true,
                    _ => false,
                };
                if !is_syntax {
                    self.stage = Stage::Finished;
                    return Request::Finish(Err(error));
                }
                match edit_and_convert_errors(Err(error), &self.settings.configuration_file) {
                    Ok(overlay) => {
                        self.settings.configuration = Config::empty();
                        self.maybe_error = overlay;
                        self.stage = Stage::EnsuringScript;
                        Request::EnsureScriptFile
                    },
                    Err(error) => {
                        self.stage = Stage::Finished;
                        Request::Finish(Err(error))
                    },
                }
            },
        }
    }

    /// How the session proceeds from `pre` on `event`, stage by stage.
    pub open spec fn step(pre: Session, event: Event, post: Session, request: Request) -> bool {
        match event {
            Event::Loaded(loaded) => if pre.stage == Stage::ReloadingEdited {
                Session::reloaded_edited_step(pre, loaded, post, request)
            } else {
                Session::loaded_step(pre, loaded, post, request)
            },
            Event::ScriptEnsured(ensured) => Session::script_ensured_step(
                pre,
                ensured,
                post,
                request,
            ),
            Event::ScreenOpened(opened) => Session::screen_opened_step(pre, opened, post, request),
            Event::KeyPressed(key) => Session::key_step(pre, key, post, request),
            Event::ScreenFailed(error) => Session::screen_failed_step(pre, error, post, request),
            Event::ScreenClosed(closed) => Session::screen_closed_step(pre, closed, post, request),
            Event::EditorExited(exited) => Session::editor_exited_step(pre, exited, post, request),
            Event::ScriptExited(result) => post.finished_with(&pre, request, result),
        }
    }
}

/// Takes one step of the session: reacts to what happened outside and says
/// what is to be done next.
pub fn run(session: &mut Session, event: Event) -> (request: Request)
    requires
        old(session).wf(),
        old(session).accepts(event),
    ensures
        Session::step(*old(session), event, *final(session), request),
        final(session).wf(),
{
    match event {
        Event::Loaded(loaded) => {
            match session.stage {
                Stage::ReloadingEdited => session.on_reloaded_edited(loaded),
                _ => session.on_loaded(loaded),
            }
        },
        Event::ScriptEnsured(ensured) => session.on_script_ensured(ensured),
        Event::ScreenOpened(opened) => session.on_screen_opened(opened),
        Event::KeyPressed(key) => session.on_key(key),
        Event::ScreenFailed(error) => session.on_screen_failed(error),
        Event::ScreenClosed(closed) => session.on_screen_closed(closed),
        Event::EditorExited(exited) => session.on_editor_exited(exited),
        Event::ScriptExited(result) => {
            session.stage = Stage::Finished;
            Request::Finish(result)
        },
    }
}

/// Takes one step of the session if the session is well formed and `event`
/// is an answer to what it is waiting for; otherwise leaves the session as
/// it is and asks for nothing.
pub fn offer(session: &mut Session, event: Event) -> (request: Option<Request>)
    ensures
        request is Some <==> old(session).wf() && old(session).accepts(event),
        request matches Some(asked) ==> Session::step(*old(session), event, *final(session), asked)
            && final(session).wf(),
        request is None ==> *final(session) == *old(session),
{
    if session.is_well_formed() && session.expects(&event) {
        Some(run(session, event))
    } else {
        None
    }
}

/// `q` ends the pass over the screen with `Stop`, whichever panel has the
/// focus and whether or not a text lies over the lists; the model stays as
/// it is and the screen is given back next.
pub proof fn lemma_quit_stops(pre: Session, post: Session, request: Request)
    requires
        Session::step(pre, Event::KeyPressed(Key::Char('q')), post, request),
    ensures
        post.stage == Stage::ClosingScreen(ControlFlow::Stop),
        request is CloseScreen,
        post.state@ == pre.state@,
{
}

/// Once a pass ended with `Stop`, giving the screen back ends the session:
/// well if the screen was given back, with that failure if not. The script
/// is not asked for.
pub proof fn lemma_stop_finishes(
    pre: Session,
    closed: Result<(), AppError>,
    post: Session,
    request: Request,
)
    requires
        pre.stage == Stage::ClosingScreen(ControlFlow::Stop),
        Session::step(pre, Event::ScreenClosed(closed), post, request),
    ensures
        post.stage == Stage::Finished,
        closed is Ok ==> request == Request::Finish(Ok(())),
        closed matches Err(error) ==> request == Request::Finish(Err(error)),
        !(request is RunScript),
{
}

/// The script is asked for only when the screen has been given back after
/// a confirmed choice, and only if the script is not to be skipped.
pub proof fn lemma_script_only_after_choice(
    pre: Session,
    event: Event,
    post: Session,
    request: Request,
)
    requires
        Session::step(pre, event, post, request),
        request is RunScript,
    ensures
        pre.stage == Stage::ClosingScreen(ControlFlow::Selected),
        event matches Event::ScreenClosed(Ok(_)),
        !pre.settings.skip_select,
{
}

/// While a text lies over the lists, every key other than `q`, `e` and `r`
/// is ignored: the model stays as it is and the next key is asked for.
pub proof fn lemma_overlay_disables_navigation(
    pre: Session,
    key: Key,
    post: Session,
    request: Request,
)
    requires
        pre.wf(),
        pre.stage == Stage::AwaitingInput,
        pre.maybe_error is Some,
        key != Key::Char('q'),
        key != Key::Char('e'),
        key != Key::Char('r'),
        Session::step(pre, Event::KeyPressed(key), post, request),
    ensures
        pre.state@.action_of(key, true) == KeyAction::Ignored,
        post.state@ == pre.state@,
        post.stage == Stage::AwaitingInput,
        request is DrawAndReadKey,
{
}

/// A configuration that parses clears the text over the lists, and the
/// model built next holds exactly the targets of that configuration, in
/// the order of their names.
pub proof fn lemma_reload_rebuilds(
    pre: Session,
    config: Config,
    loaded: Session,
    first: Request,
    script: String,
    post: Session,
    second: Request,
)
    requires
        Session::step(pre, Event::Loaded(Ok(config)), loaded, first),
        Session::step(loaded, Event::ScriptEnsured(Ok(script)), post, second),
    ensures
        first is EnsureScriptFile,
        second is OpenScreen,
        post.maybe_error is None,
        post.settings.configuration@ == config@,
        post.state@.server_list.to_multiset() == config@.servers.to_multiset(),
        sorted_by_name(post.state@.server_list),
        !post.state@.choosing_username,
{
}

/// While the session waits for a key, whatever happens the screen is given
/// back before anything else is asked for: the next request is another key
/// or the release of the screen.
pub proof fn lemma_screen_released_first(pre: Session, event: Event, post: Session, request: Request)
    requires
        pre.stage == Stage::AwaitingInput,
        pre.accepts(event),
        Session::step(pre, event, post, request),
    ensures
        request is DrawAndReadKey || request is CloseScreen,
        request is DrawAndReadKey <==> post.stage == Stage::AwaitingInput,
        request is CloseScreen <==> (post.stage is ClosingScreen || post.stage is AbortingScreen),
{
}

} // verus!
