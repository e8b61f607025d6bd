use sssh::error::AppError;
use sssh::keys::Key;
use sssh::layout::Area;
use sssh::select::ControlFlow;
use sssh::session::{offer, run, Event, Request, Session, Stage};
use sssh::settings::{Config, ConfigServer, Settings};
use sssh::theme::Theme;
use sssh::ui::Body;

fn settings(skip_select: bool) -> Settings {
    Settings::new(
        false,
        false,
        "/etc/sssh.toml".to_string(),
        "/etc/sssh.sh".to_string(),
        skip_select,
        "vim".to_string(),
        vec!["{FILENAME}".to_string()],
        None,
    )
    .unwrap()
}

fn entry(name: &str, users: &[&str]) -> (String, ConfigServer) {
    (
        name.to_string(),
        ConfigServer {
            name: String::new(),
            username_list: users.iter().map(|user| user.to_string()).collect(),
            hostname: format!("{}.example.com", name),
            port: 22,
            description: String::new(),
        },
    )
}

fn alpha_beta() -> Config {
    Config::from_entries(
        "raw".to_string(),
        vec![entry("beta", &["root", "ci"]), entry("alpha", &["root"])],
    )
}

fn syntax_error() -> AppError {
    AppError::ConfigSyntax {
        filename: "/etc/sssh.toml".to_string(),
        source: "expected an equals, found eof at line 1 column 4".to_string(),
    }
}

fn read_error() -> AppError {
    AppError::FileRead {
        title: "configuration",
        filename: "/etc/sssh.toml".to_string(),
        source: "permission denied".to_string(),
    }
}

fn names(session: &Session) -> Vec<String> {
    session.state.server_list.iter().map(|server| server.name.clone()).collect()
}

/// A session that waits for a key, with the given configuration loaded.
fn interactive(skip_select: bool, loaded: Result<Config, AppError>) -> Session {
    let (mut session, first) = Session::start(settings(skip_select));
    assert!(matches!(first, Request::LoadConfiguration));
    assert_eq!(session.stage, Stage::Loading);
    assert!(matches!(run(&mut session, Event::Loaded(loaded)), Request::EnsureScriptFile));
    assert!(matches!(
        run(&mut session, Event::ScriptEnsured(Ok("#!/bin/sh\n".to_string()))),
        Request::OpenScreen
    ));
    assert_eq!(session.settings.script, "#!/bin/sh\n");
    assert!(matches!(run(&mut session, Event::ScreenOpened(Ok(()))), Request::DrawAndReadKey));
    assert_eq!(session.stage, Stage::AwaitingInput);
    session
}

fn press(session: &mut Session, key: Key) -> Request {
    run(session, Event::KeyPressed(key))
}

#[test]
fn initial_state_points_at_alpha() {
    let session = interactive(false, Ok(alpha_beta()));
    assert_eq!(names(&session), vec!["alpha", "beta"]);
    assert_eq!(session.state.server_offset, 0);
    assert!(session.state.choosing_server);
    assert!(!session.state.choosing_username);
    assert!(session.maybe_error.is_none());
}

#[test]
fn down_right_down_enter_chooses_beta_as_ci() {
    let mut session = interactive(false, Ok(alpha_beta()));
    assert!(matches!(press(&mut session, Key::Down), Request::DrawAndReadKey));
    assert!(matches!(press(&mut session, Key::Right), Request::DrawAndReadKey));
    assert!(matches!(press(&mut session, Key::Down), Request::DrawAndReadKey));
    assert!(matches!(press(&mut session, Key::Enter), Request::CloseScreen));
    assert_eq!(session.stage, Stage::ClosingScreen(ControlFlow::Selected));
    match run(&mut session, Event::ScreenClosed(Ok(()))) {
        Request::RunScript(call) => {
            assert_eq!(call.command, "/etc/sssh.sh");
            assert_eq!(
                call.argument_list,
                vec!["ci@beta.example.com", "ci", "beta.example.com", "22", "0"]
            );
        }
        other => panic!("unexpected request {:?}", other),
    }
    assert_eq!(session.stage, Stage::RunningScript);
    assert!(matches!(
        run(&mut session, Event::ScriptExited(Ok(()))),
        Request::Finish(Ok(()))
    ));
    assert_eq!(session.stage, Stage::Finished);
}

#[test]
fn right_down_enter_stays_on_alpha() {
    let mut session = interactive(false, Ok(alpha_beta()));
    assert!(matches!(press(&mut session, Key::Right), Request::DrawAndReadKey));
    assert!(session.state.choosing_username);
    assert!(matches!(press(&mut session, Key::Down), Request::DrawAndReadKey));
    assert_eq!(session.state.server_offset, 0);
    assert_eq!(session.state.username_offset, 0);
    assert!(matches!(press(&mut session, Key::Enter), Request::CloseScreen));
    match run(&mut session, Event::ScreenClosed(Ok(()))) {
        Request::RunScript(call) => {
            assert_eq!(
                call.argument_list,
                vec!["root@alpha.example.com", "root", "alpha.example.com", "22", "0"]
            );
        }
        other => panic!("unexpected request {:?}", other),
    }
}

#[test]
fn skip_select_announces_the_choice() {
    let mut session = interactive(true, Ok(alpha_beta()));
    press(&mut session, Key::Enter);
    assert!(matches!(press(&mut session, Key::Enter), Request::CloseScreen));
    match run(&mut session, Event::ScreenClosed(Ok(()))) {
        Request::Announce(text) => assert_eq!(
            text,
            "You have selected `alpha` (root@alpha.example.com). Skip running script file."
        ),
        other => panic!("unexpected request {:?}", other),
    }
    assert_eq!(session.stage, Stage::Finished);
}

#[test]
fn script_failure_ends_the_session_with_it() {
    let mut session = interactive(false, Ok(alpha_beta()));
    press(&mut session, Key::Enter);
    press(&mut session, Key::Enter);
    run(&mut session, Event::ScreenClosed(Ok(())));
    let failure = AppError::ProcessFailed {
        title: "Script",
        command: "/etc/sssh.sh".to_string(),
        argument_list: Vec::new(),
        source: "boom".to_string(),
    };
    match run(&mut session, Event::ScriptExited(Err(failure))) {
        Request::Finish(Err(AppError::ProcessFailed { source, .. })) => assert_eq!(source, "boom"),
        other => panic!("unexpected request {:?}", other),
    }
}

#[test]
fn quit_stops_in_every_focus_and_overlay_state() {
    // Target panel, no overlay.
    let mut session = interactive(false, Ok(alpha_beta()));
    assert!(matches!(press(&mut session, Key::Char('q')), Request::CloseScreen));
    assert_eq!(session.stage, Stage::ClosingScreen(ControlFlow::Stop));
    assert!(matches!(
        run(&mut session, Event::ScreenClosed(Ok(()))),
        Request::Finish(Ok(()))
    ));
    assert_eq!(session.stage, Stage::Finished);
    // Identity panel, no overlay.
    let mut session = interactive(false, Ok(alpha_beta()));
    press(&mut session, Key::Right);
    assert!(matches!(press(&mut session, Key::Char('q')), Request::CloseScreen));
    assert!(matches!(
        run(&mut session, Event::ScreenClosed(Ok(()))),
        Request::Finish(Ok(()))
    ));
    // Overlay, no target.
    let mut session = interactive(false, Err(syntax_error()));
    assert!(session.maybe_error.is_some());
    assert!(matches!(press(&mut session, Key::Char('q')), Request::CloseScreen));
    assert!(matches!(
        run(&mut session, Event::ScreenClosed(Ok(()))),
        Request::Finish(Ok(()))
    ));
    // No overlay, no target.
    let mut session = interactive(false, Ok(Config::empty()));
    assert!(matches!(press(&mut session, Key::Char('q')), Request::CloseScreen));
    assert!(matches!(
        run(&mut session, Event::ScreenClosed(Ok(()))),
        Request::Finish(Ok(()))
    ));
}

#[test]
fn parse_failure_at_start_is_shown_over_an_empty_list() {
    let mut session = interactive(false, Err(syntax_error()));
    assert_eq!(
        session.maybe_error.clone().unwrap(),
        "Could not decode configuration from \"/etc/sssh.toml\"\nexpected an equals, found eof at line 1 column 4"
    );
    assert!(session.state.server_list.is_empty());
    assert!(!session.state.working_keys.down);
    for key in [Key::Up, Key::Down, Key::Left, Key::Right, Key::Enter, Key::Backspace] {
        assert!(matches!(press(&mut session, key), Request::DrawAndReadKey));
        assert_eq!(session.stage, Stage::AwaitingInput);
        assert!(!session.state.choosing_username);
    }
}

#[test]
fn other_load_failure_is_fatal() {
    let (mut session, _) = Session::start(settings(false));
    match run(&mut session, Event::Loaded(Err(read_error()))) {
        Request::Finish(Err(AppError::FileRead { source, .. })) => {
            assert_eq!(source, "permission denied")
        }
        other => panic!("unexpected request {:?}", other),
    }
    assert_eq!(session.stage, Stage::Finished);
}

#[test]
fn script_file_failure_is_fatal() {
    let (mut session, _) = Session::start(settings(false));
    run(&mut session, Event::Loaded(Ok(alpha_beta())));
    let failure = AppError::FileWrite {
        title: "script",
        filename: "/etc/sssh.sh".to_string(),
        source: "read-only".to_string(),
    };
    assert!(matches!(
        run(&mut session, Event::ScriptEnsured(Err(failure))),
        Request::Finish(Err(AppError::FileWrite { .. }))
    ));
}

#[test]
fn screen_that_cannot_be_opened_is_fatal() {
    let (mut session, _) = Session::start(settings(false));
    run(&mut session, Event::Loaded(Ok(alpha_beta())));
    run(&mut session, Event::ScriptEnsured(Ok(String::new())));
    let failure = AppError::UI { source: "not a tty".to_string() };
    assert!(matches!(
        run(&mut session, Event::ScreenOpened(Err(failure))),
        Request::Finish(Err(AppError::UI { .. }))
    ));
}

#[test]
fn reload_after_parse_error_and_valid_edit_rebuilds_the_model() {
    let mut session = interactive(false, Err(syntax_error()));
    assert!(session.maybe_error.is_some());
    assert!(session.state.server_list.is_empty());
    assert!(matches!(press(&mut session, Key::Char('r')), Request::CloseScreen));
    assert_eq!(session.stage, Stage::ClosingScreen(ControlFlow::Reload));
    assert!(matches!(
        run(&mut session, Event::ScreenClosed(Ok(()))),
        Request::LoadConfiguration
    ));
    assert_eq!(session.stage, Stage::Reloading);
    assert!(matches!(
        run(&mut session, Event::Loaded(Ok(alpha_beta()))),
        Request::EnsureScriptFile
    ));
    assert!(session.maybe_error.is_none());
    assert!(matches!(
        run(&mut session, Event::ScriptEnsured(Ok(String::new()))),
        Request::OpenScreen
    ));
    assert_eq!(names(&session), vec!["alpha", "beta"]);
    assert!(session.state.working_keys.down);
    assert_eq!(session.state.server_table_state, Some(0));
}

#[test]
fn reload_that_fails_to_parse_sets_a_fresh_overlay() {
    let mut session = interactive(false, Ok(alpha_beta()));
    press(&mut session, Key::Char('r'));
    run(&mut session, Event::ScreenClosed(Ok(())));
    assert!(matches!(
        run(&mut session, Event::Loaded(Err(syntax_error()))),
        Request::EnsureScriptFile
    ));
    assert!(session.maybe_error.clone().unwrap().starts_with("Could not decode configuration"));
    run(&mut session, Event::ScriptEnsured(Ok(String::new())));
    assert!(session.state.server_list.is_empty());
}

#[test]
fn edit_runs_the_editor_then_reloads() {
    let mut session = interactive(false, Ok(alpha_beta()));
    assert!(matches!(press(&mut session, Key::Char('e')), Request::CloseScreen));
    match run(&mut session, Event::ScreenClosed(Ok(()))) {
        Request::RunEditor { command, argument_list } => {
            assert_eq!(command, "vim");
            assert_eq!(argument_list, vec!["/etc/sssh.toml"]);
        }
        other => panic!("unexpected request {:?}", other),
    }
    assert_eq!(session.stage, Stage::Editing);
    assert!(matches!(
        run(&mut session, Event::EditorExited(Ok(2))),
        Request::LoadConfiguration
    ));
    assert_eq!(session.stage, Stage::ReloadingEdited);
    let edited = Config::from_entries("new".to_string(), vec![entry("gamma", &[])]);
    assert!(matches!(run(&mut session, Event::Loaded(Ok(edited))), Request::EnsureScriptFile));
    assert!(session.maybe_error.is_none());
    run(&mut session, Event::ScriptEnsured(Ok(String::new())));
    assert_eq!(names(&session), vec!["gamma"]);
    assert_eq!(session.state.server_list[0].username_list, vec!["root"]);
}

#[test]
fn editor_that_returns_too_fast_is_shown_with_advice() {
    let mut session = interactive(false, Ok(alpha_beta()));
    press(&mut session, Key::Char('e'));
    run(&mut session, Event::ScreenClosed(Ok(())));
    assert!(matches!(
        run(&mut session, Event::EditorExited(Ok(1))),
        Request::EnsureScriptFile
    ));
    assert_eq!(
        session.maybe_error.clone().unwrap(),
        "\nEditor process was running for less than 2 seconds!\nMaybe your editor opened the edit tab inside another session.\nAfter editing configuration file press `r` to reload it.\n\nfile: \"/etc/sssh.toml\""
    );
    run(&mut session, Event::ScriptEnsured(Ok(String::new())));
    assert_eq!(names(&session), vec!["alpha", "beta"]);
}

#[test]
fn editor_that_cannot_start_is_shown_with_advice() {
    let mut session = interactive(false, Ok(alpha_beta()));
    press(&mut session, Key::Char('e'));
    run(&mut session, Event::ScreenClosed(Ok(())));
    let failure = AppError::ProcessStart {
        title: "Editor",
        command: "vim".to_string(),
        argument_list: vec!["/etc/sssh.toml".to_string()],
        source: "No such file or directory".to_string(),
    };
    assert!(matches!(
        run(&mut session, Event::EditorExited(Err(failure))),
        Request::EnsureScriptFile
    ));
    assert_eq!(
        session.maybe_error.clone().unwrap(),
        "\nCould not start Editor process with command \"vim\" and arguments [\"/etc/sssh.toml\"]\nNo such file or directory\nEdit the file manually and press `r` to reload it."
    );
}

#[test]
fn edited_file_that_fails_to_parse_is_shown() {
    let mut session = interactive(false, Ok(alpha_beta()));
    press(&mut session, Key::Char('e'));
    run(&mut session, Event::ScreenClosed(Ok(())));
    run(&mut session, Event::EditorExited(Ok(30)));
    assert!(matches!(
        run(&mut session, Event::Loaded(Err(syntax_error()))),
        Request::EnsureScriptFile
    ));
    assert_eq!(
        session.maybe_error.clone().unwrap(),
        "\nCould not decode configuration from \"/etc/sssh.toml\"\nexpected an equals, found eof at line 1 column 4"
    );
    run(&mut session, Event::ScriptEnsured(Ok(String::new())));
    assert!(session.state.server_list.is_empty());
}

#[test]
fn edit_failure_of_another_kind_is_fatal() {
    let mut session = interactive(false, Ok(alpha_beta()));
    press(&mut session, Key::Char('e'));
    run(&mut session, Event::ScreenClosed(Ok(())));
    run(&mut session, Event::EditorExited(Ok(30)));
    assert!(matches!(
        run(&mut session, Event::Loaded(Err(read_error()))),
        Request::Finish(Err(AppError::FileRead { .. }))
    ));
    assert_eq!(session.stage, Stage::Finished);
}

#[test]
fn screen_failure_releases_the_screen_before_failing() {
    let mut session = interactive(false, Ok(alpha_beta()));
    let failure = AppError::UI { source: "broken pipe".to_string() };
    assert!(matches!(
        run(&mut session, Event::ScreenFailed(failure)),
        Request::CloseScreen
    ));
    assert_eq!(session.stage, Stage::AbortingScreen);
    match run(&mut session, Event::ScreenClosed(Ok(()))) {
        Request::Finish(Err(AppError::UI { source })) => assert_eq!(source, "broken pipe"),
        other => panic!("unexpected request {:?}", other),
    }
    assert_eq!(session.stage, Stage::Finished);
}

#[test]
fn failure_to_release_the_screen_is_fatal() {
    let mut session = interactive(false, Ok(alpha_beta()));
    press(&mut session, Key::Char('r'));
    let failure = AppError::UI { source: "cannot leave".to_string() };
    match run(&mut session, Event::ScreenClosed(Err(failure))) {
        Request::Finish(Err(AppError::UI { source })) => assert_eq!(source, "cannot leave"),
        other => panic!("unexpected request {:?}", other),
    }
}

#[test]
fn session_draws_lists_or_overlay() {
    let theme = Theme::default();
    let size = Area { x: 0, y: 0, width: 80, height: 24 };
    let session = interactive(false, Ok(alpha_beta()));
    let screen = session.draw(size, &theme).unwrap();
    assert_eq!(screen.help.lines.len(), 1);
    match screen.body {
        Body::Lists(table, list) => {
            assert_eq!(table.rows.len(), 2);
            assert_eq!(table.rows[0].name.content, "alpha");
            assert_eq!(table.selected, Some(0));
            assert_eq!(list.items.len(), 1);
            assert_eq!(list.selected, None);
        }
        Body::Error(panel) => panic!("unexpected overlay {:?}", panel),
    }
    let session = interactive(false, Err(syntax_error()));
    let screen = session.draw(size, &theme).unwrap();
    match screen.body {
        Body::Error(panel) => {
            assert_eq!(panel.lines.len(), 2);
            assert_eq!(panel.lines[1].content, "expected an equals, found eof at line 1 column 4");
        }
        Body::Lists(..) => panic!("lists shown under an overlay"),
    }
    assert!(screen.keys.cells.iter().all(|cell| cell.area.y >= 19));
    let too_large = Area { x: 0, y: 0, width: 2000, height: 24 };
    assert!(session.draw(too_large, &theme).is_none());
}

#[test]
fn offer_takes_only_what_the_session_waits_for() {
    let (mut session, _) = Session::start(settings(false));
    assert!(session.is_well_formed());
    assert!(session.expects(&Event::Loaded(Ok(alpha_beta()))));
    assert!(session.expects(&Event::Loaded(Err(read_error()))));
    assert!(!session.expects(&Event::KeyPressed(Key::Char('q'))));
    assert!(!session.expects(&Event::ScreenClosed(Ok(()))));
    assert!(offer(&mut session, Event::KeyPressed(Key::Down)).is_none());
    assert_eq!(session.stage, Stage::Loading);
    assert!(offer(&mut session, Event::ScriptExited(Ok(()))).is_none());
    assert_eq!(session.stage, Stage::Loading);
    assert!(matches!(
        offer(&mut session, Event::Loaded(Ok(alpha_beta()))),
        Some(Request::EnsureScriptFile)
    ));
    assert!(!session.expects(&Event::Loaded(Ok(alpha_beta()))));
    assert!(matches!(
        offer(&mut session, Event::ScriptEnsured(Ok(String::new()))),
        Some(Request::OpenScreen)
    ));
    assert!(matches!(
        offer(&mut session, Event::ScreenOpened(Ok(()))),
        Some(Request::DrawAndReadKey)
    ));
    assert!(session.expects(&Event::KeyPressed(Key::Other)));
    assert!(session.expects(&Event::ScreenFailed(read_error())));
    assert!(matches!(
        offer(&mut session, Event::KeyPressed(Key::Char('q'))),
        Some(Request::CloseScreen)
    ));
    assert!(offer(&mut session, Event::KeyPressed(Key::Char('q'))).is_none());
    assert!(matches!(
        offer(&mut session, Event::ScreenClosed(Ok(()))),
        Some(Request::Finish(Ok(())))
    ));
    assert!(offer(&mut session, Event::ScreenClosed(Ok(()))).is_none());
    assert!(!session.expects(&Event::Loaded(Err(read_error()))));
}

#[test]
fn offer_refuses_a_configuration_with_a_target_without_identity() {
    let (mut session, _) = Session::start(settings(false));
    let mut config = alpha_beta();
    config.servers[0].username_list.clear();
    assert!(!session.expects(&Event::Loaded(Ok(config.clone()))));
    assert!(offer(&mut session, Event::Loaded(Ok(config))).is_none());
    assert_eq!(session.stage, Stage::Loading);
}

#[test]
fn offer_refuses_a_session_that_is_not_well_formed() {
    let mut session = interactive(false, Ok(alpha_beta()));
    assert!(session.is_well_formed());
    assert!(session.state.is_well_formed());
    session.state.server_offset = 7;
    assert!(!session.state.is_well_formed());
    assert!(!session.is_well_formed());
    assert!(offer(&mut session, Event::KeyPressed(Key::Down)).is_none());
    assert_eq!(session.state.server_offset, 7);
    session.state.server_offset = 0;
    assert!(session.is_well_formed());
    session.state.choosing_username = true;
    assert!(!session.is_well_formed());
    session.state.choosing_username = false;
    session.stage = Stage::AbortingScreen;
    assert!(!session.is_well_formed());
    session.failure = Some(read_error());
    assert!(session.is_well_formed());
    session.stage = Stage::ClosingScreen(ControlFlow::Selected);
    assert!(!session.is_well_formed());
}

#[test]
fn overlay_keeps_the_model_still_for_every_other_key() {
    let mut session = interactive(false, Ok(alpha_beta()));
    press(&mut session, Key::Char('e'));
    run(&mut session, Event::ScreenClosed(Ok(())));
    run(&mut session, Event::EditorExited(Ok(0)));
    run(&mut session, Event::ScriptEnsured(Ok(String::new())));
    run(&mut session, Event::ScreenOpened(Ok(())));
    assert!(session.maybe_error.is_some());
    assert_eq!(names(&session), vec!["alpha", "beta"]);
    assert!(session.is_well_formed());
    for key in [
        Key::Up,
        Key::Down,
        Key::Left,
        Key::Right,
        Key::Backspace,
        Key::Enter,
        Key::Other,
        Key::Char('x'),
    ] {
        assert!(matches!(press(&mut session, key), Request::DrawAndReadKey));
        assert_eq!(session.stage, Stage::AwaitingInput);
        assert_eq!(session.state.server_offset, 0);
        assert_eq!(session.state.username_list_state, None);
        assert!(!session.state.choosing_username);
    }
    session.state.enter_identity_panel();
    assert!(!session.is_well_formed());
}
