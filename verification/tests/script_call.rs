use sssh::select::{choice_message, run_script, State};
use sssh::settings::{ConfigServer, Settings};
use sssh::text::decimal_text;

fn settings(verbose: bool) -> Settings {
    Settings::new(
        verbose,
        false,
        "/etc/sssh.toml".to_string(),
        "/etc/sssh.sh".to_string(),
        false,
        "vim".to_string(),
        vec!["{FILENAME}".to_string()],
        None,
    )
    .unwrap()
}

fn db1() -> ConfigServer {
    ConfigServer {
        name: "db1".to_string(),
        username_list: vec!["root".to_string(), "alice".to_string()],
        hostname: "10.0.0.1".to_string(),
        port: 22,
        description: String::new(),
    }
}

#[test]
fn confirming_db1_as_alice_composes_the_call() {
    let mut state = State::build(vec![db1()]);
    state.enter_identity_panel();
    state.next_username();
    assert_eq!(state.username_offset, 1);
    let (server, username) = state.chosen();
    let call = run_script(&settings(false), &server, &username);
    assert_eq!(call.command, "/etc/sssh.sh");
    assert_eq!(call.argument_list, vec!["alice@10.0.0.1", "alice", "10.0.0.1", "22", "0"]);
    assert_eq!(
        call.env_list,
        vec![
            ("ADDRESS", "alice@10.0.0.1".to_string()),
            ("USERNAME", "alice".to_string()),
            ("HOSTNAME", "10.0.0.1".to_string()),
            ("PORT", "22".to_string()),
        ]
    );
}

#[test]
fn verbose_adds_the_debug_mark() {
    let mut server = db1();
    server.port = 2222;
    let call = run_script(&settings(true), &server, &"root".to_string());
    assert_eq!(call.argument_list, vec!["root@10.0.0.1", "root", "10.0.0.1", "2222", "1"]);
    assert_eq!(call.env_list.len(), 5);
    assert_eq!(call.env_list[3], ("PORT", "2222".to_string()));
    assert_eq!(call.env_list[4], ("DEBUG", "1".to_string()));
}

#[test]
fn choice_message_names_target_and_address() {
    assert_eq!(
        choice_message(&db1(), &"alice".to_string()),
        "You have selected `db1` (alice@10.0.0.1). Skip running script file."
    );
}

#[test]
fn decimal_text_matches_the_number() {
    for number in [0u16, 1, 9, 10, 22, 99, 100, 2222, 9999, 10000, 65535] {
        assert_eq!(decimal_text(number), number.to_string());
    }
}
