use rlbot_core::framework::{parse_framework_command_line, FrameworkArgs};

fn pfcl(ss: Vec<&str>) -> Result<Option<FrameworkArgs>, ()> {
    let args: Vec<String> = ss.into_iter().map(str::to_string).collect();
    parse_framework_command_line(&args)
}

#[test]
fn parse_framework_args() {
    let args = pfcl(vec![
        "--rlbot-version",
        "1.8.1",
        "--rlbot-dll-directory",
        "/tmp",
        "--player-index",
        "0",
    ])
    .unwrap()
    .unwrap();
    assert_eq!(args.rlbot_version, "1.8.1");
    assert_eq!(args.rlbot_dll_directory, "/tmp");
    assert_eq!(args.player_index, 0);
}

#[test]
fn framework_parse_empty_command_line() {
    let args = pfcl(vec![]).unwrap();
    assert!(args.is_none());
}

#[test]
fn framework_parse_non_matching_command_line() {
    let args = pfcl(vec!["--unrelated-argument"]).unwrap();
    assert!(args.is_none());
}

#[test]
fn framework_parse_error() {
    let args = pfcl(vec!["--rlbot-version"]);
    assert!(args.is_err());

    let args = pfcl(vec!["--rlbot-version", "1.8.1"]);
    assert!(args.is_err());
}

#[test]
fn framework_parse_rejects_bad_player_index() {
    let args = pfcl(vec![
        "--rlbot-version",
        "1.8.1",
        "--rlbot-dll-directory",
        "/tmp",
        "--player-index",
        "zero",
    ]);
    assert!(args.is_err());
}

#[test]
fn framework_parse_ignores_trailing_arguments() {
    let args = pfcl(vec![
        "--rlbot-version",
        "1.8.1",
        "--rlbot-dll-directory",
        "/tmp",
        "--player-index",
        "7",
        "--extra",
    ])
    .unwrap()
    .unwrap();
    assert_eq!(args.player_index, 7);
}
