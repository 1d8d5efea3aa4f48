use rlbot_core::hive::{parse_framework_command_line, select_drone_inputs, HiveFrameworkArgs};

fn pfcl(ss: Vec<&str>) -> Result<Option<HiveFrameworkArgs>, ()> {
    let args: Vec<String> = ss.into_iter().map(str::to_string).collect();
    parse_framework_command_line(&args)
}

#[test]
fn parse_hive_framework_args() {
    let args = pfcl(vec![
        "--rlbot-version",
        "1.35.5",
        "--rlbot-dll-directory",
        "/tmp",
        "--drone-indices",
        "0,1,2,3,4,5",
    ])
    .unwrap()
    .unwrap();
    assert_eq!(args.rlbot_version, "1.35.5");
    assert_eq!(args.rlbot_dll_directory, "/tmp");
    assert_eq!(args.drone_indices, vec![0, 1, 2, 3, 4, 5]);
}

#[test]
fn hive_parse_empty_command_line() {
    let args = pfcl(vec![]).unwrap();
    assert!(args.is_none());
}

#[test]
fn hive_parse_non_matching_command_line() {
    let args = pfcl(vec!["--unrelated-argument"]).unwrap();
    assert!(args.is_none());
}

#[test]
fn hive_parse_error() {
    let args = pfcl(vec!["--rlbot-version"]);
    assert!(args.is_err());

    let args = pfcl(vec!["--rlbot-version", "1.35.5"]);
    assert!(args.is_err());
}

#[test]
fn hive_parse_rejects_bad_drone_list() {
    let args = pfcl(vec![
        "--rlbot-version",
        "1.35.5",
        "--rlbot-dll-directory",
        "/tmp",
        "--drone-indices",
        "0,,2",
    ]);
    assert!(args.is_err());
}

#[test]
fn drone_input_selection_keeps_only_controlled_indices() {
    let inputs: Vec<(usize, &str)> = vec![(0, "a"), (3, "b"), (1, "c"), (9, "d"), (1, "e")];
    let drones: Vec<usize> = vec![0, 1, 2];
    let kept = select_drone_inputs(inputs, &drones);
    assert_eq!(kept, vec![(0, "a"), (1, "c"), (1, "e")]);
}

#[test]
fn drone_input_selection_of_nothing_is_empty() {
    let inputs: Vec<(usize, u8)> = vec![];
    let drones: Vec<usize> = vec![0, 1];
    let kept = select_drone_inputs(inputs, &drones);
    assert!(kept.is_empty());
}
