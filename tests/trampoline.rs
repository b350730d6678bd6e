use trampoline::config::{parse_config, Config};
use trampoline::launch::{
    build_command, exit_status_for, plan_launch, ChildCommand, ChildOutcome, ExitStatus,
    LaunchError, SIGNAL_EXIT_CODE,
};

fn strings(items: &[&str]) -> Vec<String> {
    items.iter().map(|s| s.to_string()).collect()
}

fn expect_frozen(conf: Config) -> String {
    match conf {
        Config::Frozen(exe) => exe,
        other => panic!("expected a frozen executable, got {:?}", other),
    }
}

fn expect_source(conf: Config) -> (String, String) {
    match conf {
        Config::PySource { exe, script } => (exe, script),
        other => panic!("expected an interpreted script, got {:?}", other),
    }
}

#[test]
fn frozen_keeps_whole_text_verbatim() {
    let exe = expect_frozen(parse_config("  C:\\BEE2\\BEE2.exe \t".to_string()));
    assert_eq!(exe, "  C:\\BEE2\\BEE2.exe \t");
}

#[test]
fn frozen_from_empty_text() {
    assert_eq!(expect_frozen(parse_config(String::new())), "");
}

#[test]
fn frozen_keeps_carriage_return() {
    assert_eq!(expect_frozen(parse_config("tool\r".to_string())), "tool\r");
}

#[test]
fn splits_at_first_separator_only() {
    let (exe, script) = expect_source(parse_config("python\nmain.py\nextra\n".to_string()));
    assert_eq!(exe, "python");
    assert_eq!(script, "main.py\nextra\n");
}

#[test]
fn separator_alone_gives_empty_segments() {
    let (exe, script) = expect_source(parse_config("\n".to_string()));
    assert_eq!(exe, "");
    assert_eq!(script, "");
}

#[test]
fn leading_separator_gives_empty_interpreter() {
    let (exe, script) = expect_source(parse_config("\nscript.py".to_string()));
    assert_eq!(exe, "");
    assert_eq!(script, "script.py");
}

#[test]
fn splits_text_with_multibyte_characters() {
    let (exe, script) = expect_source(parse_config("/opt/pythön/bin\n/home/ü/bée.py".to_string()));
    assert_eq!(exe, "/opt/pythön/bin");
    assert_eq!(script, "/home/ü/bée.py");
}

#[test]
fn joined_pair_resolves_to_same_pair() {
    let pairs = [
        ("/usr/bin/python3", "/srv/app/compiler_hook.py"),
        ("", ""),
        ("py", "a\nb"),
        (" interp ", " script "),
    ];
    for (interp, script) in pairs {
        let text = format!("{}\n{}", interp, script);
        let (exe, got) = expect_source(parse_config(text));
        assert_eq!(exe, interp);
        assert_eq!(got, script);
    }
}

#[test]
fn frozen_command_line() {
    let cmd = build_command(Config::Frozen("E".to_string()), "T", strings(&["a", "b"]));
    assert_eq!(cmd.program, "E");
    assert_eq!(cmd.args, strings(&["T", "a", "b"]));
}

#[test]
fn interpreted_command_line() {
    let conf = Config::PySource { exe: "I".to_string(), script: "S".to_string() };
    let cmd = build_command(conf, "T", strings(&["a"]));
    assert_eq!(cmd.program, "I");
    assert_eq!(cmd.args, strings(&["S", "T", "a"]));
}

#[test]
fn command_line_without_caller_arguments() {
    let cmd = build_command(Config::Frozen("E".to_string()), "vbsp", Vec::new());
    assert_eq!(cmd.program, "E");
    assert_eq!(cmd.args, strings(&["vbsp"]));
}

#[test]
fn plan_drops_own_program_name() {
    let argv = strings(&["vbsp.exe", "-game", "portal2", "map.vmf"]);
    let cmd: ChildCommand =
        plan_launch(Some("python\nhook.py".to_string()), "vbsp", argv).unwrap();
    assert_eq!(cmd.program, "python");
    assert_eq!(cmd.args, strings(&["hook.py", "vbsp", "-game", "portal2", "map.vmf"]));
}

#[test]
fn plan_with_empty_argument_list() {
    let cmd = plan_launch(Some("app.exe".to_string()), "vrad", Vec::new()).unwrap();
    assert_eq!(cmd.program, "app.exe");
    assert_eq!(cmd.args, strings(&["vrad"]));
}

#[test]
fn plan_fails_without_configuration() {
    let r = plan_launch(None, "vbsp", strings(&["vbsp.exe", "a"]));
    assert!(matches!(r, Err(LaunchError::ConfigUnavailable)));
}

#[test]
fn exit_code_is_mirrored() {
    for n in [0, 1, 2, 42, 255, -1, i32::MIN, i32::MAX] {
        assert_eq!(
            exit_status_for(ChildOutcome::Exited(n)),
            Ok(ExitStatus { code: n, report_signal: false })
        );
    }
}

#[test]
fn signal_termination_exits_with_one_and_reports() {
    let status = exit_status_for(ChildOutcome::Signalled).unwrap();
    assert_eq!(status.code, 1);
    assert_eq!(SIGNAL_EXIT_CODE, 1);
    assert!(status.report_signal);
}

#[test]
fn spawn_failure_is_an_error() {
    assert_eq!(exit_status_for(ChildOutcome::SpawnFailed), Err(LaunchError::SpawnFailed));
}

#[test]
fn wait_failure_is_an_error() {
    assert_eq!(exit_status_for(ChildOutcome::WaitFailed), Err(LaunchError::WaitFailed));
}
