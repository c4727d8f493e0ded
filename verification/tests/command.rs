use zcash_local_net::command::{control_command, owned, program, zainod_command, zcashd_command};
use zcash_local_net::daemon::{control_program, stdout_log_name, DaemonKind};

#[test]
fn the_default_program_is_the_name_of_the_daemon() {
    assert_eq!(program(&None, "zcashd"), "zcashd");
    assert_eq!(program(&Some("/opt/bin/zcashd".to_string()), "zcashd"), "/opt/bin/zcashd");
    assert_eq!(DaemonKind::Zcashd.process_name(), "zcashd");
    assert_eq!(DaemonKind::Zainod.process_name(), "zainod");
    assert_eq!(control_program(), "zcash-cli");
}

#[test]
fn the_files_of_a_daemon_have_fixed_names() {
    assert_eq!(DaemonKind::Zcashd.config_file_name(), "zcash.conf");
    assert_eq!(DaemonKind::Zainod.config_file_name(), "zindexer.toml");
    assert_eq!(stdout_log_name(), "stdout.log");
}

#[test]
fn only_zcashd_has_a_control_channel() {
    assert!(DaemonKind::Zcashd.has_control_channel());
    assert!(!DaemonKind::Zainod.has_control_channel());
}

#[test]
fn zcashd_is_started_with_its_configuration_and_data_directory() {
    let line = zcashd_command(&None, "/tmp/c/zcash.conf", "/tmp/d");
    assert_eq!(line.program, "zcashd");
    assert_eq!(
        line.args,
        vec!["--printtoconsole", "--conf=/tmp/c/zcash.conf", "--datadir=/tmp/d", "-debug=1"]
    );
}

#[test]
fn zcashd_is_started_from_the_program_that_the_caller_names() {
    let line = zcashd_command(&Some("./zcashd-dev".to_string()), "zcash.conf", "data");
    assert_eq!(line.program, "./zcashd-dev");
    assert_eq!(
        line.args,
        vec!["--printtoconsole", "--conf=zcash.conf", "--datadir=data", "-debug=1"]
    );
}

#[test]
fn zainod_is_started_with_its_configuration() {
    let line = zainod_command(&None, "/tmp/c/zindexer.toml");
    assert_eq!(line.program, "zainod");
    assert_eq!(line.args, vec!["--config", "/tmp/c/zindexer.toml"]);
    let line = zainod_command(&Some("/opt/zainod".to_string()), "z.toml");
    assert_eq!(line.program, "/opt/zainod");
    assert_eq!(line.args, vec!["--config", "z.toml"]);
}

#[test]
fn a_control_command_names_the_configuration_first() {
    let line = control_command(&None, "/tmp/c/zcash.conf", owned(&["getinfo"]));
    assert_eq!(line.program, "zcash-cli");
    assert_eq!(line.args, vec!["-conf=/tmp/c/zcash.conf", "getinfo"]);
    let line = control_command(&Some("/opt/zcash-cli".to_string()), "f", Vec::new());
    assert_eq!(line.program, "/opt/zcash-cli");
    assert_eq!(line.args, vec!["-conf=f"]);
}

#[test]
fn owned_copies_every_string_in_order() {
    assert_eq!(owned(&["a", "", "c c"]), vec!["a", "", "c c"]);
    assert!(owned(&[]).is_empty());
}
