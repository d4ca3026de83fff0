use esp_scheduler::args::{Args, Startup, DEFAULT_CONFIG_FILE};

fn args(init: bool, config_file: Option<&str>) -> Args {
    Args { init, config_file: config_file.map(|p| p.to_string()), delay: None, file: None }
}

#[test]
fn the_configuration_path_defaults() {
    assert_eq!(DEFAULT_CONFIG_FILE, "esp-scheduler.yaml");
    assert_eq!(args(false, None).config_path(), "esp-scheduler.yaml");
    assert_eq!(args(false, Some("/etc/esp/other.yaml")).config_path(), "/etc/esp/other.yaml");
    assert_eq!(args(true, Some("")).config_path(), "");
}

#[test]
fn initialization_never_overwrites() {
    assert_eq!(args(true, None).startup(true), Startup::RefuseOverwrite);
    assert_eq!(args(true, None).startup(false), Startup::WriteDefaults);
    assert_eq!(args(false, None).startup(true), Startup::Run);
    assert_eq!(args(false, None).startup(false), Startup::Run);
}

#[test]
fn exit_codes_tell_success_from_refusal() {
    assert_eq!(Startup::WriteDefaults.exit_code(), Some(0));
    assert_eq!(Startup::RefuseOverwrite.exit_code(), Some(1));
    assert_eq!(Startup::Run.exit_code(), None);
}

#[test]
fn a_named_file_is_read_in_place_of_the_network() {
    let mut options = args(false, None);
    assert!(!options.reads_file());
    options.file = Some("schedule.json".to_string());
    assert!(options.reads_file());
    options.delay = Some(30);
    assert_eq!(options.clone().delay, Some(30));
}
