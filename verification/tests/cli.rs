use mini_docker::args::process_options;

fn argv(parts: &[&str]) -> Vec<String> {
    parts.iter().map(|s| s.to_string()).collect()
}

#[test]
fn run_short_option_with_value() {
    let args = argv(&["mini_docker", "-r", "/bin/echo"]);
    assert_eq!(process_options(&args), Some("/bin/echo".to_string()));
}

#[test]
fn run_short_option_with_attached_value() {
    let args = argv(&["mini_docker", "-rls"]);
    assert_eq!(process_options(&args), Some("ls".to_string()));
}

#[test]
fn run_long_option_with_value() {
    let args = argv(&["mini_docker", "--run", "sh"]);
    assert_eq!(process_options(&args), Some("sh".to_string()));
}

#[test]
fn run_long_option_with_equals_value() {
    let args = argv(&["mini_docker", "--run=sh"]);
    assert_eq!(process_options(&args), Some("sh".to_string()));
}

#[test]
fn first_run_value_wins() {
    let args = argv(&["mini_docker", "-r", "first", "-r", "second"]);
    assert_eq!(process_options(&args), Some("first".to_string()));
}

#[test]
fn help_flag_suppresses_run() {
    let args = argv(&["mini_docker", "-h", "-r", "sh"]);
    assert_eq!(process_options(&args), None);
    let args = argv(&["mini_docker", "-r", "sh", "--help"]);
    assert_eq!(process_options(&args), None);
}

#[test]
fn no_arguments_means_usage() {
    let args = argv(&["mini_docker"]);
    assert_eq!(process_options(&args), None);
}

#[test]
fn run_option_without_value_is_invalid() {
    let args = argv(&["mini_docker", "-r"]);
    assert_eq!(process_options(&args), None);
    let args = argv(&["mini_docker", "--run"]);
    assert_eq!(process_options(&args), None);
}

#[test]
fn unknown_option_is_invalid() {
    let args = argv(&["mini_docker", "-x", "-r", "sh"]);
    assert_eq!(process_options(&args), None);
    let args = argv(&["mini_docker", "--verbose", "-r", "sh"]);
    assert_eq!(process_options(&args), None);
}

#[test]
fn double_dash_ends_option_scan() {
    let args = argv(&["mini_docker", "--", "-r", "sh"]);
    assert_eq!(process_options(&args), None);
}

#[test]
fn free_arguments_are_ignored() {
    let args = argv(&["mini_docker", "word", "-r", "sh", "-"]);
    assert_eq!(process_options(&args), Some("sh".to_string()));
}

#[test]
fn run_value_may_start_with_dash() {
    let args = argv(&["mini_docker", "-r", "--weird"]);
    assert_eq!(process_options(&args), Some("--weird".to_string()));
}

#[test]
fn empty_attached_long_value() {
    let args = argv(&["mini_docker", "--run="]);
    assert_eq!(process_options(&args), Some(String::new()));
}
