//! Command-line parsing behavior.

use rockerize::shell::{
    check_add_files, check_build_only, check_exposed_ports, help_text, process_args, CliAction,
};

fn tokens(list: &[&str]) -> Vec<String> {
    list.iter().map(|s| s.to_string()).collect()
}

#[test]
fn no_recognized_flags_yield_defaults() {
    let args = tokens(&["foo", "bar", "-x"]);
    assert_eq!(check_build_only(&args), false);
    assert_eq!(check_exposed_ports(&args), Vec::<i32>::new());
    assert_eq!(check_add_files(&args), Vec::<String>::new());
}

#[test]
fn ports_and_files_in_order() {
    let args = tokens(&["--exposed-ports", "80", "443", "--add-files", "a.txt"]);
    assert_eq!(check_exposed_ports(&args), vec![80, 443]);
    assert_eq!(check_add_files(&args), vec!["a.txt".to_string()]);
}

#[test]
fn order_independent_flag_placement() {
    let args = tokens(&["--add-files", "a.txt", "--exposed-ports", "80"]);
    assert_eq!(check_add_files(&args), vec!["a.txt".to_string()]);
    assert_eq!(check_exposed_ports(&args), vec![80]);
}

#[test]
fn non_numeric_port_tokens_are_skipped() {
    let args = tokens(&["--exposed-ports", "80", "notanumber", "443"]);
    assert_eq!(check_exposed_ports(&args), vec![80, 443]);
}

#[test]
fn adjacent_flags_yield_empty_run() {
    let args = tokens(&["--exposed-ports", "--add-files", "a.txt"]);
    assert_eq!(check_exposed_ports(&args), Vec::<i32>::new());
    assert_eq!(check_add_files(&args), vec!["a.txt".to_string()]);
}

#[test]
fn trailing_flag_without_values() {
    let args = tokens(&["--exposed-ports"]);
    assert_eq!(check_exposed_ports(&args), Vec::<i32>::new());
}

#[test]
fn build_only_flag_detected_anywhere() {
    assert!(check_build_only(&tokens(&["x", "--build-only", "y"])));
    assert!(!check_build_only(&tokens(&["x", "y"])));
}

#[test]
fn value_tokens_are_trimmed() {
    let args = tokens(&["--add-files", " a.txt ", "--exposed-ports", " 80 "]);
    assert_eq!(check_add_files(&args), vec!["a.txt".to_string()]);
    assert_eq!(check_exposed_ports(&args), vec![80]);
}

#[test]
fn signed_port_tokens_parse_as_integers() {
    let args = tokens(&["--exposed-ports", "+80", "-1"]);
    assert_eq!(check_exposed_ports(&args), vec![80, -1]);
}

#[test]
fn out_of_range_port_tokens_are_skipped() {
    let args = tokens(&["--exposed-ports", "2147483648", "2147483647", "-2147483648"]);
    assert_eq!(check_exposed_ports(&args), vec![2147483647, -2147483648]);
}

#[test]
fn only_first_flag_occurrence_counts() {
    let args = tokens(&["--exposed-ports", "80", "x", "--exposed-ports", "443"]);
    assert_eq!(check_exposed_ports(&args), vec![80]);
}

#[test]
fn help_when_no_arguments_follow_the_program_name() {
    let args = tokens(&["prog"]);
    assert!(matches!(process_args(&args), CliAction::ShowHelp));
}

#[test]
fn help_flag_short_circuits() {
    let args = tokens(&["prog", "--build-only", "--help"]);
    assert!(matches!(process_args(&args), CliAction::ShowHelp));
}

#[test]
fn build_request_is_parsed_from_the_tail() {
    let args = tokens(&["prog", "--build-only", "--exposed-ports", "8080", "--add-files", "c.cfg"]);
    match process_args(&args) {
        CliAction::Build(req) => {
            assert!(req.build_only);
            assert_eq!(req.exposed_ports, vec![8080]);
            assert_eq!(req.add_files, vec!["c.cfg".to_string()]);
        }
        CliAction::ShowHelp => panic!("expected a build request"),
    }
}

#[test]
fn help_text_names_the_program() {
    let text = help_text(&"myprog".to_string());
    assert!(text.contains("$ myprog --help"));
    assert!(text.contains("$ myprog --build-only"));
    assert!(text.contains("$ myprog --exposed-ports 80 443 8080"));
    assert!(text.contains("$ myprog --add-files ./config.json"));
    assert!(text.starts_with("Rockerize: dockerize your rust application."));
}
