use minigrep::Config;

#[test]
fn build_config_case_sensitive_env() {
    let args = [
        String::from("rust"),
        String::from("to"),
        String::from("poem.text")];

    let config = Config::build(&args, Some("0"));

    assert!(!config.unwrap().ignore_case)
}

#[test]
fn build_config_case_sensitive_arg() {
    let args = [
        String::from("rust"),
        String::from("to"),
        String::from("to"),
        String::from("0")];

    let config = Config::build(&args, None);

    assert!(!config.unwrap().ignore_case)
}

#[test]
fn build_config_case_insensitive_env() {
    let args = [
        String::from("rust"),
        String::from("to"),
        String::from("poem.text")];

    let config = Config::build(&args, Some("1"));

    assert!(config.unwrap().ignore_case)
}

#[test]
fn build_config_case_insensitive_arg() {
    let args = [
        String::from("rust"),
        String::from("to"),
        String::from("to"),
        String::from("1")];

    let config = Config::build(&args, None);

    assert!(config.unwrap().ignore_case)
}

#[test]
fn build_config_case_insensitive_arg_overrides_env() {
    let args = [
        String::from("rust"),
        String::from("to"),
        String::from("to"),
        String::from("1")];

    let config = Config::build(&args, Some("0"));

    assert!(config.unwrap().ignore_case)
}

#[test]
fn build_config_case_sensitive_arg_overrides_env() {
    let args = [
        String::from("rust"),
        String::from("to"),
        String::from("to"),
        String::from("0")];

    assert!(!Config::build(&args, Some("1")).unwrap().ignore_case)
}

#[test]
fn build_config_unset_env_is_case_sensitive() {
    let args = [String::from("rust"), String::from("to"), String::from("poem.text")];
    assert!(!Config::build(&args, None).unwrap().ignore_case);
    assert!(!Config::build(&args, Some("true")).unwrap().ignore_case);
    assert!(!Config::build(&args, Some("11")).unwrap().ignore_case);
}

#[test]
fn build_config_other_flag_values_are_off() {
    let args = [
        String::from("rust"),
        String::from("to"),
        String::from("poem.text"),
        String::from("yes")];
    assert!(!Config::build(&args, Some("1")).unwrap().ignore_case);
}

#[test]
fn build_config_keeps_query_and_path() {
    let args = [String::from("rust"), String::from("needle"), String::from("poem.txt")];
    let config = Config::build(&args, None).unwrap();
    assert_eq!("needle", config.query);
    assert_eq!("poem.txt", config.file_path);
}

#[test]
fn build_config_too_few_arguments() {
    let args = [String::from("rust"), String::from("needle")];
    assert!(matches!(Config::build(&args, Some("1")), Err("not enough arguments")));
    let only_name = [String::from("rust")];
    assert!(Config::build(&only_name, None).is_err());
    let none: [String; 0] = [];
    assert!(Config::build(&none, None).is_err());
}

#[test]
fn matching_lines_follows_ignore_case() {
    let contents = "Rust:\nsafe, fast, productive.\nDuct tape\nPick three.";
    let args = [String::from("rust"), String::from("duct"), String::from("poem.txt")];
    let exact = Config::build(&args, None).unwrap();
    assert_eq!(vec!["safe, fast, productive."], exact.matching_lines(contents));
    let folded = Config::build(&args, Some("1")).unwrap();
    assert_eq!(
        vec!["safe, fast, productive.", "Duct tape"],
        folded.matching_lines(contents)
    );
}
