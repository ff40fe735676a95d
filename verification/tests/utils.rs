use zksync_telemetry::utils::{
    is_affirmative, is_ci_environment, is_interactive, yes_no_prompt, Environment,
};

fn environment(stdin: bool, stdout: bool, variables: Vec<(&str, &str)>) -> Environment {
    Environment {
        stdin_is_terminal: stdin,
        stdout_is_terminal: stdout,
        variables: variables
            .into_iter()
            .map(|(name, value)| (name.to_string(), value.to_string()))
            .collect(),
    }
}

#[test]
fn variables_are_looked_up_by_name() {
    let env = environment(false, false, vec![("HOME", "/home/alice"), ("CI", "true"), ("HOME", "/x")]);
    assert_eq!(env.variable("HOME"), Some("/home/alice"));
    assert_eq!(env.variable("CI"), Some("true"));
    assert_eq!(env.variable("ci"), None);
    assert_eq!(env.variable(""), None);
    assert_eq!(environment(true, true, vec![]).variable("HOME"), None);
}

#[test]
fn each_ci_variable_announces_ci() {
    for name in [
        "CI",
        "CONTINUOUS_INTEGRATION",
        "BUILD_NUMBER",
        "GITHUB_ACTIONS",
        "TEAMCITY_VERSION",
        "TRAVIS",
    ] {
        assert!(is_ci_environment(&environment(true, true, vec![("HOME", "/h"), (name, "1")])));
        assert!(is_ci_environment(&environment(true, true, vec![(name, "")])));
    }
}

#[test]
fn other_variables_do_not_announce_ci() {
    assert!(!is_ci_environment(&environment(true, true, vec![])));
    assert!(!is_ci_environment(&environment(
        true,
        true,
        vec![("HOME", "/h"), ("ci", "1"), ("CI_", "1"), ("TRAVIS_BRANCH", "main")]
    )));
}

#[test]
fn interactive_needs_both_terminals_and_no_ci() {
    assert!(is_interactive(&environment(true, true, vec![("HOME", "/h")])));
    assert!(!is_interactive(&environment(false, true, vec![])));
    assert!(!is_interactive(&environment(true, false, vec![])));
    assert!(!is_interactive(&environment(false, false, vec![])));
    assert!(!is_interactive(&environment(true, true, vec![("CI", "true")])));
    assert!(!is_interactive(&environment(true, true, vec![("GITHUB_ACTIONS", "true")])));
}

#[test]
fn answers_beginning_with_y_grant() {
    assert!(is_affirmative(Some("y")));
    assert!(is_affirmative(Some("Y")));
    assert!(is_affirmative(Some("yes\n")));
    assert!(is_affirmative(Some("Yes please")));
    assert!(is_affirmative(Some("yo")));
}

#[test]
fn all_other_answers_refuse() {
    assert!(!is_affirmative(None));
    assert!(!is_affirmative(Some("")));
    assert!(!is_affirmative(Some("\n")));
    assert!(!is_affirmative(Some("n")));
    assert!(!is_affirmative(Some("no")));
    assert!(!is_affirmative(Some("ok")));
    assert!(!is_affirmative(Some(" y")));
    assert!(!is_affirmative(Some("ÿ")));
    assert!(!is_affirmative(Some("1")));
}

#[test]
fn prompt_names_the_two_answers() {
    assert_eq!(
        yes_no_prompt("Would you like to enable telemetry?"),
        "Would you like to enable telemetry? (y/n)"
    );
    assert_eq!(yes_no_prompt(""), " (y/n)");
}
