use notify_core::cli::{backend_argv, join_words, plan_invocation, reexec_argv, usage_message, CliPlan};

fn argv(words: &[&str]) -> Vec<String> {
    words.iter().map(|w| String::from(*w)).collect()
}

#[test]
fn no_text_is_usage() {
    match plan_invocation(&argv(&["notify"])) {
        CliPlan::Usage => {}
        _ => panic!("expected the usage plan"),
    }
    assert_eq!(usage_message(), "usage: notify <text>");
}

#[test]
fn public_form_spawns_detached() {
    match plan_invocation(&argv(&["notify", "hello", "world"])) {
        CliPlan::SpawnDetached(t) => assert_eq!(t, "hello world"),
        _ => panic!("expected a detached spawn"),
    }
}

#[test]
fn sentinel_form_runs_the_unit() {
    match plan_invocation(&argv(&["notify", "--exec", "hello", "world"])) {
        CliPlan::RunUnit(t) => assert_eq!(t, "hello world"),
        _ => panic!("expected the re-entry plan"),
    }
}

#[test]
fn sentinel_alone_is_ordinary_text() {
    // With no word after it, the sentinel is treated as the text itself.
    match plan_invocation(&argv(&["notify", "--exec"])) {
        CliPlan::SpawnDetached(t) => assert_eq!(t, "--exec"),
        _ => panic!("expected a detached spawn"),
    }
}

#[test]
fn joining_words() {
    let words = argv(&["a", "b", "c"]);
    assert_eq!(join_words(&words, 0), "a b c");
    assert_eq!(join_words(&words, 1), "b c");
    assert_eq!(join_words(&words, 2), "c");
    assert_eq!(join_words(&words, 3), "");
}

#[test]
fn backend_argv_is_fixed_but_for_the_text() {
    let r = backend_argv(&String::from("hello"));
    assert_eq!(r, vec!["say", "-r", "300", "hello"]);
}

#[test]
fn reexec_argv_carries_sentinel_and_text() {
    let r = reexec_argv(&String::from("hello world"));
    assert_eq!(r, vec!["--exec", "hello world"]);
}
