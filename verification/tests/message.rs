use fixtures::message::startup_message;

fn invocation(parts: &[&str]) -> Vec<String> {
    parts.iter().map(|p| p.to_string()).collect()
}

#[test]
fn two_arguments_are_rendered_as_a_list() {
    let message = startup_message(&invocation(&["serve", "hello", "world"]));
    assert_eq!(message, "[\"hello\", \"world\"]");
}

#[test]
fn no_arguments_render_the_empty_list() {
    let message = startup_message(&invocation(&["serve"]));
    assert_eq!(message, "[]");
}

#[test]
fn an_invocation_without_program_name_renders_the_empty_list() {
    let message = startup_message(&Vec::new());
    assert_eq!(message, "[]");
}

#[test]
fn the_program_name_is_left_out() {
    let message = startup_message(&invocation(&["/usr/bin/serve", "only"]));
    assert_eq!(message, "[\"only\"]");
    assert!(!message.contains("serve"));
}

#[test]
fn every_argument_is_rendered_not_only_the_first() {
    let message = startup_message(&invocation(&["serve", "a", "b", "c", "d"]));
    assert_eq!(message, "[\"a\", \"b\", \"c\", \"d\"]");
}

#[test]
fn arguments_are_quoted_and_escaped() {
    let message = startup_message(&invocation(&["serve", "say \"hi\"", "a\\b", "tab\there", ""]));
    assert_eq!(message, "[\"say \\\"hi\\\"\", \"a\\\\b\", \"tab\\there\", \"\"]");
}

#[test]
fn a_single_argument_is_not_handed_back_unchanged() {
    let message = startup_message(&invocation(&["serve", "hello"]));
    assert_ne!(message, "hello");
    assert_eq!(message, "[\"hello\"]");
}

#[test]
fn rendering_is_the_same_on_every_call() {
    let argv = invocation(&["serve", "x", "y z"]);
    assert_eq!(startup_message(&argv), startup_message(&argv));
}
