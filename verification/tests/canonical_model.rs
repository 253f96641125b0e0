use aigw::canonical::generic::OneOrMany;
use aigw::canonical::model::{FinishReason, Role, ToolChoiceMode};

#[test]
fn finish_reason_round_trips() {
    for (text, expected) in [
        ("stop", FinishReason::Stop),
        ("length", FinishReason::Length),
        ("tool_calls", FinishReason::ToolCalls),
        ("content_filter", FinishReason::ContentFilter),
        ("custom_reason", FinishReason::Unknown("custom_reason".into())),
    ] {
        let parsed = FinishReason::parse(text);
        assert_eq!(parsed, expected);
        assert_eq!(parsed.as_str(), text);
    }
}

#[test]
fn unknown_role_round_trips() {
    let role = Role::parse("critic");
    assert_eq!(role, Role::Unknown("critic".into()));
    assert_eq!(role.as_str(), "critic");
}

#[test]
fn known_roles_round_trip() {
    for (text, role) in [
        ("system", Role::System),
        ("developer", Role::Developer),
        ("user", Role::User),
        ("assistant", Role::Assistant),
        ("tool", Role::Tool),
    ] {
        assert_eq!(Role::parse(text), role);
        assert_eq!(role.as_str(), text);
    }
    assert!(Role::System.is_system_like());
    assert!(Role::Developer.is_system_like());
    assert!(!Role::User.is_system_like());
}

#[test]
fn tool_choice_string_mode() {
    assert_eq!(ToolChoiceMode::parse("required"), ToolChoiceMode::Required);
    assert_eq!(ToolChoiceMode::parse("none"), ToolChoiceMode::Disabled);
    assert_eq!(ToolChoiceMode::Disabled.as_str(), "none");
    assert_eq!(ToolChoiceMode::parse("sometimes"), ToolChoiceMode::Unknown("sometimes".into()));
}

#[test]
fn stop_sequence_one_or_many() {
    let one: OneOrMany<String> = OneOrMany::One("END".to_owned());
    assert_eq!(one.into_vec(), vec!["END"]);

    let many: OneOrMany<String> = OneOrMany::Many(vec!["STOP".to_owned(), "END".to_owned()]);
    assert_eq!(many.into_vec(), vec!["STOP", "END"]);
}
