use aigw::anthropic::client::normalize_inline_system_messages;
use aigw::anthropic::types::{
    CacheControl, ContentBlock, ImageSource, Message, MessageContent, Role, SystemPrompt, TextBlock,
    TypedContentBlock,
};

fn turn(role: Role, text: &str) -> Message {
    Message { role, content: MessageContent::Text(text.to_owned()) }
}

fn block(text: &str) -> TextBlock {
    TextBlock { kind: "text".to_owned(), text: text.to_owned(), cache_control: None }
}

#[test]
fn inline_system_turns_fold_into_system_blocks() {
    let mut messages = vec![
        turn(Role::System, "inline instructions"),
        Message {
            role: Role::System,
            content: MessageContent::Blocks(vec![ContentBlock::Typed(TypedContentBlock::Text {
                text: "block instructions".to_owned(),
                cache_control: Some(CacheControl { kind: "ephemeral".to_owned() }),
            })]),
        },
        turn(Role::User, "Hello"),
    ];
    let mut system = Some(SystemPrompt::Text("top-level instructions".to_owned()));
    normalize_inline_system_messages(&mut messages, &mut system).unwrap();

    assert_eq!(messages, vec![turn(Role::User, "Hello")]);
    assert_eq!(
        system,
        Some(SystemPrompt::Blocks(vec![
            block("top-level instructions"),
            block("inline instructions"),
            TextBlock {
                kind: "text".to_owned(),
                text: "block instructions".to_owned(),
                cache_control: Some(CacheControl { kind: "ephemeral".to_owned() }),
            },
        ]))
    );
}

#[test]
fn no_inline_system_leaves_request_unchanged() {
    let mut messages = vec![turn(Role::User, "Hello"), turn(Role::Assistant, "Hi")];
    let mut system = Some(SystemPrompt::Text("be brief".to_owned()));
    normalize_inline_system_messages(&mut messages, &mut system).unwrap();
    assert_eq!(messages, vec![turn(Role::User, "Hello"), turn(Role::Assistant, "Hi")]);
    assert_eq!(system, Some(SystemPrompt::Text("be brief".to_owned())));
}

#[test]
fn inline_system_without_top_level_prompt() {
    let mut messages = vec![turn(Role::User, "a"), turn(Role::System, "rules")];
    let mut system = None;
    normalize_inline_system_messages(&mut messages, &mut system).unwrap();
    assert_eq!(messages, vec![turn(Role::User, "a")]);
    assert_eq!(system, Some(SystemPrompt::Blocks(vec![block("rules")])));
}

#[test]
fn inline_system_with_image_is_refused() {
    let mut messages = vec![Message {
        role: Role::System,
        content: MessageContent::Blocks(vec![ContentBlock::Typed(TypedContentBlock::Image {
            source: ImageSource::Url { url: "https://x/y.png".to_owned() },
            cache_control: None,
        })]),
    }];
    let mut system = None;
    let err = normalize_inline_system_messages(&mut messages, &mut system).unwrap_err();
    assert_eq!(err, "inline system messages may only contain text blocks");
    assert_eq!(system, None);
}

#[test]
fn folding_twice_changes_nothing_more() {
    let mut messages = vec![turn(Role::System, "rules"), turn(Role::User, "hi")];
    let mut system = Some(SystemPrompt::Text("base".to_owned()));
    normalize_inline_system_messages(&mut messages, &mut system).unwrap();
    let once = (messages.len(), system.clone_for_test());
    normalize_inline_system_messages(&mut messages, &mut system).unwrap();
    assert_eq!(messages, vec![turn(Role::User, "hi")]);
    assert_eq!((messages.len(), system.clone_for_test()), once);
}

trait CloneForTest {
    fn clone_for_test(&self) -> String;
}

impl CloneForTest for Option<SystemPrompt> {
    fn clone_for_test(&self) -> String {
        format!("{self:?}")
    }
}
