use ic_llm::chat_request;
use ic_llm::lookup_agent_request;
use ic_llm::prompt_request;
use ic_llm::system_instruction;
use ic_llm::ChatMessage;
use ic_llm::Model;
use ic_llm::Role;

#[test]
fn role_tags_are_lowercase() {
    assert_eq!(Role::System.tag(), "system");
    assert_eq!(Role::User.tag(), "user");
    assert_eq!(Role::Assistant.tag(), "assistant");
}

#[test]
fn message_encode_renders_each_role() {
    let system = ChatMessage { role: Role::System, content: "a".to_string() };
    assert_eq!(system.encode().role, "system");
    let user = ChatMessage { role: Role::User, content: "b".to_string() };
    assert_eq!(user.encode().role, "user");
    let assistant = ChatMessage { role: Role::Assistant, content: "c".to_string() };
    assert_eq!(assistant.encode().role, "assistant");
}

#[test]
fn message_encode_passes_content_through() {
    let m = ChatMessage { role: Role::User, content: "How big is the sun?".to_string() };
    let w = m.encode();
    assert_eq!(w.content, "How big is the sun?");
}

#[test]
fn model_name_is_canonical() {
    assert_eq!(Model::Llama3_1_8B.name(), "llama3.1:8b");
}

#[test]
fn prompt_request_wraps_a_single_user_message() {
    let r = prompt_request(Model::Llama3_1_8B, "What's the speed of light?".to_string());
    assert_eq!(r.model, "llama3.1:8b");
    assert_eq!(r.messages.len(), 1);
    assert_eq!(r.messages[0].role, Role::User);
    assert_eq!(r.messages[0].content, "What's the speed of light?");
}

#[test]
fn chat_request_keeps_an_empty_conversation_empty() {
    let r = chat_request(Model::Llama3_1_8B, vec![]);
    assert_eq!(r.model, "llama3.1:8b");
    assert!(r.messages.is_empty());
}

#[test]
fn chat_request_passes_messages_through_in_order() {
    let messages = vec![
        ChatMessage { role: Role::System, content: "You are a helpful assistant".to_string() },
        ChatMessage { role: Role::User, content: "How big is the sun?".to_string() },
    ];
    let r = chat_request(Model::Llama3_1_8B, messages);
    assert_eq!(r.messages.len(), 2);
    assert_eq!(r.messages[0].role, Role::System);
    assert_eq!(r.messages[0].content, "You are a helpful assistant");
    assert_eq!(r.messages[1].role, Role::User);
    assert_eq!(r.messages[1].content, "How big is the sun?");
}

#[test]
fn lookup_agent_request_prepends_the_instruction() {
    let messages = vec![ChatMessage { role: Role::User, content: "check my balance".to_string() }];
    let r = lookup_agent_request(messages);
    assert_eq!(r.model, "llama3.1:8b");
    assert_eq!(r.messages.len(), 2);
    assert_eq!(r.messages[0].role, Role::System);
    assert_eq!(r.messages[0].content, system_instruction());
    assert_eq!(r.messages[1].role, Role::User);
    assert_eq!(r.messages[1].content, "check my balance");
}

#[test]
fn request_encode_keeps_order_and_renders_roles() {
    let messages = vec![
        ChatMessage { role: Role::System, content: "first".to_string() },
        ChatMessage { role: Role::Assistant, content: "second".to_string() },
    ];
    let wire = chat_request(Model::Llama3_1_8B, messages).encode();
    assert_eq!(wire.model, "llama3.1:8b");
    assert_eq!(wire.messages.len(), 2);
    assert_eq!(wire.messages[0].role, "system");
    assert_eq!(wire.messages[0].content, "first");
    assert_eq!(wire.messages[1].role, "assistant");
    assert_eq!(wire.messages[1].content, "second");
}
