//! Typed chat conversations and their wire-level encoding.
//!
//! A conversation is an ordered list of role-tagged messages.  Before it is
//! handed to the remote model endpoint it is wrapped in a request envelope
//! carrying the model's canonical name, and each role is rendered as one of
//! the three lowercase tags the endpoint understands.
use vstd::prelude::*;

verus! {

/// The role of a `ChatMessage`.
#[derive(Clone, Copy, PartialEq, Eq, Structural, Debug)]
pub enum Role {
    System,
    User,
    Assistant,
}

/// A message in a chat: a role together with free text.  Content is passed
/// through unmodified; no validation is performed on it.
#[derive(Clone, Debug)]
pub struct ChatMessage {
    pub role: Role,
    pub content: String,
}

/// Supported models, a closed enumeration.
#[derive(Clone, Copy, PartialEq, Eq, Structural, Debug)]
pub enum Model {
    Llama3_1_8B,
}

/// The lowercase string tag a role serialises to.
pub open spec fn role_tag(r: Role) -> Seq<char> {
    match r {
        Role::System => "system"@,
        Role::User => "user"@,
        Role::Assistant => "assistant"@,
    }
}

/// The canonical service-side name of a model.
pub open spec fn model_name(m: Model) -> Seq<char> {
    match m {
        Model::Llama3_1_8B => "llama3.1:8b"@,
    }
}

/// The request envelope sent to the model endpoint: the model's canonical
/// name together with the ordered conversation.  Constructed fresh per call,
/// never persisted.
#[derive(Clone, Debug)]
pub struct Request {
    pub model: String,
    pub messages: Vec<ChatMessage>,
}

/// A message as the endpoint's schema has it: the role rendered as its
/// lowercase tag.
#[derive(Clone, Debug)]
pub struct WireMessage {
    pub role: String,
    pub content: String,
}

/// The request envelope in the endpoint's schema: a `model` string and the
/// list of role/content records.
#[derive(Clone, Debug)]
pub struct WireRequest {
    pub model: String,
    pub messages: Vec<WireMessage>,
}

/// The fixed instruction prepended to every conversation in the lookup-agent
/// variant.  It tells the model to answer with exactly one of: a capability
/// description, a request for a valid account, or the literal
/// `LOOKUP(ACCOUNT)` command.
pub open spec fn system_instruction_text() -> Seq<char> {
    "You are an assistant that looks up account balances. Reply with exactly one of the following: a single sentence saying that you can look up account balances, a single sentence asking the user for a valid account, or the exact text LOOKUP(ACCOUNT) where ACCOUNT is the account the user provided."@
}

/// The fixed system instruction of the lookup-agent variant.
pub fn system_instruction() -> (r: String)
    ensures
        r@ == system_instruction_text(),
{
    String::from_str(
        "You are an assistant that looks up account balances. Reply with exactly one of the following: a single sentence saying that you can look up account balances, a single sentence asking the user for a valid account, or the exact text LOOKUP(ACCOUNT) where ACCOUNT is the account the user provided.",
    )
}

impl Role {
    /// Renders the role as its lowercase wire tag.
    pub fn tag(&self) -> (r: String)
        ensures
            r@ == role_tag(*self),
    {
        match self {
            Role::System => String::from_str("system"),
            Role::User => String::from_str("user"),
            Role::Assistant => String::from_str("assistant"),
        }
    }
}

impl Model {
    /// The canonical name understood by the remote service.
    pub fn name(&self) -> (r: String)
        ensures
            r@ == model_name(*self),
    {
        match self {
            Model::Llama3_1_8B => String::from_str("llama3.1:8b"),
        }
    }
}

impl ChatMessage {
    /// Encodes the message for the wire: the role becomes its lowercase tag,
    /// the content is passed through unmodified.
    pub fn encode(&self) -> (r: WireMessage)
        ensures
            r.role@ == role_tag(self.role),
            r.content@ == self.content@,
    {
        WireMessage { role: self.role.tag(), content: self.content.clone() }
    }
}

impl Request {
    /// Encodes the whole envelope for the wire, message by message, keeping
    /// the conversation's order.
    pub fn encode(&self) -> (r: WireRequest)
        ensures
            r.model@ == self.model@,
            r.messages@.len() == self.messages@.len(),
            forall|i: int|
                0 <= i < self.messages@.len() ==> #[trigger] r.messages@[i].role@ == role_tag(
                    self.messages@[i].role,
                ) && r.messages@[i].content@ == self.messages@[i].content@,
    {
        let mut wire: Vec<WireMessage> = Vec::new();
        let mut i: usize = 0;
        while i < self.messages.len()
            invariant
                i <= self.messages@.len(),
                wire@.len() == i,
                forall|j: int|
                    0 <= j < i ==> #[trigger] wire@[j].role@ == role_tag(self.messages@[j].role)
                        && wire@[j].content@ == self.messages@[j].content@,
            decreases self.messages@.len() - i,
        {
            let w = self.messages[i].encode();
            wire.push(w);
            proof {
                assert(wire@[i as int].role@ == role_tag(self.messages@[i as int].role));
            }
            i = i + 1;
        }
        WireRequest { model: self.model.clone(), messages: wire }
    }
}

/// Builds the envelope of the single-prompt entry point: a one-element
/// conversation whose sole message carries the prompt with role `User`.
pub fn prompt_request(model: Model, prompt_str: String) -> (r: Request)
    ensures
        r.model@ == model_name(model),
        r.messages@.len() == 1,
        r.messages@[0].role == Role::User,
        r.messages@[0].content@ == prompt_str@,
{
    let mut messages: Vec<ChatMessage> = Vec::new();
    messages.push(ChatMessage { role: Role::User, content: prompt_str });
    Request { model: model.name(), messages }
}

/// Builds the envelope of the conversation entry point: the caller's messages
/// exactly, in order, with nothing prepended.
pub fn chat_request(model: Model, messages: Vec<ChatMessage>) -> (r: Request)
    ensures
        r.model@ == model_name(model),
        r.messages@ == messages@,
{
    Request { model: model.name(), messages }
}

/// Builds the envelope of the lookup-agent variant: the fixed system
/// instruction first, then the caller's messages unchanged and in order.
pub fn lookup_agent_request(messages: Vec<ChatMessage>) -> (r: Request)
    ensures
        r.model@ == model_name(Model::Llama3_1_8B),
        r.messages@.len() == messages@.len() + 1,
        r.messages@[0].role == Role::System,
        r.messages@[0].content@ == system_instruction_text(),
        r.messages@.skip(1) == messages@,
{
    let mut all: Vec<ChatMessage> = Vec::new();
    all.push(ChatMessage { role: Role::System, content: system_instruction() });
    let mut rest = messages;
    all.append(&mut rest);
    let r = Request { model: Model::Llama3_1_8B.name(), messages: all };
    proof {
        assert(r.messages@.skip(1) =~= messages@);
    }
    r
}

} // verus!
