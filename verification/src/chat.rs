use vstd::prelude::*;

verus! {

/// Who speaks in one message of a hosted-provider conversation.
#[derive(Clone, Copy, PartialEq, Eq, Debug)]
pub enum Role {
    System,
    User,
    Assistant,
}

/// One message of a conversation with the hosted provider.
#[derive(Debug)]
pub struct ChatMessage {
    pub role: Role,
    pub content: String,
}

/// Puts a system message in front of the conversation history and the
/// user's new question at the end; the history itself is kept untouched
/// and in order.
pub fn assemble_conversation(
    system_content: String,
    history: Vec<ChatMessage>,
    question: String,
) -> (r: Vec<ChatMessage>)
    ensures
        r@.len() == history@.len() + 2,
        r@[0].role == Role::System,
        r@[0].content == system_content,
        forall|i: int| 1 <= i <= history@.len() ==> r@[i] == history@[i - 1],
        r@[history@.len() as int + 1].role == Role::User,
        r@[history@.len() as int + 1].content == question,
{
    let mut msgs = history;
    msgs.insert(0, ChatMessage { role: Role::System, content: system_content });
    msgs.push(ChatMessage { role: Role::User, content: question });
    msgs
}

} // verus!
