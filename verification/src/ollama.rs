use vstd::prelude::*;
use vstd::string::*;
use crate::json::{extract_string_field, json_text_wf, parse_err_text_of, string_field_of};
use crate::prompt::{debug_of, ollama_preamble, ollama_system_prompt};

verus! {

/// One message of a conversation with the local model server; the role is a
/// free-form string on this wire format.
#[derive(Debug)]
pub struct OllamaMessage {
    pub role: String,
    pub content: String,
}

/// Everything the local model server is sent for one question.
#[derive(Debug)]
pub struct OllamaRequest {
    pub model: String,
    pub messages: Vec<OllamaMessage>,
    pub stream: bool,
    pub format: String,
}

/// Builds the local-server request: a system message derived from the
/// dataset description goes in front of the history, the reply is requested
/// as JSON, and streaming is turned off.
pub fn build_ollama_request(csv_data: &str, history: Vec<OllamaMessage>) -> (r: OllamaRequest)
    ensures
        r.model@ == "llama3"@,
        r.format@ == "json"@,
        r.stream == false,
        r.messages@.len() == history@.len() + 1,
        r.messages@[0].role@ == "system"@,
        r.messages@[0].content@ == ollama_preamble() + debug_of(csv_data@),
        forall|i: int| 1 <= i <= history@.len() ==> r.messages@[i] == history@[i - 1],
{
    let system = ollama_system_prompt(csv_data);
    let mut messages = history;
    messages.insert(0, OllamaMessage { role: String::from_str("system"), content: system });
    OllamaRequest {
        model: String::from_str("llama3"),
        messages,
        stream: false,
        format: String::from_str("json"),
    }
}

/// The endpoint the request is posted to, under the caller's base address.
pub fn ollama_chat_url(base: &str) -> (r: String)
    ensures
        r@ == base@ + "/api/chat"@,
{
    let mut s = String::from_str(base);
    s.append("/api/chat");
    s
}

/// Why no code could be taken out of the local server's reply.
#[derive(Debug)]
pub enum OllamaError {
    /// The reply's message content was not well-formed JSON; holds the
    /// parser's description of the failure.
    BadPayload(String),
    /// The content held no string value under the code key.
    NoCode,
}

/// The error text shown to the caller for each failure.
pub fn ollama_error_message(e: &OllamaError) -> (r: String)
    ensures
        (e matches OllamaError::BadPayload(m) ==> r@ == "Failed to parse JSON: "@ + m@),
        (e is NoCode ==> r@ == "An error occurred - could not generate a response"@),
{
    match e {
        OllamaError::BadPayload(m) => {
            let mut s = String::from_str("Failed to parse JSON: ");
            s.append(m.as_str());
            s
        },
        OllamaError::NoCode => String::from_str(
            "An error occurred - could not generate a response",
        ),
    }
}

/// Pulls the generated code out of the local server's reply, given the
/// content of the reply message: the content is parsed as JSON and the
/// string under the code key is returned, exactly that string and exactly
/// when the content parses and holds one.
pub fn ollama_code_from_content(content: &str) -> (r: Result<String, OllamaError>)
    ensures
        (!json_text_wf(content@) <==> (r matches Err(e) && e is BadPayload)),
        (r matches Err(OllamaError::BadPayload(m)) ==> m@ == parse_err_text_of(content@)),
        (json_text_wf(content@) ==> ((r is Ok) <==> string_field_of(content@, "code"@) is Some)),
        (r matches Ok(c) ==> string_field_of(content@, "code"@) == Some(c@)),
        ((json_text_wf(content@) && string_field_of(content@, "code"@) is None) <==> (r == Err::<
            String,
            OllamaError,
        >(OllamaError::NoCode))),
{
    match extract_string_field(content, "code") {
        Err(m) => Err(OllamaError::BadPayload(m)),
        Ok(None) => Err(OllamaError::NoCode),
        Ok(Some(code)) => Ok(code),
    }
}

} // verus!
