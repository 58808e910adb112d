use vstd::prelude::*;
use vstd::string::*;
use crate::chat::{assemble_conversation, ChatMessage, Role};
use crate::json::{extract_string_field, json_text_wf, parse_err_text_of, string_field_of};
use crate::prompt::{debug_of, openai_preamble, openai_system_prompt};
use crate::sanitize::{sanitize_string, sanitized};

verus! {

/// The JSON schema handed to the hosted provider for the one function the
/// model is asked to call.
pub open spec fn parameters_schema() -> Seq<char> {
    r#"{"type":"object","properties":{"code":{"type":"string","description":"JSON formatted string of Python source code to execute."}},"required":["code"]}"#@
}

/// Everything the hosted provider is sent for one question: the model, the
/// full conversation, and the single function the model must call.
#[derive(Debug)]
pub struct OpenAiRequestPlan {
    pub model: String,
    pub messages: Vec<ChatMessage>,
    pub function_name: String,
    pub function_description: String,
    pub parameters_json: String,
}

/// Builds the hosted-provider request: the system prompt derived from the
/// dataset description goes first, the conversation history follows
/// untouched, and the user's new question comes last.
pub fn build_openai_request(
    csv_data: &str,
    history: Vec<ChatMessage>,
    question: String,
) -> (r: OpenAiRequestPlan)
    ensures
        r.model@ == "gpt-4o"@,
        r.function_name@ == "get_python_code"@,
        r.function_description@ == "The function to call to generate a Python code cell."@,
        r.parameters_json@ == parameters_schema(),
        r.messages@.len() == history@.len() + 2,
        r.messages@[0].role == Role::System,
        r.messages@[0].content@ == openai_preamble() + debug_of(csv_data@),
        forall|i: int| 1 <= i <= history@.len() ==> r.messages@[i] == history@[i - 1],
        r.messages@[history@.len() as int + 1].role == Role::User,
        r.messages@[history@.len() as int + 1].content == question,
{
    let system = openai_system_prompt(csv_data);
    let messages = assemble_conversation(system, history, question);
    OpenAiRequestPlan {
        model: String::from_str("gpt-4o"),
        messages,
        function_name: String::from_str("get_python_code"),
        function_description: String::from_str(
            "The function to call to generate a Python code cell.",
        ),
        parameters_json: String::from_str(
            r#"{"type":"object","properties":{"code":{"type":"string","description":"JSON formatted string of Python source code to execute."}},"required":["code"]}"#,
        ),
    }
}

/// Why no code could be taken out of the hosted provider's reply.
#[derive(Debug)]
pub enum OpenAiError {
    /// The reply carried no function call at all.
    NoFunctionCall,
    /// The function-call arguments were not well-formed JSON even after
    /// sanitizing; holds the parser's description of the failure.
    BadArguments(String),
    /// The arguments held no string value under the code key.
    NoCode,
}

/// The error text shown to the caller for each failure.
pub fn openai_error_message(e: &OpenAiError) -> (r: String)
    ensures
        (e is NoFunctionCall ==> r@ == "No function call in the response."@),
        (e matches OpenAiError::BadArguments(m) ==> r@
            == "Failed to parse function call arguments: "@ + m@),
        (e is NoCode ==> r@ == "No code found in function call arguments"@),
{
    match e {
        OpenAiError::NoFunctionCall => String::from_str("No function call in the response."),
        OpenAiError::BadArguments(m) => {
            let mut s = String::from_str("Failed to parse function call arguments: ");
            s.append(m.as_str());
            s
        },
        OpenAiError::NoCode => String::from_str("No code found in function call arguments"),
    }
}

/// Pulls the generated code out of the hosted provider's reply, given the
/// function-call arguments of the first choice, if the reply carried any.
///
/// The arguments are stripped of control characters, parsed as JSON, and
/// the string under the code key is returned: exactly that string on
/// success, and success exactly when the sanitized arguments parse and hold
/// one.
pub fn openai_code_from_reply(function_call_args: Option<&str>) -> (r: Result<
    String,
    OpenAiError,
>)
    ensures
        (function_call_args is None) <==> (r == Err::<String, OpenAiError>(
            OpenAiError::NoFunctionCall,
        )),
        ((function_call_args matches Some(a) && !json_text_wf(sanitized(a@))) <==> (r matches Err(e)
            && e is BadArguments)),
        (function_call_args matches Some(a) ==> (r matches Err(OpenAiError::BadArguments(m)) ==> m@
            == parse_err_text_of(sanitized(a@)))),
        (function_call_args matches Some(a) ==> (json_text_wf(sanitized(a@)) ==> ((r is Ok)
            <==> string_field_of(sanitized(a@), "code"@) is Some))),
        (function_call_args matches Some(a) ==> (r matches Ok(c) ==> string_field_of(
            sanitized(a@),
            "code"@,
        ) == Some(c@))),
        ((function_call_args matches Some(a) && json_text_wf(sanitized(a@)) && string_field_of(
            sanitized(a@),
            "code"@,
        ) is None) <==> (r == Err::<String, OpenAiError>(OpenAiError::NoCode))),
{
    match function_call_args {
        None => Err(OpenAiError::NoFunctionCall),
        Some(args) => {
            let clean = sanitize_string(args);
            match extract_string_field(clean.as_str(), "code") {
                Err(m) => Err(OpenAiError::BadArguments(m)),
                Ok(None) => Err(OpenAiError::NoCode),
                Ok(Some(code)) => Ok(code),
            }
        },
    }
}

} // verus!
