use waraqa::chat::{ChatMessage, Role};
use waraqa::openai::{build_openai_request, openai_code_from_reply, openai_error_message, OpenAiError};
use waraqa::prompt::openai_system_prompt;

const PREAMBLE: &str = r#"
        You are Waraqa, an AI developed by Vizly Labs. You are an expert data scientist that generates Python code to answer users' data questions.
        - The code you generate will be executed in a Pyodide environment. You can use libraries like `pandas`, `numpy`, `matplotlib`, and `plotly` for your analysis.
        
        The instructions you MUST respect:
        - Only return valid Python code snippets in a string format.
        - If files exist, load them in from the current directory like pd.read_csv('file.csv'). If no files exist, try to answer the question with sample data. If the question is not data-related, answer conversationally.
        - Include detailed comments in the code you produce.
        - If provided a data or visualization question, you always try to answer in a visualization. You use Plotly to answer all visualization queries.
        - If the question is not data-related or cannot be answered with a visualization, answer conversationally. If a question is not related to previous messages, treat it as a new conversation - do NOT just copy previous responses.
        - If you want to respond to the user with a message, you MUST use a print statement.
        
        The data you will be analyzing is the following. This map includes the file name as the key and df.info() on a truncated subset of the file as the value. Leverage these qualities of the dataset to answer the user's questions.
"#;

#[test]
fn system_prompt_is_preamble_plus_quoted_data() {
    let data = "{\"sales.csv\": \"int64 x 3\"}";
    let p = openai_system_prompt(data);
    assert_eq!(p, format!("{}{:?}", PREAMBLE, data));
}

#[test]
fn system_prompt_quotes_and_escapes_the_data() {
    let p = openai_system_prompt("a\"b");
    // debug rendering wraps the text in quotes and escapes the inner quote
    assert!(p.ends_with("\"a\\\"b\""));
}

#[test]
fn request_has_model_and_function_fields() {
    let r = build_openai_request("d", Vec::new(), String::from("q"));
    assert_eq!(r.model, "gpt-4o");
    assert_eq!(r.function_name, "get_python_code");
    assert_eq!(
        r.function_description,
        "The function to call to generate a Python code cell."
    );
    let parsed: serde_json::Value = serde_json::from_str(&r.parameters_json).unwrap();
    assert_eq!(parsed["type"], "object");
    assert_eq!(parsed["required"][0], "code");
    assert_eq!(parsed["properties"]["code"]["type"], "string");
}

#[test]
fn request_orders_system_history_question() {
    let history = vec![
        ChatMessage { role: Role::User, content: String::from("first") },
        ChatMessage { role: Role::Assistant, content: String::from("print(1)") },
    ];
    let r = build_openai_request("data", history, String::from("second"));
    assert_eq!(r.messages.len(), 4);
    assert_eq!(r.messages[0].role, Role::System);
    assert!(r.messages[0].content.starts_with(PREAMBLE));
    assert_eq!(r.messages[1].role, Role::User);
    assert_eq!(r.messages[1].content, "first");
    assert_eq!(r.messages[2].role, Role::Assistant);
    assert_eq!(r.messages[2].content, "print(1)");
    assert_eq!(r.messages[3].role, Role::User);
    assert_eq!(r.messages[3].content, "second");
}

#[test]
fn code_is_extracted_from_function_call_arguments() {
    let r = openai_code_from_reply(Some("{\"code\": \"print('hi')\"}"));
    assert_eq!(r.unwrap(), "print('hi')");
}

#[test]
fn control_characters_are_stripped_before_parsing() {
    // raw newlines inside a JSON string are invalid; sanitizing removes them
    let r = openai_code_from_reply(Some("{\"code\": \"df\n.head()\"}\u{7f}"));
    assert_eq!(r.unwrap(), "df.head()");
}

#[test]
fn missing_function_call_is_reported() {
    let r = openai_code_from_reply(None);
    let e = r.unwrap_err();
    assert!(matches!(e, OpenAiError::NoFunctionCall));
    assert_eq!(openai_error_message(&e), "No function call in the response.");
}

#[test]
fn malformed_arguments_are_reported() {
    let r = openai_code_from_reply(Some("not json at all"));
    let e = r.unwrap_err();
    assert!(matches!(e, OpenAiError::BadArguments(_)));
    assert!(openai_error_message(&e).starts_with("Failed to parse function call arguments: "));
}

#[test]
fn malformed_arguments_carry_the_parser_description() {
    let e = openai_code_from_reply(Some("{broken")).unwrap_err();
    let parser_text = serde_json::from_str::<serde_json::Value>("{broken")
        .unwrap_err()
        .to_string();
    assert_eq!(
        openai_error_message(&e),
        format!("Failed to parse function call arguments: {}", parser_text)
    );
}

#[test]
fn arguments_without_code_are_reported() {
    let r = openai_code_from_reply(Some("{\"other\": 1}"));
    let e = r.unwrap_err();
    assert!(matches!(e, OpenAiError::NoCode));
    assert_eq!(openai_error_message(&e), "No code found in function call arguments");
}

#[test]
fn openai_non_string_code_is_reported() {
    let r = openai_code_from_reply(Some("{\"code\": 42}"));
    assert!(matches!(r.unwrap_err(), OpenAiError::NoCode));
}

#[test]
fn non_object_arguments_are_reported() {
    let r = openai_code_from_reply(Some("[1, 2, 3]"));
    assert!(matches!(r.unwrap_err(), OpenAiError::NoCode));
}
