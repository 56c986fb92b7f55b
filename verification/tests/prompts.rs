use backend_agent::llm::{extend_ai_function, Message};

#[test]
fn tests_extending_ai_function() {
    let extended_message: Message = extend_ai_function("fn convert_user_input_to_goal(user_input: &str)", "dummy variable");
    assert_eq!(extended_message.role, "system".to_string());
}

#[test]
fn extended_message_wraps_template_and_input() {
    let extended_message: Message = extend_ai_function("fn print_stuff(input: &str)", "hello");
    let expected = format!(
        "FUNCTION {}\n    INSTRUCTION You are a function printer. You ONLY print the results of functions.\n    Nothing else. No commentry. Here is the input to the function: {}.\n    Print out what the function will return.",
        "fn print_stuff(input: &str)", "hello"
    );
    assert_eq!(extended_message.content, expected);
    assert_eq!(extended_message.role, "system".to_string());
}

#[test]
fn prompt_contexts_carry_the_record() {
    let mut record = backend_agent::factsheet::FactSheet::new("a todo list server".to_string());
    let agent = backend_agent::agent::AgentBackendDeveloper::new();
    let initial = agent.initial_code_context("fn main() {}", &record);
    assert_eq!(
        initial,
        "CODE TEMPLATE: fn main() {} \n PROJECT_DESCRIPTION: a todo list server \n OUTPUT IN PLAIN TEXT ONLY"
    );

    record.backend_code = Some("fn serve() {}".to_string());
    let improved = agent.improved_code_context(&record);
    assert_eq!(
        improved,
        "CODE TEMPLATE: fn serve() {} \n PROJECT_DESCRIPTION: a todo list server \n"
    );

    let endpoints = agent.endpoints_context(&record);
    assert_eq!(endpoints, "CODE_INPUT: fn serve() {}");
}

#[test]
fn fix_context_carries_the_diagnostics() {
    let mut record = backend_agent::factsheet::FactSheet::new("a server".to_string());
    record.backend_code = Some("fn broken() {}".to_string());
    let mut agent = backend_agent::agent::AgentBackendDeveloper::new();
    agent.bug_errors = Some("expected `;`".to_string());
    let fix = agent.fix_code_context(&record);
    assert_eq!(fix, "BROKEN_CODE: fn broken() {} \n ERROR_BUGS: expected `;` \n");
}
