use backend_agent::console::{classify_user_response, parse_confirmation, PrintCommand};

#[test]
fn accepting_tokens_grant_the_gate() {
    for token in ["1", "ok", "y", "yes"] {
        assert_eq!(parse_confirmation(&token.to_string()), Some(true));
    }
}

#[test]
fn declining_tokens_refuse_the_gate() {
    for token in ["2", "no", "n"] {
        assert_eq!(parse_confirmation(&token.to_string()), Some(false));
    }
}

#[test]
fn anything_else_asks_again() {
    for token in ["", "maybe", "yess", "0", "ye s"] {
        assert_eq!(parse_confirmation(&token.to_string()), None);
    }
}

#[test]
fn classification_ignores_case_and_surrounding_whitespace() {
    assert_eq!(classify_user_response(&"  YES \n".to_string()), Some(true));
    assert_eq!(classify_user_response(&"\tOk".to_string()), Some(true));
    assert_eq!(classify_user_response(&" No ".to_string()), Some(false));
    assert_eq!(classify_user_response(&"N\n".to_string()), Some(false));
    assert_eq!(classify_user_response(&" what? ".to_string()), None);
}

#[test]
fn print_commands_are_distinct_categories() {
    assert_ne!(PrintCommand::AICall, PrintCommand::UnitTest);
    assert_ne!(PrintCommand::UnitTest, PrintCommand::Issue);
    assert_ne!(PrintCommand::AICall, PrintCommand::Issue);
}
