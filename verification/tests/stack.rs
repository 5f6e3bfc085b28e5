use squadconv::stack::{stack_var, EnvValue, ParseStackError, Stack, StackError};

#[test]
fn known_names_are_read() {
    assert_eq!(Stack::from_str("prod"), Ok(Stack::Prod));
    assert_eq!(Stack::from_str("test"), Ok(Stack::Test));
}

#[test]
fn names_are_parsed_through_the_trait() {
    assert_eq!("prod".parse::<Stack>(), Ok(Stack::Prod));
    assert_eq!("test".parse::<Stack>(), Ok(Stack::Test));
    assert_eq!(
        "Test".parse::<Stack>(),
        Err(ParseStackError::UnrecognizedStack("Test".to_string()))
    );
}

#[test]
fn names_go_round() {
    for stack in [Stack::Prod, Stack::Test] {
        assert_eq!(Stack::from_str(&stack.to_string()), Ok(stack));
        assert_eq!(Stack::from_str(stack.as_str()), Ok(stack));
    }
    assert_eq!(Stack::Prod.to_string(), "prod");
    assert_eq!(Stack::Test.to_string(), "test");
}

#[test]
fn other_texts_are_refused_with_the_text() {
    for text in ["", "Prod", "PROD", " prod", "prod ", "production", "pro", "dev", "tEst", "test\n"] {
        assert_eq!(
            Stack::from_str(text),
            Err(ParseStackError::UnrecognizedStack(text.to_string()))
        );
    }
}

#[test]
fn unrecognized_stack_message() {
    let e = Stack::from_str("dev").unwrap_err();
    assert_eq!(e.message(), "Unrecognized stack: dev");
    let e = Stack::from_str("").unwrap_err();
    assert_eq!(e.message(), "Unrecognized stack: ");
}

#[test]
fn variable_name() {
    assert_eq!(stack_var(), "STACK");
}

#[test]
fn from_env_set_to_a_name() {
    assert_eq!(Stack::from_env(&EnvValue::Text("prod".to_string())), Ok(Stack::Prod));
    assert_eq!(Stack::from_env(&EnvValue::Text("test".to_string())), Ok(Stack::Test));
}

#[test]
fn from_env_unset() {
    assert_eq!(Stack::from_env(&EnvValue::Unset), Err(StackError::NotPresent));
}

#[test]
fn from_env_not_unicode() {
    assert_eq!(Stack::from_env(&EnvValue::NotUnicode), Err(StackError::NotUnicode));
}

#[test]
fn from_env_unknown_text() {
    assert_eq!(
        Stack::from_env(&EnvValue::Text("staging".to_string())),
        Err(StackError::Parse(ParseStackError::UnrecognizedStack("staging".to_string())))
    );
}

#[test]
fn stack_error_messages() {
    assert_eq!(StackError::NotPresent.message(), "environment variable not found");
    assert_eq!(StackError::NotUnicode.message(), "environment variable was not valid unicode");
    let e = Stack::from_env(&EnvValue::Text("x".to_string())).unwrap_err();
    assert_eq!(e.message(), "Error parsing stack from env var 'STACK'");
}

#[test]
fn select_falls_back_to_none() {
    assert_eq!(Stack::select(&EnvValue::Unset), None);
    assert_eq!(Stack::select(&EnvValue::NotUnicode), None);
    assert_eq!(Stack::select(&EnvValue::Text("Test".to_string())), None);
    assert_eq!(Stack::select(&EnvValue::Text("test".to_string())), Some(Stack::Test));
    assert_eq!(Stack::select(&EnvValue::Text("prod".to_string())), Some(Stack::Prod));
}
