//! The deployment stack: a closed set of tags, each with one lower-case name.

use vstd::prelude::*;
use vstd::string::*;

verus! {

/// The deployment stack that selects which settings override is applied.
#[derive(Clone, Copy, Debug, PartialEq, Eq, Structural)]
pub enum Stack {
    Prod,
    Test,
}

/// Why a text is not the name of a stack.
#[derive(Clone, Debug, PartialEq, Eq)]
pub enum ParseStackError {
    /// The text is none of the known names; it is carried along unchanged.
    UnrecognizedStack(String),
}

/// What the process environment holds under the stack variable.
#[derive(Clone, Debug, PartialEq, Eq)]
pub enum EnvValue {
    /// The variable is not set.
    Unset,
    /// The variable is set to something that is not valid Unicode.
    NotUnicode,
    /// The variable is set to this text.
    Text(String),
}

/// Why no stack could be taken from the environment.
#[derive(Clone, Debug, PartialEq, Eq)]
pub enum StackError {
    /// The variable is not set.
    NotPresent,
    /// The variable does not hold valid Unicode.
    NotUnicode,
    /// The variable holds a text that names no stack.
    Parse(ParseStackError),
}

/// The stack that `text` names, if it names one. The match is exact:
/// case matters and nothing is trimmed.
pub open spec fn parse_stack(text: Seq<char>) -> Option<Stack> {
    if text == "prod"@ {
        Some(Stack::Prod)
    } else if text == "test"@ {
        Some(Stack::Test)
    } else {
        None
    }
}

/// The stack that the environment selects: the one that the variable's
/// text names. Nothing is selected where the variable is not set, holds no
/// Unicode, or holds a text that names no stack.
pub open spec fn selected(value: EnvValue) -> Option<Stack> {
    match value {
        EnvValue::Text(text) => parse_stack(text@),
        _ => None,
    }
}

impl ParseStackError {
    /// The text that named no stack.
    pub open spec fn offending(self) -> Seq<char> {
        match self {
            ParseStackError::UnrecognizedStack(text) => text@,
        }
    }

    /// A line for the user: the fixed prefix, then the offending text.
    pub fn message(&self) -> (line: String)
        ensures
            line@ == "Unrecognized stack: "@ + self.offending(),
    {
        match self {
            ParseStackError::UnrecognizedStack(text) => {
                String::from_str("Unrecognized stack: ").concat(text.as_str())
            },
        }
    }
}

/// The name of the environment variable that selects the stack.
pub fn stack_var() -> (name: &'static str)
    ensures
        name@ == "STACK"@,
{
    "STACK"
}

impl StackError {
    /// A line for the user that says what went wrong.
    pub open spec fn line(self) -> Seq<char> {
        match self {
            StackError::NotPresent => "environment variable not found"@,
            StackError::NotUnicode => "environment variable was not valid unicode"@,
            StackError::Parse(_) => "Error parsing stack from env var 'STACK'"@,
        }
    }

    /// A line for the user that says what went wrong. Where the variable's
    /// text names no stack, [`ParseStackError::message`] says which text.
    pub fn message(&self) -> (line: String)
        ensures
            line@ == self.line(),
    {
        match self {
            StackError::NotPresent => String::from_str("environment variable not found"),
            StackError::NotUnicode => String::from_str(
                "environment variable was not valid unicode",
            ),
            StackError::Parse(_) => String::from_str("Error parsing stack from env var 'STACK'"),
        }
    }
}

impl Stack {
    /// The lower-case name of the stack, as written in the environment and
    /// in the names of settings sources.
    pub open spec fn name(self) -> Seq<char> {
        match self {
            Stack::Prod => "prod"@,
            Stack::Test => "test"@,
        }
    }

    /// The name of the stack as a string slice.
    pub fn as_str(&self) -> (name: &'static str)
        ensures
            name@ == self.name(),
    {
        match self {
            Stack::Prod => "prod",
            Stack::Test => "test",
        }
    }

    /// The name of the stack as an owned string.
    pub fn to_string(&self) -> (name: String)
        ensures
            name@ == self.name(),
    {
        String::from_str(self.as_str())
    }

    /// Reads a stack from its name. Any other text is handed back in the error.
    pub fn from_str(s: &str) -> (res: Result<Stack, ParseStackError>)
        ensures
            match res {
                Ok(stack) => parse_stack(s@) == Some(stack),
                Err(e) => parse_stack(s@) is None && e.offending() == s@,
            },
    {
        let text = String::from_str(s);
        if text == String::from_str("prod") {
            Ok(Stack::Prod)
        } else if text == String::from_str("test") {
            Ok(Stack::Test)
        } else {
            Err(ParseStackError::UnrecognizedStack(text))
        }
    }

    /// Takes the stack from what the environment holds under the stack
    /// variable. Each way in which it holds none has its own error, and a
    /// text that names no stack is carried in it.
    pub fn from_env(value: &EnvValue) -> (res: Result<Stack, StackError>)
        ensures
            match *value {
                EnvValue::Unset => res == Err::<Stack, StackError>(StackError::NotPresent),
                EnvValue::NotUnicode => res == Err::<Stack, StackError>(StackError::NotUnicode),
                EnvValue::Text(text) => match parse_stack(text@) {
                    Some(stack) => res == Ok::<Stack, StackError>(stack),
                    None => res is Err && res->Err_0 is Parse
                        && res->Err_0->Parse_0.offending() == text@,
                },
            },
    {
        match value {
            EnvValue::Unset => Err(StackError::NotPresent),
            EnvValue::NotUnicode => Err(StackError::NotUnicode),
            EnvValue::Text(text) => match Stack::from_str(text.as_str()) {
                Ok(stack) => Ok(stack),
                Err(e) => Err(StackError::Parse(e)),
            },
        }
    }

    /// The stack to go on with: the one that the environment selects, and
    /// none where it selects none. A failure to select is no failure of the
    /// program.
    pub fn select(value: &EnvValue) -> (stack: Option<Stack>)
        ensures
            stack == selected(*value),
    {
        match Stack::from_env(value) {
            Ok(stack) => Some(stack),
            Err(_) => None,
        }
    }
}

impl std::str::FromStr for Stack {
    type Err = ParseStackError;

    /// Reads a stack from its name, as [`Stack::from_str`] does.
    fn from_str(s: &str) -> (res: Result<Stack, ParseStackError>)
        ensures
            match res {
                Ok(stack) => parse_stack(s@) == Some(stack),
                Err(e) => parse_stack(s@) is None && e.offending() == s@,
            },
    {
        Stack::from_str(s)
    }
}

/// Every stack is read back from its own name.
pub proof fn lemma_name_parses(stack: Stack)
    ensures
        parse_stack(stack.name()) == Some(stack),
{
    reveal_strlit("prod");
    reveal_strlit("test");
    assert("prod"@[0] == 'p' && "test"@[0] == 't');
}

/// A text that names a stack is that stack's name, letter for letter.
pub proof fn lemma_parsed_name(text: Seq<char>)
    requires
        parse_stack(text) is Some,
    ensures
        parse_stack(text)->Some_0.name() == text,
{
}

/// A text names a stack only if it is the name of one: any other text is
/// refused, and no stack stands in for it.
pub proof fn lemma_unknown_refused(text: Seq<char>)
    ensures
        parse_stack(text) is None <==> forall|stack: Stack| stack.name() != text,
{
    if parse_stack(text) is None {
        assert forall|stack: Stack| stack.name() != text by {
            match stack {
                Stack::Prod => {},
                Stack::Test => {},
            }
        }
    } else {
        lemma_parsed_name(text);
        let stack = parse_stack(text)->Some_0;
        assert(stack.name() == text);
    }
}

} // verus!
