//! Environment variables in the log directory.

use vstd::prelude::*;
use std::collections::HashMap;
use crate::settings::Logging;

verus! {

#[verifier::external_type_specification]
#[verifier::external_body]
pub struct ExSubstituteError(envsubst::Error);

/// Why the variables could not be put into a text.
#[derive(Clone, Debug, PartialEq, Eq)]
pub struct SubstituteError {
    /// What went wrong, in words.
    pub message: String,
}

/// Whether a text is free of the three characters that a reference is made
/// of: the dollar sign and the two braces.
pub open spec fn is_clean(text: Seq<char>) -> bool {
    forall|i: int| 0 <= i < text.len() ==> text[i] != '$' && text[i] != '{' && text[i] != '}'
}

/// Whether every variable has a clean name and a clean value.
pub open spec fn all_clean(variables: Map<String, String>) -> bool {
    forall|name: String| #[trigger]
        variables.contains_key(name) ==> is_clean(name@) && is_clean(variables[name]@)
}

/// The text that refers to the variable `name`: a dollar sign, and the
/// name in braces.
pub open spec fn reference_to(name: Seq<char>) -> Seq<char> {
    seq!['$', '{'] + name + seq!['}']
}

/// Whether `text` refers to the variable `name` at `i`.
pub open spec fn refers_at(text: Seq<char>, name: Seq<char>, i: int) -> bool {
    &&& 0 <= i
    &&& i + reference_to(name).len() <= text.len()
    &&& text.subrange(i, i + reference_to(name).len()) == reference_to(name)
}

/// Whether `text` refers to the variable `name` somewhere.
pub open spec fn refers_to(text: Seq<char>, name: Seq<char>) -> bool {
    exists|i: int| refers_at(text, name, i)
}

/// Whether `text` refers to one of the variables.
pub open spec fn refers_to_some(text: Seq<char>, variables: Map<String, String>) -> bool {
    exists|name: String| #[trigger] variables.contains_key(name) && refers_to(text, name@)
}

/// Whether a text holds no dollar sign.
pub open spec fn no_dollar(text: Seq<char>) -> bool {
    forall|i: int| 0 <= i < text.len() ==> text[i] != '$'
}

/// Whether `text` is `before`, a reference to the variable `name` and
/// `after`, with no dollar sign but that of the reference.
pub open spec fn lone_reference(
    text: Seq<char>,
    before: Seq<char>,
    name: Seq<char>,
    after: Seq<char>,
) -> bool {
    &&& text == before + reference_to(name) + after
    &&& no_dollar(before)
    &&& no_dollar(after)
}

/// Whether every dollar sign of `text` starts a reference to one of the
/// variables.
pub open spec fn all_referred(text: Seq<char>, variables: Map<String, String>) -> bool {
    forall|i: int|
        0 <= i < text.len() && #[trigger] text[i] == '$' ==> exists|name: String| #[trigger]
            variables.contains_key(name) && refers_at(text, name@, i)
}

/// Whether `output` starts with `head`.
pub open spec fn starts_with(output: Seq<char>, head: Seq<char>) -> bool {
    head.len() <= output.len() && output.subrange(0, head.len() as int) == head
}

/// Whether `output` is `text` with each reference to a variable replaced by
/// the variable's value, and all else as it is: read from the left, a
/// character that is no dollar sign stands for itself, and at a dollar
/// sign stands the value of a variable to which `text` refers there.
pub open spec fn replaced_as(
    text: Seq<char>,
    variables: Map<String, String>,
    output: Seq<char>,
) -> bool
    decreases text.len(),
{
    if text.len() == 0 {
        output.len() == 0
    } else if text[0] != '$' {
        output.len() > 0 && output[0] == text[0] && replaced_as(
            text.skip(1),
            variables,
            output.skip(1),
        )
    } else {
        exists|name: String| #[trigger]
            variables.contains_key(name) && refers_at(text, name@, 0) && starts_with(
                output,
                variables[name]@,
            ) && replaced_as(
                text.skip(reference_to(name@).len() as int),
                variables,
                output.skip(variables[name]@.len() as int),
            )
    }
}

/// What is owed of a substitution that succeeded, whatever the order in
/// which the variables were taken. A text that refers to none of them comes
/// back as it is, and one that refers to some of them comes back changed.
/// A text whose one dollar sign starts a reference to one of them comes
/// back with that variable's value in the reference's place. And a text in
/// which every dollar sign starts a reference to one of them comes back
/// with each reference replaced by its variable's value.
pub open spec fn substituted(
    template: Seq<char>,
    variables: Map<String, String>,
    output: Seq<char>,
) -> bool {
    &&& !refers_to_some(template, variables) ==> output == template
    &&& refers_to_some(template, variables) ==> output != template
    &&& forall|before: Seq<char>, name: String, after: Seq<char>|
        variables.contains_key(name) && #[trigger] lone_reference(template, before, name@, after)
            ==> output == before + variables[name]@ + after
    &&& all_referred(template, variables) ==> replaced_as(template, variables, output)
}

/// Whether a text holds the two characters with which a reference starts.
pub open spec fn has_reference(text: Seq<char>) -> bool {
    exists|i: int| 0 <= i < text.len() - 1 && #[trigger] text[i] == '$' && text[i + 1] == '{'
}

/// A text without the start of a reference refers to no variable.
pub proof fn lemma_no_reference(text: Seq<char>, variables: Map<String, String>)
    requires
        !has_reference(text),
    ensures
        !refers_to_some(text, variables),
{
    if refers_to_some(text, variables) {
        let name = choose|name: String| #[trigger]
            variables.contains_key(name) && refers_to(text, name@);
        let i = choose|i: int| refers_at(text, name@, i);
        let found = text.subrange(i, i + reference_to(name@).len());
        assert(found[0] == '$' && found[1] == '{');
        assert(text[i] == '$' && text[i + 1] == '{');
    }
}

/// `envsubst::substitute`: replaces each `${name}` in `template` by the
/// value of the variable `name`. The contract claims what the crate's source
/// shows of every outcome. The call fails if and only if some variable has
/// a dollar sign or a brace in its name or value. A template that refers to
/// none of the variables comes back as it is, whatever other references it
/// holds. One that refers to some of them comes back changed: references to
/// different variables do not overlap, so that each is still there when its
/// turn comes, and a replacement takes a dollar sign away and brings none.
/// One with a single dollar sign, at the start of a reference to a
/// variable, comes back with the value in the reference's place: no other
/// variable's reference can begin there. One in which every dollar sign
/// starts a reference to a variable comes back with each reference
/// replaced: a value brings no dollar sign and no brace, so that no
/// replacement makes or unmakes a reference. Of other templates the text
/// after several replacements is not claimed: where a replacement
/// completes a reference that a stray dollar sign began, the crate lets
/// the walk of a hash map decide whether that one is replaced too.
#[verifier::external_body]
fn substitute(template: &str, variables: &HashMap<String, String>) -> (res: Result<
    String,
    envsubst::Error,
>)
    ensures
        res is Ok <==> all_clean(variables@),
        res is Ok ==> substituted(template@, variables@, res->Ok_0@),
{
    envsubst::substitute(template, variables)
}

/// The `Display` text of an `envsubst::Error`. Nothing is claimed of it.
#[verifier::external_body]
fn substitute_error_text(error: &envsubst::Error) -> String {
    error.to_string()
}

impl Logging {
    /// The log directory with the variables' values in place of the
    /// references to them. One variable with a dollar sign or a brace in
    /// its name or value makes the whole call fail, referred to or not. A
    /// reference to a variable that is not there stays as it is.
    pub fn resolved_dir(&self, variables: &HashMap<String, String>) -> (res: Result<
        String,
        SubstituteError,
    >)
        ensures
            res is Ok <==> all_clean(variables@),
            res is Ok ==> substituted(self.log_dir@, variables@, res->Ok_0@),
            res is Ok && !has_reference(self.log_dir@) ==> res->Ok_0@ == self.log_dir@,
    {
        proof {
            if !has_reference(self.log_dir@) {
                lemma_no_reference(self.log_dir@, variables@);
            }
        }
        match substitute(self.log_dir.as_str(), variables) {
            Ok(dir) => Ok(dir),
            Err(error) => Err(SubstituteError { message: substitute_error_text(&error) }),
        }
    }
}

} // verus!
