//! From a JSON text to a YAML text by way of a squad.

use vstd::prelude::*;
use vstd::string::*;
use crate::document::{Node, Tree};
use crate::model::{decode_squad, encode_squad, DecodeError, Squad, SquadView};
use crate::laws::lemma_squad_plain;

verus! {

#[verifier::external_type_specification]
#[verifier::external_body]
pub struct ExJsonValue(serde_json::Value);

#[verifier::external_type_specification]
#[verifier::external_body]
pub struct ExJsonError(serde_json::Error);

#[verifier::external_type_specification]
#[verifier::external_body]
pub struct ExYamlValue(serde_yaml::Value);

#[verifier::external_type_specification]
#[verifier::external_body]
pub struct ExYamlError(serde_yaml::Error);

/// The document that `bytes` hold as a JSON text, or the words of the
/// parser's error where they are none.
pub uninterp spec fn json_document(bytes: Seq<u8>) -> Result<Tree, Seq<char>>;

/// The words of a JSON parser's error.
pub uninterp spec fn json_error_words(error: serde_json::Error) -> Seq<char>;

/// The document that a JSON value holds.
pub uninterp spec fn json_tree(value: serde_json::Value) -> Tree;

/// The document that a YAML value holds.
pub uninterp spec fn yaml_tree(value: serde_yaml::Value) -> Tree;

/// The YAML text of a document, or the words of the writer's error where
/// it cannot be written.
pub uninterp spec fn yaml_text(tree: Tree) -> Result<Seq<char>, Seq<char>>;

/// The words of a YAML writer's error.
pub uninterp spec fn yaml_error_words(error: serde_yaml::Error) -> Seq<char>;

/// Why a text could not be turned into another.
#[derive(Clone, Debug, PartialEq, Eq)]
pub enum TranscodeError {
    /// The input is no JSON text. The parser's own words are attached.
    Syntax(String),
    /// The input is a JSON text, but the document in it is no squad.
    Shape(DecodeError),
    /// The document to write is not plain: it holds a number that is no
    /// signed 64-bit integer, or a record with a name twice.
    NotPlain,
    /// The document could not be written as YAML. The writer's own words
    /// are attached.
    Emit(String),
}

/// Where the text that was produced goes.
#[derive(Clone, Debug, PartialEq, Eq)]
pub enum Delivery {
    /// The file at `path` is created or truncated and gets `content`.
    File { path: String, content: String },
    /// `content` is printed as one line on standard output.
    Stdout { content: String },
}

/// How a transcoding ends.
pub enum Outcome {
    /// The YAML text was produced.
    Written(Seq<char>),
    /// The input is no JSON text; the parser's words.
    Syntax(Seq<char>),
    /// The document is no squad.
    Shape(DecodeError),
    /// The document to write is not plain.
    NotPlain,
    /// The document could not be written as YAML; the writer's words.
    Emit(Seq<char>),
}

/// How the writing of a document as YAML ends.
pub open spec fn emit_outcome(tree: Tree) -> Outcome {
    if !tree.plain() {
        Outcome::NotPlain
    } else {
        match yaml_text(tree) {
            Ok(text) => Outcome::Written(text),
            Err(words) => Outcome::Emit(words),
        }
    }
}

/// How the transcoding of a document ends: the document must hold a squad,
/// and the YAML text is that of the squad's own document, so what the input
/// held beside the squad's fields is gone.
pub open spec fn document_outcome(tree: Tree) -> Outcome {
    match decode_squad(tree) {
        Err(e) => Outcome::Shape(e),
        Ok(squad) => match yaml_text(encode_squad(squad)) {
            Ok(text) => Outcome::Written(text),
            Err(words) => Outcome::Emit(words),
        },
    }
}

/// How the transcoding of an input ends. An input that is no JSON text
/// ends it with the parser's words.
pub open spec fn input_outcome(bytes: Seq<u8>) -> Outcome {
    match json_document(bytes) {
        Err(words) => Outcome::Syntax(words),
        Ok(tree) => document_outcome(tree),
    }
}

/// Whether a delivery puts `text` where `output` says: into the file that
/// is named, as it is, or else on standard output with a line end behind
/// it.
pub open spec fn places(delivery: Delivery, text: Seq<char>, output: Option<String>) -> bool {
    match output {
        Some(path) => delivery is File && delivery->File_path == path
            && delivery->File_content@ == text,
        None => delivery is Stdout && delivery->Stdout_content@ == text + seq!['\n'],
    }
}

/// The outcome that a result of transcoding stands for.
pub open spec fn outcome_of(res: Result<String, TranscodeError>) -> Outcome {
    match res {
        Ok(text) => Outcome::Written(text@),
        Err(TranscodeError::Syntax(words)) => Outcome::Syntax(words@),
        Err(TranscodeError::Shape(e)) => Outcome::Shape(e),
        Err(TranscodeError::NotPlain) => Outcome::NotPlain,
        Err(TranscodeError::Emit(words)) => Outcome::Emit(words@),
    }
}

/// `serde_json::from_slice` at the type `serde_json::Value`: parses the
/// whole of `bytes` as one JSON text. The contract claims only that the
/// outcome depends on the bytes alone: an error with its words where they
/// hold no document, and else a value that holds that document.
#[verifier::external_body]
fn json_parse(bytes: &[u8]) -> (res: Result<serde_json::Value, serde_json::Error>)
    ensures
        match res {
            Ok(value) => json_document(bytes@) == Ok::<Tree, Seq<char>>(json_tree(value)),
            Err(e) => json_document(bytes@) == Err::<Tree, Seq<char>>(json_error_words(e)),
        },
{
    serde_json::from_slice::<serde_json::Value>(bytes)
}

/// Takes a `serde_json::Value` apart, variant by variant, into a node. A
/// number goes through `serde_json::Number::as_i64`, an object through its
/// iterator, which hands out the members in the order in which the map
/// holds them. The node's value is what the contract calls the value's
/// document.
#[verifier::external_body]
fn json_lift(value: serde_json::Value) -> (node: Node)
    ensures
        node@ == json_tree(value),
{
    match value {
        serde_json::Value::Null => Node::Null,
        serde_json::Value::Bool(b) => Node::Bool(b),
        serde_json::Value::Number(n) => Node::Number(n.as_i64()),
        serde_json::Value::String(s) => Node::Text(s),
        serde_json::Value::Array(items) => Node::List(items.into_iter().map(json_lift).collect()),
        serde_json::Value::Object(members) => Node::Record(
            members.into_iter().map(|(k, v)| (k, json_lift(v))).collect(),
        ),
    }
}

/// The `Display` text of a `serde_json::Error`: the words of the error.
#[verifier::external_body]
fn json_error_text(error: &serde_json::Error) -> (text: String)
    ensures
        text@ == json_error_words(*error),
{
    error.to_string()
}

/// Builds the `serde_yaml::Value` with the shape of a node: a sequence for
/// a list, a mapping with string keys for a record, filled in the node's
/// order. Nodes that are not plain are left out: a mapping keeps one entry
/// of a name, and a number that is no 64-bit integer has no image. On a
/// plain tree nothing is lost on the way, so the value's document is the
/// node's.
#[verifier::external_body]
fn yaml_lower(node: &Node) -> (value: serde_yaml::Value)
    requires
        node@.plain(),
    ensures
        yaml_tree(value) == node@,
{
    match node {
        Node::Null => serde_yaml::Value::Null,
        Node::Bool(b) => serde_yaml::Value::Bool(*b),
        Node::Number(Some(n)) => serde_yaml::Value::Number(serde_yaml::Number::from(*n)),
        Node::Number(None) => serde_yaml::Value::Null,
        Node::Text(s) => serde_yaml::Value::String(s.clone()),
        Node::List(items) => serde_yaml::Value::Sequence(items.iter().map(yaml_lower).collect()),
        Node::Record(entries) => serde_yaml::Value::Mapping(
            entries.iter().map(|e| (serde_yaml::Value::String(e.0.clone()), yaml_lower(&e.1))).collect(),
        ),
    }
}

/// `serde_yaml::to_string` on a `serde_yaml::Value`. The contract claims
/// only that the outcome depends on the value's document alone: the text,
/// or an error with its words.
#[verifier::external_body]
fn yaml_emit(value: &serde_yaml::Value) -> (res: Result<String, serde_yaml::Error>)
    ensures
        match res {
            Ok(text) => yaml_text(yaml_tree(*value)) == Ok::<Seq<char>, Seq<char>>(text@),
            Err(e) => yaml_text(yaml_tree(*value)) == Err::<Seq<char>, Seq<char>>(
                yaml_error_words(e),
            ),
        },
{
    serde_yaml::to_string(value)
}

/// The `Display` text of a `serde_yaml::Error`: the words of the error.
#[verifier::external_body]
fn yaml_error_text(error: &serde_yaml::Error) -> (text: String)
    ensures
        text@ == yaml_error_words(*error),
{
    error.to_string()
}

/// Reads a JSON text into a document. The whole input must be one JSON
/// text; on failure the parser's words are handed back.
///
/// The whole text is parsed before anything is looked for in it. So a
/// member that no reader asks for must still be well formed: a number out
/// of range in it, or a nesting beyond the parser's depth, makes the input
/// no JSON text. And where an object gives a name twice, the parser keeps
/// the later member and drops the earlier without a word.
pub fn parse_json(bytes: &[u8]) -> (res: Result<Node, TranscodeError>)
    ensures
        match res {
            Ok(node) => json_document(bytes@) == Ok::<Tree, Seq<char>>(node@),
            Err(e) => e is Syntax && json_document(bytes@) == Err::<Tree, Seq<char>>(
                e->Syntax_0@,
            ),
        },
{
    match json_parse(bytes) {
        Ok(value) => Ok(json_lift(value)),
        Err(error) => Err(TranscodeError::Syntax(json_error_text(&error))),
    }
}

/// Writes a plain document as a YAML text.
fn emit_plain(node: &Node) -> (res: Result<String, TranscodeError>)
    requires
        node@.plain(),
    ensures
        outcome_of(res) == emit_outcome(node@),
{
    let value = yaml_lower(node);
    match yaml_emit(&value) {
        Ok(text) => Ok(text),
        Err(error) => Err(TranscodeError::Emit(yaml_error_text(&error))),
    }
}

/// Writes a document as a YAML text. A document that is not plain is
/// refused, since it could not be written without loss.
pub fn emit_yaml(node: &Node) -> (res: Result<String, TranscodeError>)
    ensures
        outcome_of(res) == emit_outcome(node@),
{
    if node.is_plain() {
        emit_plain(node)
    } else {
        Err(TranscodeError::NotPlain)
    }
}

/// Turns a document that holds a squad into the squad's YAML text.
pub fn transcode_document(node: &Node) -> (res: Result<String, TranscodeError>)
    ensures
        outcome_of(res) == document_outcome(node@),
{
    match Squad::from_node(node) {
        Err(e) => Err(TranscodeError::Shape(e)),
        Ok(squad) => {
            let document = squad.to_node();
            proof {
                lemma_squad_plain(squad@);
            }
            emit_plain(&document)
        },
    }
}

/// How the reading of a squad from an input ends: with the squad, or as a
/// transcoding ends that gets no further.
pub open spec fn squad_in(bytes: Seq<u8>) -> Result<SquadView, Outcome> {
    match json_document(bytes) {
        Err(words) => Err(Outcome::Syntax(words)),
        Ok(tree) => match decode_squad(tree) {
            Err(e) => Err(Outcome::Shape(e)),
            Ok(squad) => Ok(squad),
        },
    }
}

/// What is owed of a transcoding of `input` with the output `output`: a
/// delivery if and only if the input's outcome is a written text, which the
/// delivery then puts where `output` says; and else the error of the
/// input's outcome.
pub open spec fn transcoded(
    input: Seq<u8>,
    output: Option<String>,
    res: Result<Delivery, TranscodeError>,
) -> bool {
    match res {
        Ok(delivery) => input_outcome(input) is Written && places(
            delivery,
            input_outcome(input)->Written_0,
            output,
        ),
        Err(e) => outcome_of(Err(e)) == input_outcome(input),
    }
}

/// Reads the squad that a JSON text holds. The text is read as
/// [`parse_json`] reads it, with all that is said there, and the squad is
/// read from its document as [`Squad::from_node`] does.
pub fn read_squad(input: &[u8]) -> (res: Result<Squad, TranscodeError>)
    ensures
        match res {
            Ok(squad) => squad_in(input@) == Ok::<SquadView, Outcome>(squad@),
            Err(e) => squad_in(input@) == Err::<SquadView, Outcome>(outcome_of(Err(e))),
        },
{
    match parse_json(input) {
        Err(e) => Err(e),
        Ok(node) => match Squad::from_node(&node) {
            Err(e) => Err(TranscodeError::Shape(e)),
            Ok(squad) => Ok(squad),
        },
    }
}

/// Writes a squad as a YAML text: the text of the squad's own document.
pub fn write_squad(squad: &Squad) -> (res: Result<String, TranscodeError>)
    ensures
        outcome_of(res) == emit_outcome(encode_squad(squad@)),
        !(outcome_of(res) is NotPlain),
{
    let document = squad.to_node();
    proof {
        lemma_squad_plain(squad@);
    }
    emit_plain(&document)
}

/// Turns the JSON text of a squad into its YAML text. Nothing is produced
/// unless the whole input is a JSON text that holds a squad. The text is
/// read as [`parse_json`] reads it: every member is parsed, asked for or
/// not, and of two members of a name the later counts.
pub fn transcode_text(input: &[u8]) -> (res: Result<String, TranscodeError>)
    ensures
        outcome_of(res) == input_outcome(input@),
{
    match parse_json(input) {
        Err(e) => Err(e),
        Ok(node) => transcode_document(&node),
    }
}

/// Says where a produced text goes: into the file that was named, as it
/// is, or else to standard output with a line end behind it.
pub fn deliver(text: String, output: Option<String>) -> (delivery: Delivery)
    ensures
        places(delivery, text@, output),
{
    match output {
        Some(path) => Delivery::File { path, content: text },
        None => {
            proof {
                reveal_strlit("\n");
                assert("\n"@ =~= seq!['\n']);
            }
            Delivery::Stdout { content: text.concat("\n") }
        },
    }
}

/// Transcodes `input` and says where the result goes. On any error there is
/// nothing to deliver, so nothing is written.
pub fn transcode(input: &[u8], output: Option<String>) -> (res: Result<Delivery, TranscodeError>)
    ensures
        transcoded(input@, output, res),
{
    match transcode_text(input) {
        Err(e) => Err(e),
        Ok(text) => Ok(deliver(text, output)),
    }
}

/// The transcoding of an input is the writing of the squad that is read
/// from it: what it held beside the squad is gone.
pub proof fn lemma_transcoding_goes_through_the_squad(input: Seq<u8>)
    ensures
        input_outcome(input) == match squad_in(input) {
            Err(outcome) => outcome,
            Ok(squad) => emit_outcome(encode_squad(squad)),
        },
{
    if squad_in(input) is Ok {
        lemma_squad_plain(squad_in(input)->Ok_0);
    }
}

/// Without an output, what is delivered goes to standard output: the text,
/// and one line end behind it. No file is named.
pub proof fn lemma_stdout_without_output(input: Seq<u8>, res: Result<Delivery, TranscodeError>)
    requires
        transcoded(input, None, res),
        res is Ok,
    ensures
        res->Ok_0 is Stdout,
        res->Ok_0->Stdout_content@ == input_outcome(input)->Written_0 + seq!['\n'],
{
}

/// With an output, what is delivered goes to the file that was named, and
/// is the text as it is.
pub proof fn lemma_file_with_output(
    input: Seq<u8>,
    path: String,
    res: Result<Delivery, TranscodeError>,
)
    requires
        transcoded(input, Some(path), res),
        res is Ok,
    ensures
        res->Ok_0 is File,
        res->Ok_0->File_path == path,
        res->Ok_0->File_content@ == input_outcome(input)->Written_0,
{
}

/// An input that is malformed, or holds no squad, or whose squad cannot be
/// written, ends the transcoding with an error: there is no delivery, and
/// so nothing to write to a file or to standard output.
pub proof fn lemma_failure_delivers_nothing(
    input: Seq<u8>,
    output: Option<String>,
    res: Result<Delivery, TranscodeError>,
)
    requires
        transcoded(input, output, res),
        !(input_outcome(input) is Written),
    ensures
        res is Err,
        input_outcome(input) is Syntax ==> res->Err_0 is Syntax && res->Err_0->Syntax_0@
            == json_document(input)->Err_0,
        input_outcome(input) is Shape ==> res->Err_0 is Shape,
{
}

/// A delivery is owed wherever the input's outcome is a written text.
pub proof fn lemma_success_is_owed(
    input: Seq<u8>,
    output: Option<String>,
    res: Result<Delivery, TranscodeError>,
)
    requires
        transcoded(input, output, res),
        input_outcome(input) is Written,
    ensures
        res is Ok,
{
}

} // verus!
