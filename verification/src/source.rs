//! Reading the settings sources: from what a file holds to what the source
//! says of each setting.

use vstd::prelude::*;
use crate::settings::{
    assembled, loaded, Layer, LayerView, Lookup, LookupView, Setting, Settings, SettingsError,
    Source, SourceView,
};
use crate::stack::Stack;
use crate::table::{member, Item, ItemView};

verus! {

#[verifier::external_type_specification]
#[verifier::external_body]
pub struct ExConfigValue(config::Value);

#[verifier::external_type_specification]
#[verifier::external_body]
pub struct ExConfigError(config::ConfigError);

/// The textual form of a settings source.
#[derive(Clone, Copy, Debug, PartialEq, Eq, Structural)]
pub enum Format {
    Toml,
    Json,
    Yaml,
    Hjson,
    Ini,
}

/// The forms whose text is handed to its parser here. JSON is the one form
/// whose parser comes back from every text, with a root or with an error:
/// it gives up at a fixed depth of nesting. The parsers of the other forms
/// stop the program on some texts.
#[derive(Clone, Copy, Debug, PartialEq, Eq, Structural)]
pub enum TextFormat {
    Json,
}

/// What was found on disk for one source.
#[derive(Debug, PartialEq, Eq)]
pub enum SourceFile {
    /// No file goes by the source's name.
    Absent,
    /// There is a file, but nothing could be made of it: it could not be
    /// read, has no known form, or is malformed. The reason is attached, in
    /// words.
    Unreadable(String),
    /// The file's text, in a form that is parsed here.
    Text { text: String, format: TextFormat },
    /// The root table of a file that has been parsed already.
    Root(Item),
}

/// What the parser makes of a text: what stands at its root, or the words
/// of its error where the text is malformed.
pub uninterp spec fn config_root(text: Seq<char>, format: TextFormat) -> Result<
    ItemView,
    Seq<char>,
>;

/// What a parsed value holds: its text where it has one, its members by
/// their names where it is a table.
pub uninterp spec fn config_item(value: config::Value) -> ItemView;

/// The words of a parser's error.
pub uninterp spec fn config_error_words(error: config::ConfigError) -> Seq<char>;

impl Format {
    /// The form as one that is parsed here, if it is one. Of a text in
    /// another form the root table is handed over, parsed by the caller.
    pub open spec fn text_format(self) -> Option<TextFormat> {
        match self {
            Format::Json => Some(TextFormat::Json),
            _ => None,
        }
    }

    /// The form as one that is parsed here, if it is one.
    pub fn as_text_format(&self) -> (format: Option<TextFormat>)
        ensures
            format == self.text_format(),
    {
        match self {
            Format::Json => Some(TextFormat::Json),
            _ => None,
        }
    }
}

/// The member of a table that goes by a name. What is no table has none.
pub open spec fn member_of(table: ItemView, name: Seq<char>) -> Option<ItemView> {
    match table {
        ItemView::Table(members) => if members.contains_key(name) {
            Some(members[name])
        } else {
            None
        },
        _ => None,
    }
}

/// What a value says of a setting: its text, or no text.
pub open spec fn word_of(value: ItemView) -> LookupView {
    match value {
        ItemView::Text(text) => LookupView::Found(text),
        _ => LookupView::Invalid,
    }
}

/// What the section of a source says of a setting. Where the root has no
/// member of the section's name, it is silent. Where that member is no
/// table, what it says is no text: it stands in the setting's way. Else
/// the member of the section that goes by the setting's name decides, and
/// without one the section is silent.
pub open spec fn nested_in(root: ItemView, setting: Setting) -> LookupView {
    match member_of(root, setting.section()) {
        None => LookupView::Absent,
        Some(section) => if !(section is Table) {
            LookupView::Invalid
        } else {
            match member_of(section, setting.name()) {
                None => LookupView::Absent,
                Some(value) => word_of(value),
            }
        },
    }
}

/// What the root of a source says of a setting under the setting's path in
/// one piece.
pub open spec fn flat_in(root: ItemView, setting: Setting) -> LookupView {
    match member_of(root, setting.path()) {
        None => LookupView::Absent,
        Some(value) => word_of(value),
    }
}

/// What the root of a source says of a setting: what its section says and,
/// where the section is silent, what the root says under the setting's
/// path in one piece.
pub open spec fn setting_in(root: ItemView, setting: Setting) -> LookupView {
    match nested_in(root, setting) {
        LookupView::Absent => flat_in(root, setting),
        word => word,
    }
}

/// What the root of a source says of each setting.
pub open spec fn layer_in(root: ItemView) -> LayerView {
    LayerView {
        log_dir: setting_in(root, Setting::LogDir),
        verbosity: setting_in(root, Setting::Verbosity),
    }
}

/// The source that comes out of a file: none out of none, a broken one with
/// the same reason out of a file of which nothing could be made, and out of
/// a root table what it says. A text gives what its root says, or a broken
/// source with the parser's words where it is malformed.
pub open spec fn source_of(file: SourceFile) -> SourceView {
    match file {
        SourceFile::Absent => SourceView::Absent,
        SourceFile::Unreadable(reason) => SourceView::Broken(reason@),
        SourceFile::Text { text, format } => match config_root(text@, format) {
            Err(words) => SourceView::Broken(words),
            Ok(root) => SourceView::Parsed(layer_in(root)),
        },
        SourceFile::Root(root) => SourceView::Parsed(layer_in(root@)),
    }
}

/// The source that comes out of the file of a stack, where one is selected.
pub open spec fn stack_source_of(file: Option<(Stack, SourceFile)>) -> Option<
    (Stack, SourceView),
> {
    match file {
        None => None,
        Some((tag, file)) => Some((tag, source_of(file))),
    }
}

/// `config::Source::collect` on `config::File::from_str` with
/// `config::FileFormat::Json`: parses `text` and hands back its root table
/// as a `config::Value`. The contract claims that the outcome depends on
/// the text alone: a value that holds the text's root, or an error with the
/// words that the text's error has. The crate reads JSON with serde_json,
/// which gives up with an error at a fixed depth of nesting.
#[verifier::external_body]
fn config_parse(text: &str, format: TextFormat) -> (res: Result<
    config::Value,
    config::ConfigError,
>)
    ensures
        match res {
            Ok(root) => config_root(text@, format) == Ok::<ItemView, Seq<char>>(
                config_item(root),
            ),
            Err(e) => config_root(text@, format) == Err::<ItemView, Seq<char>>(
                config_error_words(e),
            ),
        },
{
    let kind = match format {
        TextFormat::Json => config::FileFormat::Json,
    };
    config::Source::collect(&config::File::from_str(text, kind)).map(config::Value::from)
}

/// Takes a `config::Value` apart into an item: through
/// `config::Value::into_table` a table with its members, each taken apart
/// in turn, else through `config::Value::into_str` a text, else neither.
/// The item's value is what the contract calls what the value holds. The
/// members come in the order of a hash map's walk, which a table's value
/// does not keep.
#[verifier::external_body]
fn config_lift(value: config::Value) -> (item: Item)
    ensures
        item@ == config_item(value),
{
    match value.clone().into_table() {
        Ok(members) => Item::Table(
            members.into_iter().map(|(k, v)| (k, config_lift(v))).collect(),
        ),
        Err(_) => match value.into_str() {
            Ok(text) => Item::Text(text),
            Err(_) => Item::Other,
        },
    }
}

/// The `Display` text of a `config::ConfigError`: the words of the error.
#[verifier::external_body]
fn config_error_text(error: &config::ConfigError) -> (text: String)
    ensures
        text@ == config_error_words(*error),
{
    error.to_string()
}

/// The member of a table that goes by a name.
fn get<'a>(table: &'a Item, name: &str) -> (found: Option<&'a Item>)
    ensures
        match found {
            Some(item) => member_of(table@, name@) == Some(item@),
            None => member_of(table@, name@) is None,
        },
{
    match table {
        Item::Table(entries) => member(entries, name),
        _ => None,
    }
}

/// What a value says of a setting.
fn word(value: &Item) -> (found: Lookup)
    ensures
        found@ == word_of(value@),
{
    match value {
        Item::Text(text) => Lookup::Found(text.clone()),
        _ => Lookup::Invalid,
    }
}

/// Looks one setting up in its section.
fn nested(root: &Item, setting: Setting) -> (found: Lookup)
    ensures
        found@ == nested_in(root@, setting),
{
    match get(root, setting.section_str()) {
        None => Lookup::Absent,
        Some(section) => match section {
            Item::Table(_) => match get(section, setting.name_str()) {
                None => Lookup::Absent,
                Some(value) => word(value),
            },
            _ => Lookup::Invalid,
        },
    }
}

/// Looks one setting up in the root of a source.
fn lookup(root: &Item, setting: Setting) -> (found: Lookup)
    ensures
        found@ == setting_in(root@, setting),
{
    match nested(root, setting) {
        Lookup::Absent => match get(root, setting.path_str()) {
            None => Lookup::Absent,
            Some(value) => word(value),
        },
        found => found,
    }
}

impl Source {
    /// The source that a root table makes: what the table says of each
    /// setting.
    pub fn of_root(root: &Item) -> (source: Source)
        ensures
            source@ == SourceView::Parsed(layer_in(root@)),
    {
        Source::Parsed(
            Layer {
                log_dir: lookup(root, Setting::LogDir),
                verbosity: lookup(root, Setting::Verbosity),
            },
        )
    }

    /// Reads what a file holds. A text is handed to the parser of its form,
    /// and each setting is then looked up in the root that the parser
    /// gives; where the text is malformed, the parser's words are the
    /// reason of the broken source.
    pub fn read(file: &SourceFile) -> (source: Source)
        ensures
            source@ == source_of(*file),
    {
        match file {
            SourceFile::Absent => Source::Absent,
            SourceFile::Unreadable(reason) => Source::Broken(reason.clone()),
            SourceFile::Text { text, format } => match config_parse(text.as_str(), *format) {
                Err(error) => Source::Broken(config_error_text(&error)),
                Ok(value) => {
                    let root = config_lift(value);
                    Source::of_root(&root)
                },
            },
            SourceFile::Root(root) => Source::of_root(root),
        }
    }
}

impl Settings {
    /// Loads the settings from the file of the default source and, where a
    /// stack is selected, the file of the stack's source: each file is read
    /// as [`Source::read`] reads it, and the settings are put together as
    /// [`Settings::assemble`] does. Without a default file there are no
    /// settings.
    pub fn new(default: &SourceFile, stack: Option<(Stack, SourceFile)>) -> (res: Result<
        Settings,
        SettingsError,
    >)
        ensures
            loaded(res) == assembled(source_of(*default), stack_source_of(stack)),
    {
        let d = Source::read(default);
        let s = match stack {
            Some((tag, file)) => Some((tag, Source::read(&file))),
            None => None,
        };
        Settings::assemble(d, s)
    }
}

/// Without a file for the default source there are no settings, whatever
/// the file of the stack's source holds.
pub proof fn lemma_default_file_needed(stack: Option<(Stack, SourceFile)>)
    ensures
        assembled(source_of(SourceFile::Absent), stack_source_of(stack)) is Err,
        assembled(source_of(SourceFile::Absent), stack_source_of(stack))->Err_0 is DefaultSource,
{
}

/// A stack without a file for its source counts for nothing: the settings
/// are those of the default file alone.
pub proof fn lemma_stack_file_optional(default: SourceFile, tag: Stack)
    ensures
        assembled(source_of(default), stack_source_of(Some((tag, SourceFile::Absent))))
            == assembled(source_of(default), stack_source_of(None)),
{
}

/// A member under the section's name that is no table stands in the way of
/// every setting of the section, whatever else the root holds: laid over a
/// default, it leaves the setting without a text.
pub proof fn lemma_section_must_be_table(root: ItemView, setting: Setting, base: LookupView)
    requires
        member_of(root, setting.section()) is Some,
        !(member_of(root, setting.section())->Some_0 is Table),
    ensures
        setting_in(root, setting) == LookupView::Invalid,
        base.under(setting_in(root, setting)) == LookupView::Invalid,
{
}

} // verus!
