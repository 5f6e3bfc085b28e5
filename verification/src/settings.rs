//! Layered settings: a default source, and over it the source of a stack.

use vstd::prelude::*;
use vstd::string::*;
use crate::stack::Stack;

verus! {

/// The settings that the program reads.
#[derive(Clone, Copy, Debug, PartialEq, Eq, Structural)]
pub enum Setting {
    LogDir,
    Verbosity,
}

/// What one source says of one setting.
#[derive(Clone, Debug, PartialEq, Eq)]
pub enum Lookup {
    /// The source gives this text. A number or a truth value counts as the
    /// text that spells it.
    Found(String),
    /// The source is silent.
    Absent,
    /// The source gives something that is no text: a table, a list or
    /// nothing.
    Invalid,
}

/// What one source says of each setting.
#[derive(Clone, Debug, PartialEq, Eq)]
pub struct Layer {
    pub log_dir: Lookup,
    pub verbosity: Lookup,
}

/// What became of one source.
#[derive(Clone, Debug, PartialEq, Eq)]
pub enum Source {
    /// There is no such source.
    Absent,
    /// The source is there but gave nothing: it could not be read, or its
    /// text is malformed. The reason is attached, in words.
    Broken(String),
    /// The source was read, and says this.
    Parsed(Layer),
}

/// Where the log goes, and how much of it is kept.
#[derive(Clone, Debug, PartialEq, Eq)]
pub struct Logging {
    /// The directory of the log files. It may hold references to
    /// environment variables, which are not resolved here.
    pub log_dir: String,
    /// The name of a log level.
    pub verbosity: String,
}

/// The settings of one run of the program.
#[derive(Clone, Debug, PartialEq, Eq)]
pub struct Settings {
    pub logging: Logging,
}

/// Why no settings could be loaded.
#[derive(Clone, Debug, PartialEq, Eq)]
pub enum SettingsError {
    /// The default source is not there (`None`), or is broken for the
    /// reason that is attached.
    DefaultSource(Option<String>),
    /// The source of this stack is there, but broken for the reason that is
    /// attached.
    StackSource(Stack, String),
    /// No source gives this setting.
    Missing(Setting),
    /// The source that decides this setting gives no text for it.
    Invalid(Setting),
}

/// The mathematical value of a [`SettingsError`].
pub enum SettingsErrorView {
    DefaultSource(Option<Seq<char>>),
    StackSource(Stack, Seq<char>),
    Missing(Setting),
    Invalid(Setting),
}

/// The mathematical value of a [`Lookup`].
pub enum LookupView {
    Found(Seq<char>),
    Absent,
    Invalid,
}

/// The mathematical value of a [`Layer`].
pub struct LayerView {
    pub log_dir: LookupView,
    pub verbosity: LookupView,
}

/// The mathematical value of a [`Source`].
pub enum SourceView {
    Absent,
    Broken(Seq<char>),
    Parsed(LayerView),
}

/// The mathematical value of [`Settings`].
pub struct SettingsView {
    pub log_dir: Seq<char>,
    pub verbosity: Seq<char>,
}

impl View for Lookup {
    type V = LookupView;

    open spec fn view(&self) -> LookupView {
        match self {
            Lookup::Found(text) => LookupView::Found(text@),
            Lookup::Absent => LookupView::Absent,
            Lookup::Invalid => LookupView::Invalid,
        }
    }
}

impl View for Layer {
    type V = LayerView;

    open spec fn view(&self) -> LayerView {
        LayerView { log_dir: self.log_dir@, verbosity: self.verbosity@ }
    }
}

impl View for Source {
    type V = SourceView;

    open spec fn view(&self) -> SourceView {
        match self {
            Source::Absent => SourceView::Absent,
            Source::Broken(reason) => SourceView::Broken(reason@),
            Source::Parsed(layer) => SourceView::Parsed(layer@),
        }
    }
}

impl View for SettingsError {
    type V = SettingsErrorView;

    open spec fn view(&self) -> SettingsErrorView {
        match self {
            SettingsError::DefaultSource(None) => SettingsErrorView::DefaultSource(None),
            SettingsError::DefaultSource(Some(reason)) => SettingsErrorView::DefaultSource(
                Some(reason@),
            ),
            SettingsError::StackSource(tag, reason) => SettingsErrorView::StackSource(
                *tag,
                reason@,
            ),
            SettingsError::Missing(setting) => SettingsErrorView::Missing(*setting),
            SettingsError::Invalid(setting) => SettingsErrorView::Invalid(*setting),
        }
    }
}

impl View for Settings {
    type V = SettingsView;

    open spec fn view(&self) -> SettingsView {
        SettingsView { log_dir: self.logging.log_dir@, verbosity: self.logging.verbosity@ }
    }
}

impl LookupView {
    /// What the two sources say together, where `self` is the default and
    /// `top` is laid over it: `top` decides unless it is silent.
    pub open spec fn under(self, top: LookupView) -> LookupView {
        match top {
            LookupView::Absent => self,
            _ => top,
        }
    }

    /// The text of the setting, or the reason why it has none.
    pub open spec fn settled(self, setting: Setting) -> Result<Seq<char>, SettingsErrorView> {
        match self {
            LookupView::Found(text) => Ok(text),
            LookupView::Absent => Err(SettingsErrorView::Missing(setting)),
            LookupView::Invalid => Err(SettingsErrorView::Invalid(setting)),
        }
    }
}

impl LayerView {
    /// What the two sources say together, setting by setting.
    pub open spec fn under(self, top: LayerView) -> LayerView {
        LayerView {
            log_dir: self.log_dir.under(top.log_dir),
            verbosity: self.verbosity.under(top.verbosity),
        }
    }

    /// The settings that the layer gives. Both must have a text; `log_dir`
    /// is looked at first.
    pub open spec fn settled(self) -> Result<SettingsView, SettingsErrorView> {
        match self.log_dir.settled(Setting::LogDir) {
            Err(e) => Err(e),
            Ok(log_dir) => match self.verbosity.settled(Setting::Verbosity) {
                Err(e) => Err(e),
                Ok(verbosity) => Ok(SettingsView { log_dir, verbosity }),
            },
        }
    }
}

/// The settings that a default source and the source of a stack give.
/// The default source must have been read. The stack's source may be
/// missing, and then counts for nothing; where it is there it must have
/// been read too, and decides every setting on which it is not silent. The
/// reason of a broken source goes into the error.
pub open spec fn assembled(default: SourceView, stack: Option<(Stack, SourceView)>) -> Result<
    SettingsView,
    SettingsErrorView,
> {
    match default {
        SourceView::Parsed(base) => match stack {
            Some((tag, SourceView::Broken(reason))) => Err(
                SettingsErrorView::StackSource(tag, reason),
            ),
            Some((_, SourceView::Parsed(top))) => base.under(top).settled(),
            _ => base.settled(),
        },
        SourceView::Broken(reason) => Err(SettingsErrorView::DefaultSource(Some(reason))),
        SourceView::Absent => Err(SettingsErrorView::DefaultSource(None)),
    }
}

/// The value of the source of a stack, where one is selected.
pub open spec fn stack_view(stack: Option<(Stack, Source)>) -> Option<(Stack, SourceView)> {
    match stack {
        Some((tag, source)) => Some((tag, source@)),
        None => None,
    }
}

/// The settings or the error that a result holds.
pub open spec fn loaded(res: Result<Settings, SettingsError>) -> Result<
    SettingsView,
    SettingsErrorView,
> {
    match res {
        Ok(settings) => Ok(settings@),
        Err(e) => Err(e@),
    }
}

impl SettingsError {
    /// A line for the user that says what went wrong with the settings in
    /// the directory `dir`. The reason of a broken source is not in the
    /// line: it stands in the error.
    pub open spec fn line(self, dir: Seq<char>) -> Seq<char> {
        match self {
            SettingsError::DefaultSource(_) => "Cannot read default settings from dir '"@ + dir
                + "'"@,
            SettingsError::StackSource(tag, _) => "Cannot read stack '"@ + tag.name()
                + "' settings from dir '"@ + dir + "'"@,
            SettingsError::Missing(_) => "Cannot deserialize settings"@,
            SettingsError::Invalid(_) => "Cannot deserialize settings"@,
        }
    }

    /// A line for the user that says what went wrong with the settings in
    /// the directory `settings_dir`.
    pub fn message(&self, settings_dir: &str) -> (line: String)
        ensures
            line@ == self.line(settings_dir@),
    {
        match self {
            SettingsError::DefaultSource(_) => String::from_str(
                "Cannot read default settings from dir '",
            ).concat(settings_dir).concat("'"),
            SettingsError::StackSource(tag, _) => String::from_str("Cannot read stack '").concat(
                tag.as_str(),
            ).concat("' settings from dir '").concat(settings_dir).concat("'"),
            SettingsError::Missing(_) => String::from_str("Cannot deserialize settings"),
            SettingsError::Invalid(_) => String::from_str("Cannot deserialize settings"),
        }
    }
}

impl Setting {
    /// The section of a source in which the setting stands.
    pub open spec fn section(self) -> Seq<char> {
        "logging"@
    }

    /// The name of the setting within its section.
    pub open spec fn name(self) -> Seq<char> {
        match self {
            Setting::LogDir => "log_dir"@,
            Setting::Verbosity => "verbosity"@,
        }
    }

    /// The setting's path in one piece: the section, a dot, the name. A
    /// source may give the setting under this key at its root.
    pub open spec fn path(self) -> Seq<char> {
        match self {
            Setting::LogDir => "logging.log_dir"@,
            Setting::Verbosity => "logging.verbosity"@,
        }
    }

    /// The setting's path in one piece.
    pub fn path_str(&self) -> (path: &'static str)
        ensures
            path@ == self.path(),
    {
        match self {
            Setting::LogDir => "logging.log_dir",
            Setting::Verbosity => "logging.verbosity",
        }
    }

    /// The section of a source in which the setting stands.
    pub fn section_str(&self) -> (section: &'static str)
        ensures
            section@ == self.section(),
    {
        "logging"
    }

    /// The name of the setting within its section.
    pub fn name_str(&self) -> (name: &'static str)
        ensures
            name@ == self.name(),
    {
        match self {
            Setting::LogDir => "log_dir",
            Setting::Verbosity => "verbosity",
        }
    }
}

impl Lookup {
    /// Lays `top` over `self`.
    pub fn overlay(self, top: Lookup) -> (both: Lookup)
        ensures
            both@ == self@.under(top@),
    {
        match top {
            Lookup::Absent => self,
            _ => top,
        }
    }

    /// Takes the text of the setting out of the lookup.
    pub fn settle(self, setting: Setting) -> (res: Result<String, SettingsError>)
        ensures
            match res {
                Ok(text) => self@.settled(setting) == Ok::<Seq<char>, SettingsErrorView>(text@),
                Err(e) => self@.settled(setting) == Err::<Seq<char>, SettingsErrorView>(e@),
            },
    {
        match self {
            Lookup::Found(text) => Ok(text),
            Lookup::Absent => Err(SettingsError::Missing(setting)),
            Lookup::Invalid => Err(SettingsError::Invalid(setting)),
        }
    }
}

impl Layer {
    /// Lays `top` over `self`.
    pub fn overlay(self, top: Layer) -> (both: Layer)
        ensures
            both@ == self@.under(top@),
    {
        Layer {
            log_dir: self.log_dir.overlay(top.log_dir),
            verbosity: self.verbosity.overlay(top.verbosity),
        }
    }

    /// Turns the layer into settings.
    pub fn settle(self) -> (res: Result<Settings, SettingsError>)
        ensures
            loaded(res) == self@.settled(),
    {
        let log_dir = match self.log_dir.settle(Setting::LogDir) {
            Ok(text) => text,
            Err(e) => {
                return Err(e);
            },
        };
        let verbosity = match self.verbosity.settle(Setting::Verbosity) {
            Ok(text) => text,
            Err(e) => {
                return Err(e);
            },
        };
        Ok(Settings { logging: Logging { log_dir, verbosity } })
    }
}

impl Settings {
    /// Puts the settings together from what became of the default source
    /// and, where a stack is selected, of the stack's source. Either all
    /// settings are there or none is handed out.
    pub fn assemble(default: Source, stack: Option<(Stack, Source)>) -> (res: Result<
        Settings,
        SettingsError,
    >)
        ensures
            loaded(res) == assembled(default@, stack_view(stack)),
    {
        match default {
            Source::Parsed(base) => match stack {
                Some((tag, Source::Broken(reason))) => Err(SettingsError::StackSource(tag, reason)),
                Some((_, Source::Parsed(top))) => base.overlay(top).settle(),
                _ => base.settle(),
            },
            Source::Broken(reason) => Err(SettingsError::DefaultSource(Some(reason))),
            Source::Absent => Err(SettingsError::DefaultSource(None)),
        }
    }
}

/// A setting's path is its section, a dot and its name.
pub proof fn lemma_path_is_section_and_name(setting: Setting)
    ensures
        setting.path() == setting.section() + seq!['.'] + setting.name(),
{
    reveal_strlit("logging");
    reveal_strlit("log_dir");
    reveal_strlit("verbosity");
    reveal_strlit("logging.log_dir");
    reveal_strlit("logging.verbosity");
    assert(setting.path() =~= setting.section() + seq!['.'] + setting.name());
}

/// With a default source alone, every setting is the default's: so it is
/// where no stack is selected, and where the selected stack has no source.
pub proof fn lemma_default_only(base: LayerView, tag: Stack)
    ensures
        assembled(SourceView::Parsed(base), None) == base.settled(),
        assembled(SourceView::Parsed(base), Some((tag, SourceView::Absent))) == base.settled(),
{
}

/// The stack's source decides what it speaks of, the default the rest:
/// a stack that gives `verbosity` and is silent on `log_dir` leaves the
/// default's `log_dir` in place and replaces its `verbosity`.
pub proof fn lemma_stack_overrides(base: LayerView, top: LayerView, tag: Stack)
    requires
        base.log_dir is Found,
        top.log_dir is Absent,
        top.verbosity is Found,
    ensures
        assembled(SourceView::Parsed(base), Some((tag, SourceView::Parsed(top)))) == Ok::<
            SettingsView,
            SettingsErrorView,
        >(SettingsView { log_dir: base.log_dir->Found_0, verbosity: top.verbosity->Found_0 }),
{
}

/// Each setting is decided on its own: the stack's word where it has one,
/// else the default's. A word that is no text counts: it is not passed over
/// for the default's text.
pub proof fn lemma_overlay_by_setting(base: LayerView, top: LayerView)
    ensures
        base.under(top).log_dir == if top.log_dir is Absent {
            base.log_dir
        } else {
            top.log_dir
        },
        base.under(top).verbosity == if top.verbosity is Absent {
            base.verbosity
        } else {
            top.verbosity
        },
{
}

/// Without a default source that was read there are no settings, whatever
/// the stack's source holds.
pub proof fn lemma_default_needed(default: SourceView, stack: Option<(Stack, SourceView)>)
    requires
        !(default is Parsed),
    ensures
        assembled(default, stack) is Err,
        assembled(default, stack)->Err_0 is DefaultSource,
{
}

/// Settings come whole or not at all: where they come, the default source
/// has been read, the stack's source is not broken, and every setting has
/// its text from the stack's source or, where that is silent or missing,
/// from the default.
pub proof fn lemma_settings_whole(default: SourceView, stack: Option<(Stack, SourceView)>)
    requires
        assembled(default, stack) is Ok,
    ensures
        default is Parsed,
        stack is Some ==> !(stack->Some_0.1 is Broken),
        stack is Some && stack->Some_0.1 is Parsed ==> assembled(default, stack)
            == default->Parsed_0.under(stack->Some_0.1->Parsed_0).settled(),
        !(stack is Some && stack->Some_0.1 is Parsed) ==> assembled(default, stack)
            == default->Parsed_0.settled(),
{
}

} // verus!
