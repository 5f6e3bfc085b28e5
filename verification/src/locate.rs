//! Where the files of the settings sources lie.

use vstd::prelude::*;
use vstd::string::*;
use crate::source::Format;
use crate::stack::Stack;

verus! {

/// A path at which a source may lie, with the form that a file there has.
#[derive(Clone, Debug, PartialEq, Eq)]
pub struct Candidate {
    pub path: String,
    pub format: Format,
}

/// The file extensions that announce a form, each with its form, in the
/// order in which they are tried.
pub open spec fn extensions() -> Seq<(Seq<char>, Format)> {
    seq![
        ("toml"@, Format::Toml),
        ("json"@, Format::Json),
        ("yaml"@, Format::Yaml),
        ("yml"@, Format::Yaml),
        ("hjson"@, Format::Hjson),
        ("ini"@, Format::Ini),
    ]
}

/// Which file is read for a source.
#[derive(Clone, Copy, Debug, PartialEq, Eq, Structural)]
pub enum Choice {
    /// A file lies exactly at the base path. Without an extension it
    /// announces no form, so that the source counts as unreadable.
    NoForm,
    /// The candidate at this position.
    Candidate(usize),
    /// No file: the source is absent.
    Nothing,
}

/// Whether `i` is the first position at which a candidate is a file.
pub open spec fn is_first_present(present: Seq<bool>, i: int) -> bool {
    &&& 0 <= i < present.len()
    &&& present[i]
    &&& forall|j: int| 0 <= j < i ==> !present[j]
}

/// The file that is read for a source, where `exact` says whether a file
/// lies at the base path and `present` which of the candidates are files: a
/// file at the base path comes before all others, and among the candidates
/// the first that is a file is taken.
pub open spec fn chosen(exact: bool, present: Seq<bool>) -> Choice {
    if exact {
        Choice::NoForm
    } else if exists|i: int| is_first_present(present, i) {
        Choice::Candidate((choose|i: int| is_first_present(present, i)) as usize)
    } else {
        Choice::Nothing
    }
}

/// The name of a source: `default`, or the name of the stack.
pub open spec fn source_name(stack: Option<Stack>) -> Seq<char> {
    match stack {
        None => "default"@,
        Some(tag) => tag.name(),
    }
}

/// The path of a source without an extension: the directory, a slash, the
/// source's name.
pub open spec fn base_path(dir: Seq<char>, stack: Option<Stack>) -> Seq<char> {
    dir + "/"@ + source_name(stack)
}

/// The name of a source.
pub fn source_name_of(stack: Option<Stack>) -> (name: &'static str)
    ensures
        name@ == source_name(stack),
{
    match stack {
        None => "default",
        Some(tag) => tag.as_str(),
    }
}

/// The path of a source without an extension. A file that lies exactly
/// there announces no form.
pub fn base_path_of(settings_dir: &str, stack: Option<Stack>) -> (path: String)
    ensures
        path@ == base_path(settings_dir@, stack),
{
    String::from_str(settings_dir).concat("/").concat(source_name_of(stack))
}

/// One candidate: the base path, a dot and the extension.
fn candidate(base: &String, extension: &'static str, format: Format) -> (c: Candidate)
    ensures
        c.path@ == base@ + "."@ + extension@,
        c.format == format,
{
    Candidate { path: base.clone().concat(".").concat(extension), format }
}

/// The paths at which the source of `stack`, or the default source, is
/// looked for in `settings_dir`, in the order in which they are tried: the
/// base path with each known extension behind it.
pub fn candidates(settings_dir: &str, stack: Option<Stack>) -> (list: Vec<Candidate>)
    ensures
        list@.len() == extensions().len(),
        forall|i: int|
            0 <= i < list@.len() ==> (#[trigger] list@[i]).path@ == base_path(settings_dir@, stack)
                + "."@ + extensions()[i].0 && list@[i].format == extensions()[i].1,
{
    let base = base_path_of(settings_dir, stack);
    let mut list: Vec<Candidate> = Vec::new();
    list.push(candidate(&base, "toml", Format::Toml));
    list.push(candidate(&base, "json", Format::Json));
    list.push(candidate(&base, "yaml", Format::Yaml));
    list.push(candidate(&base, "yml", Format::Yaml));
    list.push(candidate(&base, "hjson", Format::Hjson));
    list.push(candidate(&base, "ini", Format::Ini));
    list
}

/// Says which file is read for a source, from what was seen on disk.
pub fn choose_source(exact: bool, present: &Vec<bool>) -> (choice: Choice)
    ensures
        choice == chosen(exact, present@),
{
    if exact {
        return Choice::NoForm;
    }
    let mut i: usize = 0;
    while i < present.len()
        invariant
            !exact,
            i <= present.len(),
            forall|j: int| 0 <= j < i ==> !present@[j],
        decreases present.len() - i,
    {
        if present[i] {
            proof {
                assert(is_first_present(present@, i as int));
                let k = choose|k: int| is_first_present(present@, k);
                if k < i {
                    assert(!present@[k]);
                }
                if i < k {
                    assert(!present@[i as int]);
                }
            }
            return Choice::Candidate(i);
        }
        i += 1;
    }
    proof {
        if exists|k: int| is_first_present(present@, k) {
            let k = choose|k: int| is_first_present(present@, k);
            assert(!present@[k]);
        }
    }
    Choice::Nothing
}

} // verus!
