//! What a settings source holds once it is parsed: texts in nested tables.

use vstd::prelude::*;

verus! {

/// One value of a parsed source.
#[derive(Debug, PartialEq, Eq)]
pub enum Item {
    /// A text. A number or a truth value counts as the text that spells it.
    Text(String),
    /// A table of named members. Where a name stands twice, the last entry
    /// of that name counts.
    Table(Vec<(String, Item)>),
    /// Anything else: a list, or nothing.
    Other,
}

/// The mathematical value of an [`Item`].
pub enum ItemView {
    Text(Seq<char>),
    Table(Map<Seq<char>, ItemView>),
    Other,
}

impl View for Item {
    type V = ItemView;

    open spec fn view(&self) -> ItemView
        decreases self,
    {
        match self {
            Item::Text(text) => ItemView::Text(text@),
            Item::Table(entries) => ItemView::Table(members_view(entries@)),
            Item::Other => ItemView::Other,
        }
    }
}

/// The members that the entries of a table make, by their names: each
/// entry puts its value under its name, a later one in place of an earlier.
pub open spec fn members_view(entries: Seq<(String, Item)>) -> Map<Seq<char>, ItemView>
    decreases entries,
{
    if entries.len() == 0 {
        Map::empty()
    } else {
        members_view(entries.drop_last()).insert(entries.last().0@, entries.last().1@)
    }
}

/// Whether `i` is the last position of `entries` that goes by `name`.
pub open spec fn is_last(entries: Seq<(String, Item)>, name: Seq<char>, i: int) -> bool {
    &&& 0 <= i < entries.len()
    &&& entries[i].0@ == name
    &&& forall|j: int| i < j < entries.len() ==> (#[trigger] entries[j]).0@ != name
}

/// A table has no member of a name by which none of its entries goes.
pub proof fn lemma_no_member(entries: Seq<(String, Item)>, name: Seq<char>)
    requires
        forall|j: int| 0 <= j < entries.len() ==> (#[trigger] entries[j]).0@ != name,
    ensures
        !members_view(entries).contains_key(name),
    decreases entries.len(),
{
    if entries.len() > 0 {
        let front = entries.drop_last();
        assert forall|j: int| 0 <= j < front.len() implies (#[trigger] front[j]).0@ != name by {
            assert(front[j] == entries[j]);
        }
        lemma_no_member(front, name);
        assert(entries[entries.len() - 1].0@ != name);
        assert(members_view(entries) == members_view(front).insert(
            entries.last().0@,
            entries.last().1@,
        ));
    }
}

/// The member of a name is the value of the last entry that goes by it.
pub proof fn lemma_last_member(entries: Seq<(String, Item)>, name: Seq<char>, i: int)
    requires
        is_last(entries, name, i),
    ensures
        members_view(entries).contains_key(name),
        members_view(entries)[name] == entries[i].1@,
    decreases entries.len(),
{
    let front = entries.drop_last();
    assert(members_view(entries) == members_view(front).insert(
        entries.last().0@,
        entries.last().1@,
    ));
    if i < entries.len() - 1 {
        assert(entries[entries.len() - 1].0@ != name);
        assert(front[i] == entries[i]);
        assert forall|j: int| i < j < front.len() implies (#[trigger] front[j]).0@ != name by {
            assert(front[j] == entries[j]);
        }
        lemma_last_member(front, name, i);
    }
}

/// The member of a table's entries that goes by a name.
pub fn member<'a>(entries: &'a Vec<(String, Item)>, name: &str) -> (found: Option<&'a Item>)
    ensures
        match found {
            Some(item) => members_view(entries@).contains_key(name@) && members_view(
                entries@,
            )[name@] == item@,
            None => !members_view(entries@).contains_key(name@),
        },
{
    let wanted = name.to_owned();
    let mut i: usize = entries.len();
    while i > 0
        invariant
            i <= entries.len(),
            wanted@ == name@,
            forall|j: int| i <= j < entries.len() ==> (#[trigger] entries@[j]).0@ != name@,
        decreases i,
    {
        i -= 1;
        if entries[i].0 == wanted {
            proof {
                lemma_last_member(entries@, name@, i as int);
            }
            return Some(&entries[i].1);
        }
    }
    proof {
        lemma_no_member(entries@, name@);
    }
    None
}

} // verus!
