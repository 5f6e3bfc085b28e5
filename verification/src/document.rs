//! A document tree: what a textual record holds once its syntax is gone.

use vstd::prelude::*;

verus! {

/// One node of a document.
#[derive(Debug, PartialEq, Eq)]
pub enum Node {
    Null,
    Bool(bool),
    /// A number. `None` stands for one that is no signed 64-bit integer.
    Number(Option<i64>),
    Text(String),
    List(Vec<Node>),
    /// Named members, in the order in which they are held. A record that
    /// was read from a JSON text holds them by the order of their names,
    /// each name once.
    Record(Vec<(String, Node)>),
}

/// The mathematical value of a [`Node`].
pub enum Tree {
    Null,
    Bool(bool),
    Number(Option<i64>),
    Text(Seq<char>),
    List(Seq<Tree>),
    Record(Seq<(Seq<char>, Tree)>),
}

/// Whether no two entries of a record share a name.
pub open spec fn distinct_names(entries: Seq<(Seq<char>, Tree)>) -> bool {
    forall|i: int, j: int|
        0 <= i < j < entries.len() ==> (#[trigger] entries[i]).0 != (#[trigger] entries[j]).0
}

impl Tree {
    /// Whether every number in the tree is a signed 64-bit integer and no
    /// record in it holds a name twice. Such a tree can be written in any
    /// textual form without loss.
    pub open spec fn plain(self) -> bool
        decreases self,
    {
        match self {
            Tree::Null => true,
            Tree::Bool(_) => true,
            Tree::Number(n) => n is Some,
            Tree::Text(_) => true,
            Tree::List(items) => forall|i: int|
                0 <= i < items.len() ==> (#[trigger] items[i]).plain(),
            Tree::Record(entries) => distinct_names(entries) && forall|i: int|
                0 <= i < entries.len() ==> (#[trigger] entries[i]).1.plain(),
        }
    }
}

impl View for Node {
    type V = Tree;

    open spec fn view(&self) -> Tree
        decreases self,
    {
        match self {
            Node::Null => Tree::Null,
            Node::Bool(b) => Tree::Bool(*b),
            Node::Number(n) => Tree::Number(*n),
            Node::Text(s) => Tree::Text(s@),
            Node::List(items) => Tree::List(list_view(items@)),
            Node::Record(entries) => Tree::Record(record_view(entries@)),
        }
    }
}

/// The values of the nodes of a list, in their order.
pub open spec fn list_view(items: Seq<Node>) -> Seq<Tree>
    decreases items,
{
    if items.len() == 0 {
        Seq::empty()
    } else {
        list_view(items.drop_last()).push(items.last()@)
    }
}

/// The names and values of the entries of a record, in their order.
pub open spec fn record_view(entries: Seq<(String, Node)>) -> Seq<(Seq<char>, Tree)>
    decreases entries,
{
    if entries.len() == 0 {
        Seq::empty()
    } else {
        record_view(entries.drop_last()).push((entries.last().0@, entries.last().1@))
    }
}

/// A list's view has the list's length, and holds at each position the
/// value of the node there.
pub proof fn lemma_list_view(items: Seq<Node>)
    ensures
        list_view(items).len() == items.len(),
        forall|i: int| 0 <= i < items.len() ==> (#[trigger] list_view(items)[i]) == items[i]@,
    decreases items.len(),
{
    if items.len() > 0 {
        lemma_list_view(items.drop_last());
        assert(list_view(items) == list_view(items.drop_last()).push(items.last()@));
    }
}

/// A record's view has the record's length, and holds at each position the
/// name and the value of the entry there.
pub proof fn lemma_record_view(entries: Seq<(String, Node)>)
    ensures
        record_view(entries).len() == entries.len(),
        forall|i: int|
            0 <= i < entries.len() ==> (#[trigger] record_view(entries)[i]) == (
                entries[i].0@,
                entries[i].1@,
            ),
    decreases entries.len(),
{
    if entries.len() > 0 {
        lemma_record_view(entries.drop_last());
        assert(record_view(entries) == record_view(entries.drop_last()).push(
            (entries.last().0@, entries.last().1@),
        ));
    }
}

/// Whether no two entries of a record share a name.
fn distinct(entries: &Vec<(String, Node)>) -> (yes: bool)
    ensures
        yes == distinct_names(record_view(entries@)),
{
    let ghost names = record_view(entries@);
    proof {
        lemma_record_view(entries@);
    }
    let mut j: usize = 0;
    while j < entries.len()
        invariant
            j <= entries.len(),
            names == record_view(entries@),
            names.len() == entries@.len(),
            forall|k: int| 0 <= k < entries@.len() ==> (#[trigger] names[k]).0 == entries@[k].0@,
            forall|a: int, b: int|
                0 <= a < b < j ==> (#[trigger] names[a]).0 != (#[trigger] names[b]).0,
        decreases entries.len() - j,
    {
        let mut i: usize = 0;
        while i < j
            invariant
                i <= j < entries.len(),
                names == record_view(entries@),
                names.len() == entries@.len(),
                forall|k: int|
                    0 <= k < entries@.len() ==> (#[trigger] names[k]).0 == entries@[k].0@,
                forall|a: int| 0 <= a < i ==> (#[trigger] names[a]).0 != names[j as int].0,
            decreases j - i,
        {
            if entries[i].0 == entries[j].0 {
                proof {
                    assert(names[i as int].0 == names[j as int].0);
                }
                return false;
            }
            i += 1;
        }
        j += 1;
    }
    true
}

impl Node {
    /// Whether the node's value is plain: every number in it a signed 64-bit
    /// integer, and no record in it with a name twice.
    pub fn is_plain(&self) -> (yes: bool)
        ensures
            yes == self@.plain(),
        decreases self,
    {
        match self {
            Node::Null => true,
            Node::Bool(_) => true,
            Node::Number(n) => n.is_some(),
            Node::Text(_) => true,
            Node::List(items) => {
                let ghost trees = list_view(items@);
                proof {
                    lemma_list_view(items@);
                }
                let mut i: usize = 0;
                while i < items.len()
                    invariant
                        i <= items.len(),
                        *self == Node::List(*items),
                        self@ == Tree::List(trees),
                        trees == list_view(items@),
                        trees.len() == items@.len(),
                        forall|k: int| 0 <= k < items@.len() ==> (#[trigger] trees[k]) == items@[k]@,
                        forall|k: int| 0 <= k < i ==> (#[trigger] trees[k]).plain(),
                    decreases items.len() - i,
                {
                    let item = &items[i];
                    proof {
                        vstd::std_specs::vec::axiom_vec_index_decreases(*items, i as int);
                    }
                    if !item.is_plain() {
                        proof {
                            assert(!trees[i as int].plain());
                            let whole = Tree::List(trees);
                            assert(whole->List_0 == trees);
                            if whole.plain() {
                                assert(forall|k: int|
                                    0 <= k < trees.len() ==> (#[trigger] trees[k]).plain());
                                assert(trees[i as int].plain());
                            }
                        }
                        return false;
                    }
                    i += 1;
                }
                true
            },
            Node::Record(entries) => {
                let ghost pairs = record_view(entries@);
                proof {
                    lemma_record_view(entries@);
                }
                if !distinct(entries) {
                    return false;
                }
                let mut i: usize = 0;
                while i < entries.len()
                    invariant
                        i <= entries.len(),
                        *self == Node::Record(*entries),
                        self@ == Tree::Record(pairs),
                        distinct_names(pairs),
                        pairs == record_view(entries@),
                        pairs.len() == entries@.len(),
                        forall|k: int|
                            0 <= k < entries@.len() ==> (#[trigger] pairs[k]).1 == entries@[k].1@,
                        forall|k: int| 0 <= k < i ==> (#[trigger] pairs[k]).1.plain(),
                    decreases entries.len() - i,
                {
                    let value = &entries[i].1;
                    proof {
                        vstd::std_specs::vec::axiom_vec_index_decreases(*entries, i as int);
                    }
                    if !value.is_plain() {
                        proof {
                            assert(!pairs[i as int].1.plain());
                            assert(!Tree::Record(pairs).plain());
                        }
                        return false;
                    }
                    i += 1;
                }
                true
            },
        }
    }
}

} // verus!
