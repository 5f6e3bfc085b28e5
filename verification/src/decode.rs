//! Reading a squad from a document tree.

use vstd::prelude::*;
use vstd::string::*;
use crate::document::{lemma_list_view, lemma_record_view, list_view, record_view, Node};
use crate::model::{
    all_texts, bool_field, decode_member, decode_members, decode_squad, int_field, is_first,
    is_first_fault, lemma_lookup_first, lemma_lookup_none, lookup, members_field, text_field,
    texts_field, DecodeError, Fault, Field, Member, MemberView, Squad, SquadView,
};

verus! {

/// The node that a record's entries hold under the key of `field`.
fn find<'a>(entries: &'a Vec<(String, Node)>, field: Field) -> (found: Option<&'a Node>)
    ensures
        match found {
            Some(node) => lookup(record_view(entries@), field.key()) == Some(node@),
            None => lookup(record_view(entries@), field.key()) is None,
        },
{
    let key = String::from_str(field.as_str());
    proof {
        lemma_record_view(entries@);
    }
    let mut i: usize = 0;
    while i < entries.len()
        invariant
            i <= entries.len(),
            key@ == field.key(),
            record_view(entries@).len() == entries@.len(),
            forall|j: int|
                0 <= j < entries@.len() ==> (#[trigger] record_view(entries@)[j]) == (
                    entries@[j].0@,
                    entries@[j].1@,
                ),
            forall|j: int| 0 <= j < i ==> (#[trigger] record_view(entries@)[j]).0 != key@,
        decreases entries.len() - i,
    {
        if entries[i].0 == key {
            proof {
                assert(is_first(record_view(entries@), key@, i as int));
                lemma_lookup_first(record_view(entries@), key@, i as int);
            }
            return Some(&entries[i].1);
        }
        i += 1;
    }
    proof {
        lemma_lookup_none(record_view(entries@), key@);
    }
    None
}

/// Reads a field that must be there and hold a text.
fn text_at(entries: &Vec<(String, Node)>, field: Field) -> (res: Result<String, Fault>)
    ensures
        match res {
            Ok(text) => text_field(record_view(entries@), field) == Ok::<Seq<char>, Fault>(text@),
            Err(fault) => text_field(record_view(entries@), field) == Err::<Seq<char>, Fault>(
                fault,
            ),
        },
{
    match find(entries, field) {
        None => Err(Fault::Missing(field)),
        Some(Node::Text(text)) => Ok(text.clone()),
        Some(_) => Err(Fault::Mismatch(field)),
    }
}

/// Reads a field that must be there and hold a signed 64-bit integer.
fn int_at(entries: &Vec<(String, Node)>, field: Field) -> (res: Result<i64, Fault>)
    ensures
        res == int_field(record_view(entries@), field),
{
    match find(entries, field) {
        None => Err(Fault::Missing(field)),
        Some(Node::Number(Some(n))) => Ok(*n),
        Some(_) => Err(Fault::Mismatch(field)),
    }
}

/// Reads a field that must be there and hold a truth value.
fn bool_at(entries: &Vec<(String, Node)>, field: Field) -> (res: Result<bool, Fault>)
    ensures
        res == bool_field(record_view(entries@), field),
{
    match find(entries, field) {
        None => Err(Fault::Missing(field)),
        Some(Node::Bool(b)) => Ok(*b),
        Some(_) => Err(Fault::Mismatch(field)),
    }
}

/// The texts that a list of nodes holds, if every one of them is a text.
fn texts_of(items: &Vec<Node>) -> (res: Option<Vec<String>>)
    ensures
        match res {
            Some(texts) => all_texts(list_view(items@)) && texts@.len() == items@.len()
                && forall|i: int|
                0 <= i < texts@.len() ==> (#[trigger] texts@[i])@ == list_view(items@)[i]->Text_0,
            None => !all_texts(list_view(items@)),
        },
{
    let mut texts: Vec<String> = Vec::new();
    proof {
        lemma_list_view(items@);
    }
    let mut i: usize = 0;
    while i < items.len()
        invariant
            i <= items.len(),
            texts@.len() == i,
            list_view(items@).len() == items@.len(),
            forall|j: int| 0 <= j < items@.len() ==> (#[trigger] list_view(items@)[j]) == items@[j]@,
            forall|j: int| 0 <= j < i ==> (#[trigger] list_view(items@)[j]) is Text,
            forall|j: int|
                0 <= j < i ==> (#[trigger] texts@[j])@ == list_view(items@)[j]->Text_0,
        decreases items.len() - i,
    {
        match &items[i] {
            Node::Text(text) => {
                texts.push(text.clone());
            },
            _ => {
                proof {
                    assert(!(list_view(items@)[i as int] is Text));
                }
                return None;
            },
        }
        i += 1;
    }
    Some(texts)
}

/// Reads a field that holds a list of texts, empty where the field is not
/// there.
fn texts_at(entries: &Vec<(String, Node)>, field: Field) -> (res: Result<Vec<String>, Fault>)
    ensures
        match res {
            Ok(texts) => texts_field(record_view(entries@), field) == Ok::<Seq<Seq<char>>, Fault>(
                Seq::new(texts@.len(), |i: int| texts@[i]@),
            ),
            Err(fault) => texts_field(record_view(entries@), field) == Err::<
                Seq<Seq<char>>,
                Fault,
            >(fault),
        },
{
    match find(entries, field) {
        None => {
            let texts: Vec<String> = Vec::new();
            proof {
                assert(Seq::new(texts@.len(), |i: int| texts@[i]@) =~= Seq::<Seq<char>>::empty());
            }
            Ok(texts)
        },
        Some(Node::List(items)) => {
            match texts_of(items) {
                Some(texts) => {
                    proof {
                        let trees = list_view(items@);
                        lemma_list_view(items@);
                        assert(Seq::new(texts@.len(), |i: int| texts@[i]@) =~= Seq::new(
                            trees.len(),
                            |i: int| trees[i]->Text_0,
                        ));
                    }
                    Ok(texts)
                },
                None => Err(Fault::Mismatch(field)),
            }
        },
        Some(_) => Err(Fault::Mismatch(field)),
    }
}

/// The members that a list of nodes holds, or the first fault among them.
fn members_of(items: &Vec<Node>) -> (res: Result<Vec<Member>, DecodeError>)
    ensures
        match res {
            Ok(members) => decode_members(list_view(items@)) == Ok::<Seq<MemberView>, DecodeError>(
                Seq::new(members@.len(), |i: int| members@[i]@),
            ),
            Err(e) => decode_members(list_view(items@)) == Err::<Seq<MemberView>, DecodeError>(e),
        },
{
    let ghost trees = list_view(items@);
    let mut members: Vec<Member> = Vec::new();
    proof {
        lemma_list_view(items@);
    }
    let mut i: usize = 0;
    while i < items.len()
        invariant
            i <= items.len(),
            members@.len() == i,
            trees == list_view(items@),
            trees.len() == items@.len(),
            forall|j: int| 0 <= j < items@.len() ==> (#[trigger] trees[j]) == items@[j]@,
            forall|j: int|
                0 <= j < i ==> decode_member(#[trigger] trees[j]) == Ok::<MemberView, Fault>(
                    members@[j]@,
                ),
        decreases items.len() - i,
    {
        match Member::from_node(&items[i]) {
            Ok(member) => {
                members.push(member);
            },
            Err(fault) => {
                proof {
                    assert(is_first_fault(trees, i as int));
                    let k = choose|k: int| is_first_fault(trees, k);
                    if k < i {
                        assert(decode_member(trees[k]) is Ok);
                    }
                    if i < k {
                        assert(decode_member(trees[i as int]) is Ok);
                    }
                }
                return Err(DecodeError::Member(i, fault));
            },
        }
        i += 1;
    }
    proof {
        if exists|k: int| is_first_fault(trees, k) {
            let k = choose|k: int| is_first_fault(trees, k);
            assert(decode_member(trees[k]) is Ok);
        }
        assert(Seq::new(trees.len(), |i: int| decode_member(trees[i])->Ok_0) =~= Seq::new(
            members@.len(),
            |i: int| members@[i]@,
        ));
    }
    Ok(members)
}

/// Reads the field `members`, empty where the field is not there.
fn members_at(entries: &Vec<(String, Node)>) -> (res: Result<Vec<Member>, DecodeError>)
    ensures
        match res {
            Ok(members) => members_field(record_view(entries@)) == Ok::<
                Seq<MemberView>,
                DecodeError,
            >(Seq::new(members@.len(), |i: int| members@[i]@)),
            Err(e) => members_field(record_view(entries@)) == Err::<Seq<MemberView>, DecodeError>(
                e,
            ),
        },
{
    match find(entries, Field::Members) {
        None => {
            let members: Vec<Member> = Vec::new();
            proof {
                assert(Seq::new(members@.len(), |i: int| members@[i]@) =~= Seq::<
                    MemberView,
                >::empty());
            }
            Ok(members)
        },
        Some(Node::List(items)) => members_of(items),
        Some(_) => Err(DecodeError::Squad(Fault::Mismatch(Field::Members))),
    }
}

impl Squad {
    /// Reads a squad from a document. The document must be a record that
    /// holds a text under `squadName`, `homeTown` and `secretBase`, an
    /// integer under `formed` and a truth value under `active`; `members`,
    /// where it is there, must be a list of members. On a fault the error
    /// says which field it is and, for a member, which one.
    pub fn from_node(node: &Node) -> (res: Result<Squad, DecodeError>)
        ensures
            match res {
                Ok(squad) => decode_squad(node@) == Ok::<SquadView, DecodeError>(squad@),
                Err(e) => decode_squad(node@) == Err::<SquadView, DecodeError>(e),
            },
    {
        match node {
            Node::Record(entries) => {
                let squad_name = match text_at(entries, Field::SquadName) {
                    Ok(text) => text,
                    Err(fault) => {
                        return Err(DecodeError::Squad(fault));
                    },
                };
                let home_town = match text_at(entries, Field::HomeTown) {
                    Ok(text) => text,
                    Err(fault) => {
                        return Err(DecodeError::Squad(fault));
                    },
                };
                let formed = match int_at(entries, Field::Formed) {
                    Ok(year) => year,
                    Err(fault) => {
                        return Err(DecodeError::Squad(fault));
                    },
                };
                let secret_base = match text_at(entries, Field::SecretBase) {
                    Ok(text) => text,
                    Err(fault) => {
                        return Err(DecodeError::Squad(fault));
                    },
                };
                let active = match bool_at(entries, Field::Active) {
                    Ok(active) => active,
                    Err(fault) => {
                        return Err(DecodeError::Squad(fault));
                    },
                };
                let members = match members_at(entries) {
                    Ok(members) => members,
                    Err(e) => {
                        return Err(e);
                    },
                };
                Ok(Squad { squad_name, home_town, formed, secret_base, active, members })
            },
            _ => Err(DecodeError::Squad(Fault::NotRecord)),
        }
    }
}

impl Member {
    /// Reads a member from a node. The node must be a record that holds a
    /// text under `name` and `secretIdentity` and an integer under `age`;
    /// `powers`, where it is there, must be a list of texts.
    pub fn from_node(node: &Node) -> (res: Result<Member, Fault>)
        ensures
            match res {
                Ok(member) => decode_member(node@) == Ok::<MemberView, Fault>(member@),
                Err(fault) => decode_member(node@) == Err::<MemberView, Fault>(fault),
            },
    {
        match node {
            Node::Record(entries) => {
                let name = match text_at(entries, Field::Name) {
                    Ok(name) => name,
                    Err(fault) => {
                        return Err(fault);
                    },
                };
                let age = match int_at(entries, Field::Age) {
                    Ok(age) => age,
                    Err(fault) => {
                        return Err(fault);
                    },
                };
                let secret_identity = match text_at(entries, Field::SecretIdentity) {
                    Ok(text) => text,
                    Err(fault) => {
                        return Err(fault);
                    },
                };
                let powers = match texts_at(entries, Field::Powers) {
                    Ok(powers) => powers,
                    Err(fault) => {
                        return Err(fault);
                    },
                };
                Ok(Member { name, age, secret_identity, powers })
            },
            _ => Err(Fault::NotRecord),
        }
    }
}

} // verus!
