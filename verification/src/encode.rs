//! Writing a squad to a document tree.

use vstd::prelude::*;
use vstd::string::*;
use crate::document::{lemma_list_view, lemma_record_view, list_view, record_view, Node, Tree};
use crate::model::{encode_member, encode_squad, Field, Member, Squad};

verus! {

/// One entry of a record: the key of `field` and a value.
fn entry(field: Field, value: Node) -> (pair: (String, Node))
    ensures
        pair.0@ == field.key(),
        pair.1 == value,
{
    (String::from_str(field.as_str()), value)
}

impl Member {
    /// The document that holds this member: a record of `name`, `age`,
    /// `secretIdentity` and `powers`, in this order.
    pub fn to_node(&self) -> (node: Node)
        ensures
            node@ == encode_member(self@),
    {
        let mut powers: Vec<Node> = Vec::new();
        let mut i: usize = 0;
        while i < self.powers.len()
            invariant
                i <= self.powers.len(),
                powers@.len() == i,
                forall|j: int| 0 <= j < i ==> (#[trigger] powers@[j])@ == Tree::Text(self.powers@[j]@),
            decreases self.powers.len() - i,
        {
            powers.push(Node::Text(self.powers[i].clone()));
            i += 1;
        }
        let ghost listed = powers@;
        let mut entries: Vec<(String, Node)> = Vec::new();
        entries.push(entry(Field::Name, Node::Text(self.name.clone())));
        entries.push(entry(Field::Age, Node::Number(Some(self.age))));
        entries.push(entry(Field::SecretIdentity, Node::Text(self.secret_identity.clone())));
        entries.push(entry(Field::Powers, Node::List(powers)));
        proof {
            lemma_list_view(listed);
            lemma_record_view(entries@);
            assert(list_view(listed) =~= Seq::new(
                self@.powers.len(),
                |i: int| Tree::Text(self@.powers[i]),
            ));
            assert(record_view(entries@) =~= encode_member(self@)->Record_0);
        }
        Node::Record(entries)
    }
}

impl Squad {
    /// The document that holds this squad: a record of `squadName`,
    /// `homeTown`, `formed`, `secretBase`, `active` and `members`, in this
    /// order, each member written as [`Member::to_node`] writes it.
    pub fn to_node(&self) -> (node: Node)
        ensures
            node@ == encode_squad(self@),
    {
        let mut members: Vec<Node> = Vec::new();
        let mut i: usize = 0;
        while i < self.members.len()
            invariant
                i <= self.members.len(),
                members@.len() == i,
                forall|j: int|
                    0 <= j < i ==> (#[trigger] members@[j])@ == encode_member(self.members@[j]@),
            decreases self.members.len() - i,
        {
            members.push(self.members[i].to_node());
            i += 1;
        }
        let ghost listed = members@;
        let mut entries: Vec<(String, Node)> = Vec::new();
        entries.push(entry(Field::SquadName, Node::Text(self.squad_name.clone())));
        entries.push(entry(Field::HomeTown, Node::Text(self.home_town.clone())));
        entries.push(entry(Field::Formed, Node::Number(Some(self.formed))));
        entries.push(entry(Field::SecretBase, Node::Text(self.secret_base.clone())));
        entries.push(entry(Field::Active, Node::Bool(self.active)));
        entries.push(entry(Field::Members, Node::List(members)));
        proof {
            lemma_list_view(listed);
            lemma_record_view(entries@);
            assert(list_view(listed) =~= Seq::new(
                self@.members.len(),
                |i: int| encode_member(self@.members[i]),
            ));
            assert(record_view(entries@) =~= encode_squad(self@)->Record_0);
        }
        Node::Record(entries)
    }
}

} // verus!
