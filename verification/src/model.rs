//! The squad record, and how it is read from and written to a document tree.
//!
//! In a document every field goes by a fixed camel-case key, whatever the
//! textual form that carries the document.

use vstd::prelude::*;
use vstd::string::*;
use crate::document::Tree;

verus! {

/// A squad of heroes.
#[derive(Clone, Debug, PartialEq)]
pub struct Squad {
    pub squad_name: String,
    pub home_town: String,
    pub formed: i64,
    pub secret_base: String,
    pub active: bool,
    pub members: Vec<Member>,
}

/// One member of a squad.
#[derive(Clone, Debug, PartialEq)]
pub struct Member {
    pub name: String,
    pub age: i64,
    pub secret_identity: String,
    pub powers: Vec<String>,
}

/// The mathematical value of a [`Member`].
pub struct MemberView {
    pub name: Seq<char>,
    pub age: i64,
    pub secret_identity: Seq<char>,
    pub powers: Seq<Seq<char>>,
}

/// The mathematical value of a [`Squad`].
pub struct SquadView {
    pub squad_name: Seq<char>,
    pub home_town: Seq<char>,
    pub formed: i64,
    pub secret_base: Seq<char>,
    pub active: bool,
    pub members: Seq<MemberView>,
}

impl View for Member {
    type V = MemberView;

    open spec fn view(&self) -> MemberView {
        MemberView {
            name: self.name@,
            age: self.age,
            secret_identity: self.secret_identity@,
            powers: Seq::new(self.powers.len() as nat, |i: int| self.powers[i]@),
        }
    }
}

impl View for Squad {
    type V = SquadView;

    open spec fn view(&self) -> SquadView {
        SquadView {
            squad_name: self.squad_name@,
            home_town: self.home_town@,
            formed: self.formed,
            secret_base: self.secret_base@,
            active: self.active,
            members: Seq::new(self.members.len() as nat, |i: int| self.members[i]@),
        }
    }
}

impl Default for Member {
    /// A member with empty texts, age zero and no powers.
    fn default() -> (member: Member)
        ensures
            member@ == (MemberView {
                name: Seq::empty(),
                age: 0,
                secret_identity: Seq::empty(),
                powers: Seq::empty(),
            }),
    {
        let member = Member {
            name: String::new(),
            age: 0,
            secret_identity: String::new(),
            powers: Vec::new(),
        };
        assert(member@.powers =~= Seq::<Seq<char>>::empty());
        member
    }
}

impl Default for Squad {
    /// A squad with empty texts, formed in the year zero, not active and
    /// without members.
    fn default() -> (squad: Squad)
        ensures
            squad@ == (SquadView {
                squad_name: Seq::empty(),
                home_town: Seq::empty(),
                formed: 0,
                secret_base: Seq::empty(),
                active: false,
                members: Seq::empty(),
            }),
    {
        let squad = Squad {
            squad_name: String::new(),
            home_town: String::new(),
            formed: 0,
            secret_base: String::new(),
            active: false,
            members: Vec::new(),
        };
        assert(squad@.members =~= Seq::<MemberView>::empty());
        squad
    }
}

/// The fields of the two records.
#[derive(Clone, Copy, Debug, PartialEq, Eq, Structural)]
pub enum Field {
    SquadName,
    HomeTown,
    Formed,
    SecretBase,
    Active,
    Members,
    Name,
    Age,
    SecretIdentity,
    Powers,
}

/// What is wrong with a node that should hold a record.
#[derive(Clone, Copy, Debug, PartialEq, Eq, Structural)]
pub enum Fault {
    /// The node is no record at all.
    NotRecord,
    /// A field that has no default is not there.
    Missing(Field),
    /// A field is there, but holds a value of another type.
    Mismatch(Field),
}

/// Why a document is not a squad.
#[derive(Clone, Copy, Debug, PartialEq, Eq, Structural)]
pub enum DecodeError {
    /// The fault lies in the squad's own record.
    Squad(Fault),
    /// The fault lies in the member at this position of `members`.
    Member(usize, Fault),
}

impl Field {
    /// The key under which a document holds the field.
    pub open spec fn key(self) -> Seq<char> {
        match self {
            Field::SquadName => "squadName"@,
            Field::HomeTown => "homeTown"@,
            Field::Formed => "formed"@,
            Field::SecretBase => "secretBase"@,
            Field::Active => "active"@,
            Field::Members => "members"@,
            Field::Name => "name"@,
            Field::Age => "age"@,
            Field::SecretIdentity => "secretIdentity"@,
            Field::Powers => "powers"@,
        }
    }

    /// The key under which a document holds the field.
    pub fn as_str(&self) -> (key: &'static str)
        ensures
            key@ == self.key(),
    {
        match self {
            Field::SquadName => "squadName",
            Field::HomeTown => "homeTown",
            Field::Formed => "formed",
            Field::SecretBase => "secretBase",
            Field::Active => "active",
            Field::Members => "members",
            Field::Name => "name",
            Field::Age => "age",
            Field::SecretIdentity => "secretIdentity",
            Field::Powers => "powers",
        }
    }
}

/// Whether `i` is the first position of `entries` that goes by `key`.
pub open spec fn is_first(entries: Seq<(Seq<char>, Tree)>, key: Seq<char>, i: int) -> bool {
    &&& 0 <= i < entries.len()
    &&& entries[i].0 == key
    &&& forall|j: int| 0 <= j < i ==> (#[trigger] entries[j]).0 != key
}

/// The value that a record holds under `key`: that of the first entry of
/// that name, if there is one.
pub open spec fn lookup(entries: Seq<(Seq<char>, Tree)>, key: Seq<char>) -> Option<Tree> {
    if exists|i: int| is_first(entries, key, i) {
        Some(entries[choose|i: int| is_first(entries, key, i)].1)
    } else {
        None
    }
}

/// A record holds under `key` the value of its first entry of that name.
pub proof fn lemma_lookup_first(entries: Seq<(Seq<char>, Tree)>, key: Seq<char>, i: int)
    requires
        is_first(entries, key, i),
    ensures
        lookup(entries, key) == Some(entries[i].1),
{
    let j = choose|j: int| is_first(entries, key, j);
    assert(is_first(entries, key, j));
    if j < i {
        assert(entries[j].0 != key);
    }
    if i < j {
        assert(entries[i].0 != key);
    }
}

/// A record with no entry of the name `key` holds nothing under it.
pub proof fn lemma_lookup_none(entries: Seq<(Seq<char>, Tree)>, key: Seq<char>)
    requires
        forall|j: int| 0 <= j < entries.len() ==> (#[trigger] entries[j]).0 != key,
    ensures
        lookup(entries, key) is None,
{
    if exists|i: int| is_first(entries, key, i) {
        let i = choose|i: int| is_first(entries, key, i);
        assert(entries[i].0 != key);
    }
}

/// No two fields share a key.
pub proof fn lemma_keys_differ(a: Field, b: Field)
    requires
        a != b,
    ensures
        a.key() != b.key(),
{
    reveal_strlit("squadName");
    reveal_strlit("homeTown");
    reveal_strlit("formed");
    reveal_strlit("secretBase");
    reveal_strlit("active");
    reveal_strlit("members");
    reveal_strlit("name");
    reveal_strlit("age");
    reveal_strlit("secretIdentity");
    reveal_strlit("powers");
    let (x, y) = (a.key(), b.key());
    if x.len() == y.len() {
        assert(x[0] != y[0] || x[1] != y[1]);
    }
}

/// A field that must be there and hold a text.
pub open spec fn text_field(entries: Seq<(Seq<char>, Tree)>, field: Field) -> Result<
    Seq<char>,
    Fault,
> {
    match lookup(entries, field.key()) {
        None => Err(Fault::Missing(field)),
        Some(Tree::Text(text)) => Ok(text),
        Some(_) => Err(Fault::Mismatch(field)),
    }
}

/// A field that must be there and hold a signed 64-bit integer.
pub open spec fn int_field(entries: Seq<(Seq<char>, Tree)>, field: Field) -> Result<i64, Fault> {
    match lookup(entries, field.key()) {
        None => Err(Fault::Missing(field)),
        Some(Tree::Number(Some(n))) => Ok(n),
        Some(_) => Err(Fault::Mismatch(field)),
    }
}

/// A field that must be there and hold a truth value.
pub open spec fn bool_field(entries: Seq<(Seq<char>, Tree)>, field: Field) -> Result<bool, Fault> {
    match lookup(entries, field.key()) {
        None => Err(Fault::Missing(field)),
        Some(Tree::Bool(b)) => Ok(b),
        Some(_) => Err(Fault::Mismatch(field)),
    }
}

/// Whether every node of `items` is a text.
pub open spec fn all_texts(items: Seq<Tree>) -> bool {
    forall|i: int| 0 <= i < items.len() ==> (#[trigger] items[i]) is Text
}

/// A field that holds a list of texts. Where it is not there, the list is
/// empty.
pub open spec fn texts_field(entries: Seq<(Seq<char>, Tree)>, field: Field) -> Result<
    Seq<Seq<char>>,
    Fault,
> {
    match lookup(entries, field.key()) {
        None => Ok(Seq::empty()),
        Some(Tree::List(items)) => if all_texts(items) {
            Ok(Seq::new(items.len(), |i: int| items[i]->Text_0))
        } else {
            Err(Fault::Mismatch(field))
        },
        Some(_) => Err(Fault::Mismatch(field)),
    }
}

/// The member that a node holds. The fields are read in the order `name`,
/// `age`, `secretIdentity`, `powers`, and the first fault ends the reading.
/// Entries under other keys are passed over.
pub open spec fn decode_member(tree: Tree) -> Result<MemberView, Fault> {
    match tree {
        Tree::Record(entries) => match text_field(entries, Field::Name) {
            Err(fault) => Err(fault),
            Ok(name) => match int_field(entries, Field::Age) {
                Err(fault) => Err(fault),
                Ok(age) => match text_field(entries, Field::SecretIdentity) {
                    Err(fault) => Err(fault),
                    Ok(secret_identity) => match texts_field(entries, Field::Powers) {
                        Err(fault) => Err(fault),
                        Ok(powers) => Ok(MemberView { name, age, secret_identity, powers }),
                    },
                },
            },
        },
        _ => Err(Fault::NotRecord),
    }
}

/// Whether `i` is the first position of `items` that holds no member.
pub open spec fn is_first_fault(items: Seq<Tree>, i: int) -> bool {
    &&& 0 <= i < items.len()
    &&& decode_member(items[i]) is Err
    &&& forall|j: int| 0 <= j < i ==> decode_member(#[trigger] items[j]) is Ok
}

/// The members that a list of nodes holds, or the first fault among them
/// with its position.
pub open spec fn decode_members(items: Seq<Tree>) -> Result<Seq<MemberView>, DecodeError> {
    if exists|i: int| is_first_fault(items, i) {
        let i = choose|i: int| is_first_fault(items, i);
        Err(DecodeError::Member(i as usize, decode_member(items[i])->Err_0))
    } else {
        Ok(Seq::new(items.len(), |i: int| decode_member(items[i])->Ok_0))
    }
}

/// The field `members`: a list of members. Where it is not there, the list
/// is empty.
pub open spec fn members_field(entries: Seq<(Seq<char>, Tree)>) -> Result<
    Seq<MemberView>,
    DecodeError,
> {
    match lookup(entries, Field::Members.key()) {
        None => Ok(Seq::empty()),
        Some(Tree::List(items)) => decode_members(items),
        Some(_) => Err(DecodeError::Squad(Fault::Mismatch(Field::Members))),
    }
}

/// The squad that a document holds. The fields are read in the order
/// `squadName`, `homeTown`, `formed`, `secretBase`, `active`, `members`, and
/// the first fault ends the reading. Entries under other keys are passed
/// over.
pub open spec fn decode_squad(tree: Tree) -> Result<SquadView, DecodeError> {
    match tree {
        Tree::Record(entries) => match text_field(entries, Field::SquadName) {
            Err(fault) => Err(DecodeError::Squad(fault)),
            Ok(squad_name) => match text_field(entries, Field::HomeTown) {
                Err(fault) => Err(DecodeError::Squad(fault)),
                Ok(home_town) => match int_field(entries, Field::Formed) {
                    Err(fault) => Err(DecodeError::Squad(fault)),
                    Ok(formed) => match text_field(entries, Field::SecretBase) {
                        Err(fault) => Err(DecodeError::Squad(fault)),
                        Ok(secret_base) => match bool_field(entries, Field::Active) {
                            Err(fault) => Err(DecodeError::Squad(fault)),
                            Ok(active) => match members_field(entries) {
                                Err(e) => Err(e),
                                Ok(members) => Ok(
                                    SquadView {
                                        squad_name,
                                        home_town,
                                        formed,
                                        secret_base,
                                        active,
                                        members,
                                    },
                                ),
                            },
                        },
                    },
                },
            },
        },
        _ => Err(DecodeError::Squad(Fault::NotRecord)),
    }
}

/// The document that holds a member: its four fields, in their order.
pub open spec fn encode_member(member: MemberView) -> Tree {
    Tree::Record(
        seq![
            (Field::Name.key(), Tree::Text(member.name)),
            (Field::Age.key(), Tree::Number(Some(member.age))),
            (Field::SecretIdentity.key(), Tree::Text(member.secret_identity)),
            (
                Field::Powers.key(),
                Tree::List(Seq::new(member.powers.len(), |i: int| Tree::Text(member.powers[i]))),
            ),
        ],
    )
}

/// The document that holds a squad: its six fields, in their order.
pub open spec fn encode_squad(squad: SquadView) -> Tree {
    Tree::Record(
        seq![
            (Field::SquadName.key(), Tree::Text(squad.squad_name)),
            (Field::HomeTown.key(), Tree::Text(squad.home_town)),
            (Field::Formed.key(), Tree::Number(Some(squad.formed))),
            (Field::SecretBase.key(), Tree::Text(squad.secret_base)),
            (Field::Active.key(), Tree::Bool(squad.active)),
            (
                Field::Members.key(),
                Tree::List(
                    Seq::new(squad.members.len(), |i: int| encode_member(squad.members[i])),
                ),
            ),
        ],
    )
}

} // verus!
