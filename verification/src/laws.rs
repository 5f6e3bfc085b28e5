//! What holds of reading a squad from a document and writing it to one.

use vstd::prelude::*;
use crate::document::{distinct_names, Tree};
use crate::model::{
    all_texts, bool_field, decode_member, decode_squad, encode_member, encode_squad, int_field,
    is_first, is_first_fault, lemma_keys_differ, lemma_lookup_first, lemma_lookup_none, lookup,
    text_field, DecodeError, Fault, Field, MemberView, SquadView,
};

verus! {

/// The record that a member is written to holds each of the four fields
/// once, at its own position.
proof fn lemma_member_entries(member: MemberView)
    ensures
        distinct_names(encode_member(member)->Record_0),
        is_first(encode_member(member)->Record_0, Field::Name.key(), 0),
        is_first(encode_member(member)->Record_0, Field::Age.key(), 1),
        is_first(encode_member(member)->Record_0, Field::SecretIdentity.key(), 2),
        is_first(encode_member(member)->Record_0, Field::Powers.key(), 3),
{
    lemma_keys_differ(Field::Name, Field::Age);
    lemma_keys_differ(Field::Name, Field::SecretIdentity);
    lemma_keys_differ(Field::Name, Field::Powers);
    lemma_keys_differ(Field::Age, Field::SecretIdentity);
    lemma_keys_differ(Field::Age, Field::Powers);
    lemma_keys_differ(Field::SecretIdentity, Field::Powers);
}

/// The record that a squad is written to holds each of the six fields
/// once, at its own position.
proof fn lemma_squad_entries(squad: SquadView)
    ensures
        distinct_names(encode_squad(squad)->Record_0),
        is_first(encode_squad(squad)->Record_0, Field::SquadName.key(), 0),
        is_first(encode_squad(squad)->Record_0, Field::HomeTown.key(), 1),
        is_first(encode_squad(squad)->Record_0, Field::Formed.key(), 2),
        is_first(encode_squad(squad)->Record_0, Field::SecretBase.key(), 3),
        is_first(encode_squad(squad)->Record_0, Field::Active.key(), 4),
        is_first(encode_squad(squad)->Record_0, Field::Members.key(), 5),
{
    lemma_keys_differ(Field::SquadName, Field::HomeTown);
    lemma_keys_differ(Field::SquadName, Field::Formed);
    lemma_keys_differ(Field::SquadName, Field::SecretBase);
    lemma_keys_differ(Field::SquadName, Field::Active);
    lemma_keys_differ(Field::SquadName, Field::Members);
    lemma_keys_differ(Field::HomeTown, Field::Formed);
    lemma_keys_differ(Field::HomeTown, Field::SecretBase);
    lemma_keys_differ(Field::HomeTown, Field::Active);
    lemma_keys_differ(Field::HomeTown, Field::Members);
    lemma_keys_differ(Field::Formed, Field::SecretBase);
    lemma_keys_differ(Field::Formed, Field::Active);
    lemma_keys_differ(Field::Formed, Field::Members);
    lemma_keys_differ(Field::SecretBase, Field::Active);
    lemma_keys_differ(Field::SecretBase, Field::Members);
    lemma_keys_differ(Field::Active, Field::Members);
}

/// The document that a member is written to is plain.
pub proof fn lemma_member_plain(member: MemberView)
    ensures
        encode_member(member).plain(),
{
    let tree = encode_member(member);
    let entries = tree->Record_0;
    lemma_member_entries(member);
    let items = entries[3].1->List_0;
    assert forall|i: int| 0 <= i < items.len() implies (#[trigger] items[i]).plain() by {
        assert(items[i] == Tree::Text(member.powers[i]));
    }
    assert(entries[3].1.plain());
    assert(entries[0].1.plain());
    assert(entries[1].1.plain());
    assert(entries[2].1.plain());
    assert(tree.plain());
}

/// The document that a squad is written to is plain.
pub proof fn lemma_squad_plain(squad: SquadView)
    ensures
        encode_squad(squad).plain(),
{
    let tree = encode_squad(squad);
    let entries = tree->Record_0;
    lemma_squad_entries(squad);
    let items = entries[5].1->List_0;
    assert forall|i: int| 0 <= i < items.len() implies (#[trigger] items[i]).plain() by {
        lemma_member_plain(squad.members[i]);
    }
    assert(entries[5].1.plain());
    assert(entries[0].1.plain());
    assert(entries[1].1.plain());
    assert(entries[2].1.plain());
    assert(entries[3].1.plain());
    assert(entries[4].1.plain());
    assert(tree.plain());
}

/// Reading a member back from the document that it was written to gives the
/// same member.
pub proof fn lemma_member_round_trip(member: MemberView)
    ensures
        decode_member(encode_member(member)) == Ok::<MemberView, Fault>(member),
{
    let entries = encode_member(member)->Record_0;
    lemma_member_entries(member);
    lemma_lookup_first(entries, Field::Name.key(), 0);
    lemma_lookup_first(entries, Field::Age.key(), 1);
    lemma_lookup_first(entries, Field::SecretIdentity.key(), 2);
    lemma_lookup_first(entries, Field::Powers.key(), 3);
    let items = Seq::new(member.powers.len(), |i: int| Tree::Text(member.powers[i]));
    assert(all_texts(items));
    assert(Seq::new(items.len(), |i: int| items[i]->Text_0) =~= member.powers);
}

/// Reading a squad back from the document that it was written to gives the
/// same squad, whatever its members, none included.
pub proof fn lemma_squad_round_trip(squad: SquadView)
    ensures
        decode_squad(encode_squad(squad)) == Ok::<SquadView, DecodeError>(squad),
{
    let entries = encode_squad(squad)->Record_0;
    lemma_squad_entries(squad);
    lemma_lookup_first(entries, Field::SquadName.key(), 0);
    lemma_lookup_first(entries, Field::HomeTown.key(), 1);
    lemma_lookup_first(entries, Field::Formed.key(), 2);
    lemma_lookup_first(entries, Field::SecretBase.key(), 3);
    lemma_lookup_first(entries, Field::Active.key(), 4);
    lemma_lookup_first(entries, Field::Members.key(), 5);
    let items = Seq::new(squad.members.len(), |i: int| encode_member(squad.members[i]));
    assert forall|i: int| 0 <= i < items.len() implies decode_member(#[trigger] items[i]) == Ok::<
        MemberView,
        Fault,
    >(squad.members[i]) by {
        lemma_member_round_trip(squad.members[i]);
    }
    if exists|i: int| is_first_fault(items, i) {
        let i = choose|i: int| is_first_fault(items, i);
        assert(decode_member(items[i]) is Ok);
    }
    assert(Seq::new(items.len(), |i: int| decode_member(items[i])->Ok_0) =~= squad.members);
}

/// An entry under another name, put anywhere into a record, does not change
/// what the record holds under `key`.
pub proof fn lemma_lookup_skips(
    entries: Seq<(Seq<char>, Tree)>,
    at: int,
    name: Seq<char>,
    value: Tree,
    key: Seq<char>,
)
    requires
        0 <= at <= entries.len(),
        name != key,
    ensures
        lookup(entries.insert(at, (name, value)), key) == lookup(entries, key),
{
    let wider = entries.insert(at, (name, value));
    entries.insert_ensures(at, (name, value));
    if exists|i: int| is_first(entries, key, i) {
        let i = choose|i: int| is_first(entries, key, i);
        let k = if i < at {
            i
        } else {
            i + 1
        };
        assert forall|j: int| 0 <= j < k implies (#[trigger] wider[j]).0 != key by {
            if j < at {
                assert(wider[j] == entries[j]);
            } else if j > at {
                assert(wider[(j - 1) + 1] == entries[j - 1]);
            }
        }
        assert(wider[k] == entries[i]) by {
            if i >= at {
                assert(wider[i + 1] == entries[i]);
            }
        }
        assert(is_first(wider, key, k));
        lemma_lookup_first(wider, key, k);
        lemma_lookup_first(entries, key, i);
    } else {
        assert forall|j: int| 0 <= j < wider.len() implies (#[trigger] wider[j]).0 != key by {
            if j < at {
                assert(wider[j] == entries[j]);
                assert(!is_first(entries, key, j));
                lemma_lookup_none_before(entries, key, j);
            } else if j > at {
                assert(wider[(j - 1) + 1] == entries[j - 1]);
                lemma_lookup_none_before(entries, key, j - 1);
            }
        }
        lemma_lookup_none(wider, key);
    }
}

/// Where a record has no first entry of a name, it has no entry of that
/// name at all.
proof fn lemma_lookup_none_before(entries: Seq<(Seq<char>, Tree)>, key: Seq<char>, j: int)
    requires
        0 <= j < entries.len(),
        !exists|i: int| is_first(entries, key, i),
    ensures
        entries[j].0 != key,
    decreases j,
{
    if entries[j].0 == key {
        if forall|k: int| 0 <= k < j ==> (#[trigger] entries[k]).0 != key {
            assert(is_first(entries, key, j));
        } else {
            let k = choose|k: int| 0 <= k < j && (#[trigger] entries[k]).0 == key;
            lemma_lookup_none_before(entries, key, k);
        }
    }
}

/// A member's record may hold more than the member's fields: an entry under
/// any other name, wherever it stands, is passed over.
pub proof fn lemma_member_ignores_extra(
    entries: Seq<(Seq<char>, Tree)>,
    at: int,
    name: Seq<char>,
    value: Tree,
)
    requires
        0 <= at <= entries.len(),
        name != Field::Name.key(),
        name != Field::Age.key(),
        name != Field::SecretIdentity.key(),
        name != Field::Powers.key(),
    ensures
        decode_member(Tree::Record(entries.insert(at, (name, value)))) == decode_member(
            Tree::Record(entries),
        ),
{
    lemma_lookup_skips(entries, at, name, value, Field::Name.key());
    lemma_lookup_skips(entries, at, name, value, Field::Age.key());
    lemma_lookup_skips(entries, at, name, value, Field::SecretIdentity.key());
    lemma_lookup_skips(entries, at, name, value, Field::Powers.key());
}

/// A squad's record may hold more than the squad's fields: an entry under
/// any other name, wherever it stands, is passed over.
pub proof fn lemma_squad_ignores_extra(
    entries: Seq<(Seq<char>, Tree)>,
    at: int,
    name: Seq<char>,
    value: Tree,
)
    requires
        0 <= at <= entries.len(),
        name != Field::SquadName.key(),
        name != Field::HomeTown.key(),
        name != Field::Formed.key(),
        name != Field::SecretBase.key(),
        name != Field::Active.key(),
        name != Field::Members.key(),
    ensures
        decode_squad(Tree::Record(entries.insert(at, (name, value)))) == decode_squad(
            Tree::Record(entries),
        ),
{
    lemma_lookup_skips(entries, at, name, value, Field::SquadName.key());
    lemma_lookup_skips(entries, at, name, value, Field::HomeTown.key());
    lemma_lookup_skips(entries, at, name, value, Field::Formed.key());
    lemma_lookup_skips(entries, at, name, value, Field::SecretBase.key());
    lemma_lookup_skips(entries, at, name, value, Field::Active.key());
    lemma_lookup_skips(entries, at, name, value, Field::Members.key());
}

/// A member whose record says nothing of `powers` has none: the reading
/// succeeds as soon as the three other fields are in order.
pub proof fn lemma_member_without_powers(entries: Seq<(Seq<char>, Tree)>)
    requires
        lookup(entries, Field::Powers.key()) is None,
        text_field(entries, Field::Name) is Ok,
        int_field(entries, Field::Age) is Ok,
        text_field(entries, Field::SecretIdentity) is Ok,
    ensures
        decode_member(Tree::Record(entries)) is Ok,
        decode_member(Tree::Record(entries))->Ok_0.powers == Seq::<Seq<char>>::empty(),
{
}

/// A squad whose record says nothing of `members` has none: the reading
/// succeeds as soon as the five other fields are in order.
pub proof fn lemma_squad_without_members(entries: Seq<(Seq<char>, Tree)>)
    requires
        lookup(entries, Field::Members.key()) is None,
        text_field(entries, Field::SquadName) is Ok,
        text_field(entries, Field::HomeTown) is Ok,
        int_field(entries, Field::Formed) is Ok,
        text_field(entries, Field::SecretBase) is Ok,
        bool_field(entries, Field::Active) is Ok,
    ensures
        decode_squad(Tree::Record(entries)) is Ok,
        decode_squad(Tree::Record(entries))->Ok_0.members == Seq::<MemberView>::empty(),
{
}

/// A member's field without a default that is not there is a fault,
/// whatever else the record holds: the reading ends with an error.
pub proof fn lemma_member_needs(entries: Seq<(Seq<char>, Tree)>, field: Field)
    requires
        field == Field::Name || field == Field::Age || field == Field::SecretIdentity,
        lookup(entries, field.key()) is None,
    ensures
        decode_member(Tree::Record(entries)) is Err,
{
}

/// A squad's field without a default that is not there is a fault,
/// whatever else the record holds: the reading ends with an error that
/// lies in the squad's own record.
pub proof fn lemma_squad_needs(entries: Seq<(Seq<char>, Tree)>, field: Field)
    requires
        field == Field::SquadName || field == Field::HomeTown || field == Field::Formed || field
            == Field::SecretBase || field == Field::Active,
        lookup(entries, field.key()) is None,
    ensures
        decode_squad(Tree::Record(entries)) is Err,
        decode_squad(Tree::Record(entries))->Err_0 is Squad,
{
}

} // verus!
