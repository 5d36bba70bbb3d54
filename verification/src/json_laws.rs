//! What is found in an object that was put together member by member.

use vstd::prelude::*;

use crate::json::{
    law_member_set_is_found, lemma_member_at, member, no_members, text_views, with_member,
    with_members, with_opt, with_opt_text, JsonView, Members,
};

verus! {

/// What an object with these members holds under a key.
pub open spec fn held(members: Members, key: Seq<char>) -> Option<JsonView> {
    member(JsonView::Object(members), key)
}

/// A text as a JSON value, where there is one.
pub open spec fn opt_text(value: Option<Seq<char>>) -> Option<JsonView> {
    match value {
        Some(text) => Some(JsonView::Text(text)),
        None => None,
    }
}

/// An object without members holds nothing.
pub proof fn law_nothing_is_held_by_none(key: Seq<char>)
    ensures
        held(no_members(), key) is None,
{
}

/// A member that was set is held under its key, and every other key holds what it held before.
pub proof fn law_set_member_is_held(members: Members, key: Seq<char>, value: JsonView)
    ensures
        forall|other: Seq<char>| #[trigger]
            held(with_member(members, key, value), other) == (if other == key {
                Some(value)
            } else {
                held(members, other)
            }),
{
    assert forall|other: Seq<char>| #[trigger]
        held(with_member(members, key, value), other) == (if other == key {
            Some(value)
        } else {
            held(members, other)
        }) by {
        law_member_set_is_found(members, key, value, other);
    }
}

/// A member that is set only where there is a value changes what its key holds only there.
pub proof fn law_optional_member_is_held(members: Members, key: Seq<char>, value: Option<JsonView>)
    ensures
        forall|other: Seq<char>| #[trigger]
            held(with_opt(members, key, value), other) == (if other == key && value is Some {
                value
            } else {
                held(members, other)
            }),
{
    if let Some(v) = value {
        law_set_member_is_held(members, key, v);
        assert(with_opt(members, key, value) == with_member(members, key, v));
    } else {
        assert(with_opt(members, key, value) == members);
    }
}

/// The same of a member that is a text.
pub proof fn law_optional_text_is_held(members: Members, key: Seq<char>, value: Option<Seq<char>>)
    ensures
        forall|other: Seq<char>| #[trigger]
            held(with_opt_text(members, key, value), other) == (if other == key && value is Some {
                opt_text(value)
            } else {
                held(members, other)
            }),
{
    if let Some(v) = value {
        law_set_member_is_held(members, key, JsonView::Text(v));
        assert(with_opt_text(members, key, value) == with_member(members, key, JsonView::Text(v)));
    } else {
        assert(with_opt_text(members, key, value) == members);
    }
}

/// Where the last member of a key stands among some.
pub open spec fn is_last_of(members: Members, i: int) -> bool {
    0 <= i < members.len() && forall|j: int|
        i < j < members.len() ==> (#[trigger] members[j]).0 != members[i].0
}

/// Members that are added go before those that were there: a key that is among them holds what the
/// last of its members says, and every other key holds what it held before.
pub proof fn law_added_members_go_first(members: Members, extra: Members)
    ensures
        forall|i: int| #[trigger]
            is_last_of(extra, i) ==> held(with_members(members, extra), extra[i].0) == Some(
                extra[i].1,
            ),
        forall|other: Seq<char>|
            (forall|j: int| 0 <= j < extra.len() ==> (#[trigger] extra[j]).0 != other)
                ==> #[trigger] held(with_members(members, extra), other) == held(members, other),
    decreases extra.len(),
{
    if extra.len() > 0 {
        let front = extra.drop_last();
        let last = extra.len() - 1;
        let before = with_members(members, front);
        law_added_members_go_first(members, front);
        law_set_member_is_held(before, extra.last().0, extra.last().1);
        let all = with_members(members, extra);
        assert(all == with_member(before, extra.last().0, extra.last().1));
        assert forall|i: int| #[trigger] is_last_of(extra, i) implies held(all, extra[i].0) == Some(
            extra[i].1,
        ) by {
            if i < last {
                assert(extra[last].0 != extra[i].0);
                assert forall|j: int| i < j < front.len() implies (#[trigger] front[j]).0
                    != front[i].0 by {
                    assert(extra[j].0 != extra[i].0);
                }
                assert(is_last_of(front, i));
                assert(front[i] == extra[i]);
            }
        }
        assert forall|other: Seq<char>|
            (forall|j: int| 0 <= j < extra.len() ==> (#[trigger] extra[j]).0 != other) implies #[trigger] held(
            all,
            other,
        ) == held(members, other) by {
            assert(extra[last].0 != other);
            assert forall|j: int| 0 <= j < front.len() implies (#[trigger] front[j]).0 != other by {
                assert(extra[j].0 != other);
            }
        }
    }
}

/// A list of texts as a JSON value holds each of them, in its place.
pub proof fn law_texts_stay_in_order(texts: Seq<Seq<char>>)
    ensures
        text_views(texts).len() == texts.len(),
        forall|i: int|
            0 <= i < texts.len() ==> #[trigger] text_views(texts)[i] == JsonView::Text(texts[i]),
{
}

/// A key is found exactly where some member has it.
pub proof fn law_held_key_is_there(members: Members, key: Seq<char>)
    ensures
        held(members, key) is Some <==> exists|i: int|
            0 <= i < members.len() && (#[trigger] members[i]).0 == key,
{
    lemma_member_at(members, key);
}

} // verus!
