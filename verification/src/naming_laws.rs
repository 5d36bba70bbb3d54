//! What models, names, conversations and what is put into a URL come to.

use vstd::prelude::*;

use crate::app_config::{models_differ, picks, ProviderOverride};
use crate::commands::response_way;
use crate::conversation::{
    blank_conversation, cleared, conversation_file, is_conversation_name, saved, summaries_of,
    with_said, Conversation, ConversationView, MessageView,
};
use crate::home::own_way;
use crate::ident::{cleaned, dashless_end, dashless_start, name_char, normal_id};
use crate::letter::{ascii_lower, lower};
use crate::model_mode::{
    is_preset_key, mode_of_arg, mode_of_flags, mode_of_key, mode_of_model, model_base, normal_key,
    with_mode, ModeView,
};
use crate::search::{ends, lemma_find_none, occurs_at, starts};
use crate::stamp::Timestamp;
use crate::text::{lemma_trimmed_is_same, space, trimmed};
use crate::text_laws::is_first_at;
use crate::wire::{form_byte, form_encoded, hex_upper, is_header_name, is_header_value, is_method};

verus! {

// ---------------------------------------------------------------------------
// Models and web modes
// ---------------------------------------------------------------------------

/// A routed model is its base, a colon and the routing; without a routing it is its base.
pub proof fn law_routing_stands_behind_the_base(base: Seq<char>, suffix: Seq<char>)
    requires
        forall|j: int| !occurs_at(base, ":online"@, j),
    ensures
        model_base(base) == base,
        mode_of_model(base) is None,
        with_mode(base, ModeView::Off) == base,
        with_mode(base, ModeView::Enabled(suffix)) == base + ":"@ + suffix,
{
    lemma_find_none(base, ":online"@);
}

/// The base of a routed model is what stands before its first mark, and its mode is what stands from
/// there on.
pub proof fn law_marks_are_read(base: Seq<char>, rest: Seq<char>)
    requires
        is_first_at(base + ":online"@ + rest, ":online"@, base.len() as int),
    ensures
        model_base(base + ":online"@ + rest) == base,
        mode_of_model(base + ":online"@ + rest) == Some(ModeView::Enabled("online"@ + rest)),
        with_mode(base + ":online"@ + rest, ModeView::Off) == base,
{
    crate::text_laws::law_split_is_at_the_first(base, ":online"@, rest);
}

/// Deep searches are those of `linkup`, and go before others; without a flag there is no routing.
pub proof fn law_flags_name_modes(web: bool)
    ensures
        mode_of_flags(web, true) == ModeView::Enabled("online/"@ + "linkup-deep"@),
        mode_of_flags(true, false) == ModeView::Enabled("online"@),
        mode_of_flags(false, false) == ModeView::Off,
{
    reveal_strlit("linkup-deep");
    reveal_strlit("online");
    assert("linkup-deep"@.len() == 11);
    assert("online"@.len() == 6);
}

/// Each word for a mode names its mode, whatever the case of its letters and the spaces around it; of
/// the others, only the key of a preset names one, and that its own.
pub proof fn law_words_name_modes(arg: Seq<char>)
    ensures
        lower(trimmed(arg)) == "off"@ ==> mode_of_arg(arg) == Some(ModeView::Off),
        lower(trimmed(arg)) == "none"@ ==> mode_of_arg(arg) == Some(ModeView::Off),
        lower(trimmed(arg)) == "disable"@ ==> mode_of_arg(arg) == Some(ModeView::Off),
        lower(trimmed(arg)) == "disabled"@ ==> mode_of_arg(arg) == Some(ModeView::Off),
        lower(trimmed(arg)) == "on"@ ==> mode_of_arg(arg) == Some(ModeView::Enabled("online"@)),
        lower(trimmed(arg)) == "standard"@ ==> mode_of_arg(arg) == Some(ModeView::Enabled("online"@)),
        lower(trimmed(arg)) == "online"@ ==> mode_of_arg(arg) == Some(ModeView::Enabled("online"@)),
        lower(trimmed(arg)) == "auto"@ ==> mode_of_arg(arg) == Some(ModeView::Enabled("online"@)),
        lower(trimmed(arg)) == "deep"@ ==> mode_of_arg(arg) == Some(ModeView::Enabled("online/"@ + "linkup-deep"@)),
        lower(trimmed(arg)).len() > 0 && lower(trimmed(arg)) != "off"@
            && lower(trimmed(arg)) != "none"@ && lower(trimmed(arg)) != "disable"@
            && lower(trimmed(arg)) != "disabled"@ && lower(trimmed(arg)) != "on"@
            && lower(trimmed(arg)) != "standard"@ && lower(trimmed(arg)) != "online"@
            && lower(trimmed(arg)) != "auto"@
            && lower(trimmed(arg)) != "deep"@ ==> (mode_of_arg(arg) is Some
            <==> is_preset_key(normal_key(lower(trimmed(arg))))),
        mode_of_arg(arg) matches Some(mode) ==> {
            ||| mode == ModeView::Off
            ||| mode == ModeView::Enabled("online"@)
            ||| exists|key: Seq<char>| mode == ModeView::Enabled(#[trigger] ("online/"@ + key))
        },
{
    reveal_strlit("linkup-deep");
    assert("linkup-deep"@.len() == 11);
    reveal_strlit("off");
    reveal_strlit("none");
    reveal_strlit("disable");
    reveal_strlit("disabled");
    reveal_strlit("on");
    reveal_strlit("standard");
    reveal_strlit("online");
    reveal_strlit("auto");
    reveal_strlit("deep");
    assert("off"@.len() == 3);
    assert("none"@.len() == 4);
    assert("disable"@.len() == 7);
    assert("disabled"@.len() == 8);
    assert("on"@.len() == 2);
    assert("standard"@.len() == 8);
    assert("online"@.len() == 6);
    assert("auto"@.len() == 4);
    assert("deep"@.len() == 4);
    assert("none"@[0] != "auto"@[0]);
    assert("none"@[0] != "deep"@[0]);
    assert("disabled"@[0] != "standard"@[0]);
    assert("auto"@[0] != "deep"@[0]);
    let key = normal_key(lower(trimmed(arg)));
    assert(mode_of_key(key) == ModeView::Enabled("online"@) || mode_of_key(key) == ModeView::Enabled(
        "online/"@ + key,
    ));
    assert(mode_of_key("linkup-deep"@) == ModeView::Enabled("online/"@ + "linkup-deep"@));
}

// ---------------------------------------------------------------------------
// Picked providers
// ---------------------------------------------------------------------------

/// Each model has the provider that was picked for it, and the others have none.
pub proof fn law_picks_are_kept(entries: Seq<ProviderOverride>, i: int, model: Seq<char>)
    requires
        models_differ(entries),
    ensures
        0 <= i < entries.len() ==> picks(entries).contains_key(entries[i].model@) && picks(
            entries,
        )[entries[i].model@] == entries[i].provider@,
        (forall|k: int| 0 <= k < entries.len() ==> (#[trigger] entries[k]).model@ != model) ==> !picks(
            entries,
        ).contains_key(model),
    decreases entries.len(),
{
    if entries.len() > 0 {
        let front = entries.drop_last();
        let n = entries.len() - 1;
        assert forall|a: int, b: int| 0 <= a < b < front.len() implies (#[trigger] front[a]).model@ != (
        #[trigger] front[b]).model@ by {
            assert(front[a] == entries[a] && front[b] == entries[b]);
        }
        law_picks_are_kept(front, i, model);
        if 0 <= i < n {
            assert(front[i] == entries[i]);
            assert(entries[i].model@ != entries[n].model@);
        }
        if forall|k: int| 0 <= k < entries.len() ==> (#[trigger] entries[k]).model@ != model {
            assert(entries[n].model@ != model);
            assert forall|k: int| 0 <= k < front.len() implies (#[trigger] front[k]).model@ != model by {
                assert(front[k] == entries[k]);
            }
        }
    }
}

// ---------------------------------------------------------------------------
// Conversations
// ---------------------------------------------------------------------------

/// A new conversation has the name, the model and the system prompt that it is given; nothing was said
/// in it, and it was changed when it was begun.
pub proof fn law_new_conversation_is_empty(
    id: Seq<char>,
    model: Seq<char>,
    prompt: Option<Seq<char>>,
    now: Timestamp,
)
    ensures
        blank_conversation(id, model, prompt, now).messages.len() == 0,
        blank_conversation(id, model, prompt, now).id == id,
        blank_conversation(id, model, prompt, now).model == model,
        blank_conversation(id, model, prompt, now).system_prompt == prompt,
        blank_conversation(id, model, prompt, now).created_at == now,
        blank_conversation(id, model, prompt, now).updated_at == now,
{
}

/// A list of conversations tells of each its name, its model, when it was changed, and how many
/// messages it holds.
pub proof fn law_list_tells_of_each(found: Seq<Conversation>, i: int)
    requires
        0 <= i < found.len(),
    ensures
        summaries_of(found).len() == found.len(),
        summaries_of(found)[i].id == found[i].id@,
        summaries_of(found)[i].model == found[i].model@,
        summaries_of(found)[i].updated_at == found[i].updated_at,
        summaries_of(found)[i].message_count == found[i].messages@.len(),
{
}

/// A conversation is stored in a file of its name, and only such files hold conversations.
pub proof fn law_file_has_the_name(id: Seq<char>, other: Seq<char>)
    ensures
        conversation_file(id) == id + ".json"@,
        id.len() > 0 ==> is_conversation_name(conversation_file(id)),
        is_conversation_name(other) ==> ends(other, ".json"@) && other != ".json"@,
        conversation_file(id) == conversation_file(other) ==> id == other,
        own_way(id).len() == 2,
        own_way(id)[0] == ".nanogpt-cli"@,
        own_way(id)[1] == id,
{
    let file = conversation_file(id);
    assert(file.skip(id.len() as int) =~= ".json"@);
    if conversation_file(id) == conversation_file(other) {
        assert(id.len() == other.len());
        assert(file.take(id.len() as int) =~= id);
        assert(conversation_file(other).take(id.len() as int) =~= other);
    }
}

/// A name keeps its letters, in lower case, its digits, its underscores and its dashes; each other
/// character becomes a dash.
pub proof fn law_names_are_made_plain(s: Seq<char>, i: int)
    requires
        s.len() > 0,
        name_char(s[0]),
        s[0] != '-',
        name_char(s.last()),
        s.last() != '-',
    ensures
        normal_id(s).len() == s.len(),
        0 <= i < s.len() && ('a' <= s[i] <= 'z' || '0' <= s[i] <= '9' || s[i] == '_' || s[i] == '-')
            ==> normal_id(s)[i] == s[i],
        0 <= i < s.len() && 'A' <= s[i] <= 'Z' ==> normal_id(s)[i] as u32 == s[i] as u32 + 32,
        0 <= i < s.len() && !('a' <= s[i] <= 'z' || 'A' <= s[i] <= 'Z' || '0' <= s[i] <= '9' || s[i]
            == '_' || s[i] == '-') ==> normal_id(s)[i] == '-',
{
    assert(!space(s[0]) && !space(s[s.len() - 1]));
    lemma_trimmed_is_same(s);
    let c = cleaned(s);
    assert(c[0] == s[0]);
    assert(c.last() == s.last());
    assert(dashless_start(c) == c);
    assert(dashless_end(c) == c);
    assert(normal_id(s) == ascii_lower(c));
}

// ---------------------------------------------------------------------------
// What is sent
// ---------------------------------------------------------------------------

/// Bytes are encoded one by one, in order.
pub proof fn law_bytes_are_encoded_in_order(bytes: Seq<u8>, b: u8)
    ensures
        form_encoded(Seq::empty()).len() == 0,
        form_encoded(bytes.push(b)) == form_encoded(bytes) + form_byte(b),
{
    assert(bytes.push(b).drop_last() =~= bytes);
}

/// Letters, digits and `*-._` stay as they are, a space becomes `+`, and any other byte becomes `%`
/// and its two hexadecimal digits.
pub proof fn law_bytes_are_encoded(b: u8)
    ensures
        (0x30 <= b <= 0x39 || 0x41 <= b <= 0x5a || 0x61 <= b <= 0x7a || b == 0x2a || b == 0x2d || b
            == 0x2e || b == 0x5f) ==> form_byte(b).len() == 1 && form_byte(b)[0] as u32 == b,
        b == 0x20 ==> form_byte(b) == seq!['+'],
        !(0x30 <= b <= 0x39 || 0x41 <= b <= 0x5a || 0x61 <= b <= 0x7a || b == 0x2a || b == 0x2d || b
            == 0x2e || b == 0x5f || b == 0x20) ==> form_byte(b).len() == 3 && form_byte(b)[0] == '%'
            && hex_digit(form_byte(b)[1]) * 16 + hex_digit(form_byte(b)[2]) == b,
{
    assert(b / 16 < 16 && b % 16 < 16);
    lemma_hex(b / 16);
    lemma_hex(b % 16);
}

/// The value of a hexadecimal digit.
pub open spec fn hex_digit(c: char) -> int {
    if '0' <= c <= '9' {
        c as int - '0' as int
    } else {
        c as int - 'A' as int + 10
    }
}

proof fn lemma_hex(d: u8)
    requires
        d < 16,
    ensures
        hex_digit(hex_upper(d)) == d,
{
}

/// A name of a header and a method hold no spaces, colons or line breaks, and are not empty; a value
/// of a header holds no line breaks.
pub proof fn law_headers_stay_on_their_lines(s: Seq<char>, i: int)
    requires
        0 <= i < s.len(),
    ensures
        s[i] == ' ' || s[i] == ':' || s[i] == '\n' || s[i] == '\r' || s[i] == '\0' || s[i] as u32
            >= 128 ==> !is_header_name(s) && !is_method(s),
        s[i] == '\n' || s[i] == '\r' || s[i] == '\0' ==> !is_header_value(s),
        !is_header_name(Seq::empty()),
        !is_method(Seq::empty()),
        is_header_value(Seq::empty()),
{
}

/// Letters, digits and dashes may stand in the name of a header and in a method, and every character
/// that is shown in its value.
pub proof fn law_plain_headers_are_taken(s: Seq<char>)
    ensures
        0 < s.len() <= 65535 && (forall|i: int|
            0 <= i < s.len() ==> 'a' <= #[trigger] s[i] <= 'z' || 'A' <= s[i] <= 'Z' || '0' <= s[i]
                <= '9' || s[i] == '-') ==> is_header_name(s) && is_method(s),
        (forall|i: int| 0 <= i < s.len() ==> ' ' <= #[trigger] s[i] <= '~') ==> is_header_value(s),
{
}

/// What is said stands behind what was said before; forgetting takes every message, and saving changes
/// the time alone.
pub proof fn law_conversations_change(c: ConversationView, m: MessageView, now: Timestamp)
    ensures
        with_said(c, m).messages.len() == c.messages.len() + 1,
        with_said(c, m).messages.take(c.messages.len() as int) == c.messages,
        with_said(c, m).messages.last() == m,
        with_said(c, m).id == c.id,
        with_said(c, m).model == c.model,
        with_said(c, m).system_prompt == c.system_prompt,
        cleared(c).messages.len() == 0,
        cleared(c).id == c.id,
        cleared(c).model == c.model,
        cleared(c).system_prompt == c.system_prompt,
        saved(c, now).updated_at == now,
        saved(c, now).created_at == c.created_at,
        saved(c, now).messages == c.messages,
        saved(c, now).id == c.id,
        saved(c, now).model == c.model,
        saved(c, now).system_prompt == c.system_prompt,
{
    assert(with_said(c, m).messages.take(c.messages.len() as int) =~= c.messages);
}

/// A stored response has its own path.
pub proof fn law_responses_have_their_path(id: Seq<char>)
    ensures
        starts(response_way(id), "/v1/responses/"@),
        ends(response_way(id), id),
        response_way(id).len() == "/v1/responses/"@.len() + id.len(),
{
    let way = response_way(id);
    assert(way.take("/v1/responses/"@.len() as int) =~= "/v1/responses/"@);
    assert(way.skip(way.len() - id.len()) =~= id);
}

} // verus!
