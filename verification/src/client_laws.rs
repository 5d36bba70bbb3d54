//! What requests to a model say, and what is read from its answers.

use vstd::prelude::*;

use crate::client::{
    answer_content, auth_header_views, chat_header_views, chat_members, chunk_delta,
    header_complaint, headers_sent, key_value, messages_json, request_messages, request_url,
    response_meaning, stream_after, stream_line_meaning, url_text, ChatRequest, StreamLineView,
};
use crate::conversation::MessageView;
use crate::json::{
    json_parse, json_pretty, member, no_members, opt_json, opt_whole_number, with_member, with_opt,
    with_opt_text, JsonView,
};
use crate::json_laws::{
    held, law_nothing_is_held_by_none, law_optional_member_is_held, law_optional_text_is_held,
    law_set_member_is_held, opt_text,
};
use crate::letter::ascii_lower;
use crate::number::{decimal, parsed_unsigned};
use crate::search::{contains, one, starts};
use crate::text::{blank, opt_view, trimmed};
use crate::wire::{
    is_header_name, is_header_value, status_shown, url_parsed, url_with_query, PairView,
};

verus! {

/// In the body of a request each setting stands under its own key with its own value, whatever the
/// others are: a setting that was not given is not there, and nothing else is.
#[verifier::rlimit(50)]
pub proof fn law_settings_stand_under_their_keys(req: ChatRequest, stream: bool, key: Seq<char>)
    ensures
        held(chat_members(req@, stream), "model"@) == Some(JsonView::Text(req.model@)),
        held(chat_members(req@, stream), "stream"@) == Some(JsonView::Bool(stream)),
        held(chat_members(req@, stream), "temperature"@) == opt_json(req.temperature),
        held(chat_members(req@, stream), "top_p"@) == opt_json(req.top_p),
        held(chat_members(req@, stream), "max_tokens"@) == (match req.max_tokens {
            Some(n) => Some(JsonView::Number(decimal(n as nat))),
            None => None,
        }),
        held(chat_members(req@, stream), "service_tier"@) == opt_text(opt_view(req.service_tier)),
        held(chat_members(req@, stream), "reasoning_effort"@) == opt_text(
            opt_view(req.reasoning_effort),
        ),
        held(chat_members(req@, stream), "billing_mode"@) == opt_text(opt_view(req.billing_mode)),
        key != "model"@ && key != "messages"@ && key != "stream"@ && key != "temperature"@
            && key != "max_tokens"@ && key != "top_p"@ && key != "service_tier"@
            && key != "reasoning_effort"@
            && key != "billing_mode"@ ==> held(chat_members(req@, stream), key) is None,
{
    reveal_strlit("model");
    reveal_strlit("messages");
    reveal_strlit("stream");
    reveal_strlit("temperature");
    reveal_strlit("max_tokens");
    reveal_strlit("top_p");
    reveal_strlit("service_tier");
    reveal_strlit("reasoning_effort");
    reveal_strlit("billing_mode");
    assert("model"@.len() == 5);
    assert("messages"@.len() == 8);
    assert("stream"@.len() == 6);
    assert("temperature"@.len() == 11);
    assert("max_tokens"@.len() == 10);
    assert("top_p"@.len() == 5);
    assert("service_tier"@.len() == 12);
    assert("reasoning_effort"@.len() == 16);
    assert("billing_mode"@.len() == 12);
    assert("model"@[0] != "top_p"@[0]);
    assert("service_tier"@[0] != "billing_mode"@[0]);
    let m0 = no_members();
    let m1 = with_member(m0, "model"@, JsonView::Text(req.model@));
    law_set_member_is_held(m0, "model"@, JsonView::Text(req.model@));
    let m2 = with_member(m1, "messages"@, JsonView::Array(messages_json(request_messages(req@))));
    law_set_member_is_held(m1, "messages"@, JsonView::Array(messages_json(request_messages(req@))));
    let m3 = with_member(m2, "stream"@, JsonView::Bool(stream));
    law_set_member_is_held(m2, "stream"@, JsonView::Bool(stream));
    let m4 = with_opt(m3, "temperature"@, opt_json(req.temperature));
    law_optional_member_is_held(m3, "temperature"@, opt_json(req.temperature));
    let m5 = with_opt(m4, "max_tokens"@, opt_whole_number(req.max_tokens));
    law_optional_member_is_held(m4, "max_tokens"@, opt_whole_number(req.max_tokens));
    let m6 = with_opt(m5, "top_p"@, opt_json(req.top_p));
    law_optional_member_is_held(m5, "top_p"@, opt_json(req.top_p));
    let m7 = with_opt_text(m6, "service_tier"@, opt_view(req.service_tier));
    law_optional_text_is_held(m6, "service_tier"@, opt_view(req.service_tier));
    let m8 = with_opt_text(m7, "reasoning_effort"@, opt_view(req.reasoning_effort));
    law_optional_text_is_held(m7, "reasoning_effort"@, opt_view(req.reasoning_effort));
    let m9 = with_opt_text(m8, "billing_mode"@, opt_view(req.billing_mode));
    law_optional_text_is_held(m8, "billing_mode"@, opt_view(req.billing_mode));
    assert(m9 == chat_members(req@, stream));
    law_nothing_is_held_by_none(key);
    law_nothing_is_held_by_none("temperature"@);
    law_nothing_is_held_by_none("top_p"@);
    law_nothing_is_held_by_none("max_tokens"@);
    law_nothing_is_held_by_none("service_tier"@);
    law_nothing_is_held_by_none("reasoning_effort"@);
    law_nothing_is_held_by_none("billing_mode"@);
}

/// Where the messages that were said begin among those that are sent.
pub open spec fn said_from(req: ChatRequest) -> nat {
    if req.system_prompt is Some {
        1
    } else {
        0
    }
}

/// The body carries every message that was said, in its order, with its role and its text, and before
/// them the system prompt, where there is one; it carries no other.
#[verifier::rlimit(50)]
pub proof fn law_every_message_is_sent(req: ChatRequest, stream: bool, i: int)
    ensures
        held(chat_members(req@, stream), "messages"@) matches Some(JsonView::Array(sent)) && {
            &&& sent.len() == req.messages@.len() + said_from(req)
            &&& 0 <= i < req.messages@.len() ==> {
                let message = sent[i + said_from(req)];
                &&& member(message, "role"@) == Some(JsonView::Text(req.messages@[i].role@))
                &&& member(message, "content"@) == Some(JsonView::Text(req.messages@[i].content@))
            }
            &&& req.system_prompt matches Some(prompt) ==> {
                &&& member(sent[0], "role"@) == Some(JsonView::Text("system"@))
                &&& member(sent[0], "content"@) == Some(JsonView::Text(prompt@))
            }
        },
{
    reveal_strlit("model");
    reveal_strlit("messages");
    reveal_strlit("stream");
    reveal_strlit("temperature");
    reveal_strlit("max_tokens");
    reveal_strlit("top_p");
    reveal_strlit("service_tier");
    reveal_strlit("reasoning_effort");
    reveal_strlit("billing_mode");
    reveal_strlit("role");
    reveal_strlit("content");
    assert("model"@.len() == 5);
    assert("messages"@.len() == 8);
    assert("stream"@.len() == 6);
    assert("temperature"@.len() == 11);
    assert("max_tokens"@.len() == 10);
    assert("top_p"@.len() == 5);
    assert("service_tier"@.len() == 12);
    assert("reasoning_effort"@.len() == 16);
    assert("billing_mode"@.len() == 12);
    assert("role"@.len() == 4);
    assert("content"@.len() == 7);
    assert("model"@[0] != "top_p"@[0]);
    assert("service_tier"@[0] != "billing_mode"@[0]);
    let m0 = no_members();
    let m1 = with_member(m0, "model"@, JsonView::Text(req.model@));
    law_set_member_is_held(m0, "model"@, JsonView::Text(req.model@));
    let m2 = with_member(m1, "messages"@, JsonView::Array(messages_json(request_messages(req@))));
    law_set_member_is_held(m1, "messages"@, JsonView::Array(messages_json(request_messages(req@))));
    let m3 = with_member(m2, "stream"@, JsonView::Bool(stream));
    law_set_member_is_held(m2, "stream"@, JsonView::Bool(stream));
    let m4 = with_opt(m3, "temperature"@, opt_json(req.temperature));
    law_optional_member_is_held(m3, "temperature"@, opt_json(req.temperature));
    let m5 = with_opt(m4, "max_tokens"@, opt_whole_number(req.max_tokens));
    law_optional_member_is_held(m4, "max_tokens"@, opt_whole_number(req.max_tokens));
    let m6 = with_opt(m5, "top_p"@, opt_json(req.top_p));
    law_optional_member_is_held(m5, "top_p"@, opt_json(req.top_p));
    let m7 = with_opt_text(m6, "service_tier"@, opt_view(req.service_tier));
    law_optional_text_is_held(m6, "service_tier"@, opt_view(req.service_tier));
    let m8 = with_opt_text(m7, "reasoning_effort"@, opt_view(req.reasoning_effort));
    law_optional_text_is_held(m7, "reasoning_effort"@, opt_view(req.reasoning_effort));
    let m9 = with_opt_text(m8, "billing_mode"@, opt_view(req.billing_mode));
    law_optional_text_is_held(m8, "billing_mode"@, opt_view(req.billing_mode));
    assert(m9 == chat_members(req@, stream));
    let sent = messages_json(request_messages(req@));
    assert(held(chat_members(req@, stream), "messages"@) == Some(JsonView::Array(sent)));
    assert(sent.len() == req.messages@.len() + said_from(req));
    if 0 <= i < req.messages@.len() {
        lemma_message_holds(request_messages(req@)[i + said_from(req) as int]);
        assert(request_messages(req@)[i + said_from(req) as int] == req.messages@[i]@);
    }
    if let Some(prompt) = req.system_prompt {
        lemma_message_holds(request_messages(req@)[0]);
    }
}

proof fn lemma_message_holds(message: MessageView)
    ensures
        member(crate::client::message_json(message), "role"@) == Some(JsonView::Text(message.role)),
        member(crate::client::message_json(message), "content"@) == Some(
            JsonView::Text(message.content),
        ),
{
    reveal_strlit("role");
    reveal_strlit("content");
    assert("role"@.len() != "content"@.len());
    let m1 = with_member(no_members(), "role"@, JsonView::Text(message.role));
    law_set_member_is_held(no_members(), "role"@, JsonView::Text(message.role));
    law_set_member_is_held(m1, "content"@, JsonView::Text(message.content));
    let m2 = with_member(m1, "content"@, JsonView::Text(message.content));
    assert(held(m2, "role"@) == Some(JsonView::Text(message.role)));
    assert(held(m2, "content"@) == Some(JsonView::Text(message.content)));
}

/// A request names the provider and the billing mode that were asked for, each in its own header, and
/// asks for a stream exactly where it wants one; it has no other header of its own.
pub proof fn law_request_headers_say_what_was_asked(req: ChatRequest, stream: bool, pair: PairView)
    ensures
        chat_header_views(req@, stream).contains(pair) <==> {
            ||| stream && pair == ("accept"@, "text/event-stream"@)
            ||| req.provider is Some && pair == ("X-Provider"@, req.provider.unwrap()@)
            ||| req.billing_mode is Some && pair == (
                "X-Billing-Mode"@,
                req.billing_mode.unwrap()@,
            )
        },
{
    let all = chat_header_views(req@, stream);
    let first = if stream {
        1int
    } else {
        0int
    };
    let second = first + if req.provider is Some {
        1int
    } else {
        0int
    };
    if stream {
        assert(all[0] == ("accept"@, "text/event-stream"@));
    }
    if let Some(provider) = req.provider {
        assert(all[first] == ("X-Provider"@, provider@));
    }
    if let Some(mode) = req.billing_mode {
        assert(all[second] == ("X-Billing-Mode"@, mode@));
    }
}

/// Who asks is told twice, as the bare key and as a bearer's; without a key nobody is told.
pub proof fn law_key_is_sent(key: Seq<char>, pair: PairView)
    ensures
        auth_header_views(Some(key)).contains(pair) <==> pair == ("x-api-key"@, key) || pair == (
            "authorization"@,
            "Bearer "@ + key,
        ),
        auth_header_views(None).len() == 0,
{
    let all = auth_header_views(Some(key));
    assert(all[0] == ("x-api-key"@, key));
    assert(all[1] == ("authorization"@, "Bearer "@ + key));
}

/// Whether no later header has the name of header `i`, in whatever case.
pub open spec fn is_last_named(headers: Seq<PairView>, i: int) -> bool {
    0 <= i < headers.len() && forall|j: int|
        i < j < headers.len() ==> ascii_lower((#[trigger] headers[j]).0) != ascii_lower(headers[i].0)
}

/// Of the headers with one name, in whatever case, the last is sent.
pub proof fn law_last_header_is_sent(headers: Seq<PairView>, i: int)
    requires
        is_last_named(headers, i),
    ensures
        headers_sent(headers).contains_key(ascii_lower(headers[i].0)),
        headers_sent(headers)[ascii_lower(headers[i].0)] == headers[i].1,
    decreases headers.len(),
{
    let front = headers.drop_last();
    let last = headers.len() - 1;
    if i < last {
        assert(ascii_lower(headers[last].0) != ascii_lower(headers[i].0));
        assert(front[i] == headers[i]);
        assert forall|j: int| i < j < front.len() implies ascii_lower((#[trigger] front[j]).0)
            != ascii_lower(front[i].0) by {
            assert(front[j] == headers[j]);
        }
        law_last_header_is_sent(front, i);
    }
}

/// Only headers that were given are sent.
pub proof fn law_only_given_headers_are_sent(headers: Seq<PairView>, name: Seq<char>)
    requires
        headers_sent(headers).contains_key(name),
    ensures
        exists|i: int| 0 <= i < headers.len() && ascii_lower((#[trigger] headers[i]).0) == name,
    decreases headers.len(),
{
    if headers.len() > 0 {
        let front = headers.drop_last();
        let last = headers.len() - 1;
        if name == ascii_lower(headers[last].0) {
            assert(ascii_lower(headers[last].0) == name);
        } else {
            law_only_given_headers_are_sent(front, name);
            let i = choose|i: int|
                0 <= i < front.len() && ascii_lower((#[trigger] front[i]).0) == name;
            assert(headers[i] == front[i]);
        }
    }
}

/// Headers are refused exactly where one of them has a name or a value that cannot be sent.
pub proof fn law_bad_headers_are_refused(headers: Seq<PairView>)
    ensures
        header_complaint(headers) is None <==> forall|i: int|
            0 <= i < headers.len() ==> is_header_name((#[trigger] headers[i]).0) && is_header_value(
                headers[i].1,
            ),
    decreases headers.len(),
{
    if headers.len() > 0 {
        let front = headers.drop_last();
        let last = headers.len() - 1;
        law_bad_headers_are_refused(front);
        if header_complaint(headers) is None {
            assert forall|i: int| 0 <= i < headers.len() implies is_header_name(
                (#[trigger] headers[i]).0,
            ) && is_header_value(headers[i].1) by {
                if i < last {
                    assert(front[i] == headers[i]);
                }
            }
        }
        if forall|i: int|
            0 <= i < headers.len() ==> is_header_name((#[trigger] headers[i]).0) && is_header_value(
                headers[i].1,
            ) {
            assert forall|i: int| 0 <= i < front.len() implies is_header_name(
                (#[trigger] front[i]).0,
            ) && is_header_value(front[i].1) by {
                assert(front[i] == headers[i]);
            }
            assert(headers[last] == headers.last());
        }
    }
}

/// A path that is a whole URL is asked for as it is; another one stands behind the base, with a slash
/// between them.
pub proof fn law_path_stands_behind_the_base(base: Seq<char>, path: Seq<char>)
    ensures
        starts(path, "http://"@) || starts(path, "https://"@) ==> url_text(base, path) == path,
        !starts(path, "http://"@) && !starts(path, "https://"@) && (base.len() == 0 || base.last()
            != '/') && (path.len() == 0 || path[0] != '/') ==> url_text(base, path) == base + "/"@
            + path,
{
}

/// A URL that can be read is asked for with the query behind it, where there is one; one that cannot
/// be read is refused.
pub proof fn law_query_goes_with_the_url(base: Seq<char>, path: Seq<char>, query: Seq<PairView>)
    ensures
        request_url(base, path, query) is Ok <==> url_parsed(url_text(base, path)) is Some,
        url_parsed(url_text(base, path)) matches Some(url) ==> (if query.len() == 0 {
            request_url(base, path, query) == Ok::<Seq<char>, Seq<char>>(url)
        } else {
            request_url(base, path, query) == Ok::<Seq<char>, Seq<char>>(url_with_query(url, query))
        }),
{
}

/// Only an answer with a status from 200 to 299 is taken: its JSON value, where it has any text. Any
/// other is told with its status and with what it says.
pub proof fn law_only_success_is_taken(status: u16, text: Seq<char>)
    ensures
        200 <= status <= 299 && !blank(text) && json_parse(text) is Some ==> response_meaning(
            status,
            text,
        ) == Ok::<JsonView, Seq<char>>(json_parse(text).unwrap()),
        200 <= status <= 299 && blank(text) ==> (response_meaning(status, text) matches Ok(
            JsonView::Object(members),
        ) && members.len() == 0),
        200 <= status <= 299 && !blank(text) && json_parse(text) is None ==> response_meaning(
            status,
            text,
        ) is Err,
        !(200 <= status <= 299) ==> (response_meaning(status, text) matches Err(message) && starts(
            message,
            "request failed ("@ + status_shown(status) + "): "@,
        ) && (json_parse(text) is None ==> message == "request failed ("@ + status_shown(status)
            + "): "@ + text) && (json_parse(text) matches Some(value) ==> message
            == "request failed ("@ + status_shown(status) + "): "@ + json_pretty(value))),
{
    if !(200 <= status <= 299) {
        let front = "request failed ("@ + status_shown(status) + "): "@;
        if let Err(message) = response_meaning(status, text) {
            assert(message.take(front.len() as int) =~= front);
        }
    }
}

/// The answer of a model is the text of the message in its first choice.
pub proof fn law_answer_is_the_first_choice(
    value: JsonView,
    choices: Seq<JsonView>,
    message: JsonView,
    content: Seq<char>,
)
    requires
        member(value, "choices"@) == Some(JsonView::Array(choices)),
        choices.len() > 0,
        member(choices[0], "message"@) == Some(message),
    ensures
        member(message, "content"@) == Some(JsonView::Text(content)) ==> answer_content(value)
            == content,
        !(member(message, "content"@) matches Some(JsonView::Text(_))) ==> answer_content(value).len()
            == 0,
{
}

/// An answer without choices says nothing.
pub proof fn law_no_choice_says_nothing(value: JsonView)
    requires
        member(value, "choices"@) is None || member(value, "choices"@) == Some(
            JsonView::Array(Seq::empty()),
        ),
    ensures
        answer_content(value).len() == 0,
        chunk_delta(value) is None,
{
}

/// The piece in a chunk of a stream is the text of the delta in its first choice.
pub proof fn law_piece_is_the_first_choice(
    chunk: JsonView,
    choices: Seq<JsonView>,
    delta: JsonView,
    content: Seq<char>,
)
    requires
        member(chunk, "choices"@) == Some(JsonView::Array(choices)),
        choices.len() > 0,
        member(choices[0], "delta"@) == Some(delta),
    ensures
        member(delta, "content"@) == Some(JsonView::Text(content)) ==> chunk_delta(chunk) == Some(
            content,
        ),
        !(member(delta, "content"@) matches Some(JsonView::Text(_))) ==> chunk_delta(chunk) is None,
{
}

/// A line of a stream says something only behind `data: `: the end of the answer, or the piece in the
/// chunk that stands there.
pub proof fn law_stream_lines_carry_data(data: Seq<char>, line: Seq<char>)
    ensures
        stream_line_meaning("data: [DONE]"@) is Done,
        data != "[DONE]"@ ==> (match json_parse(data) {
            Some(chunk) => match chunk_delta(chunk) {
                Some(piece) => stream_line_meaning("data: "@ + data) == StreamLineView::Delta(piece),
                None => stream_line_meaning("data: "@ + data) is Skip,
            },
            None => stream_line_meaning("data: "@ + data) is Skip,
        }),
        !starts(line, "data: "@) ==> stream_line_meaning(line) is Skip,
{
    reveal_strlit("data: [DONE]");
    reveal_strlit("data: ");
    reveal_strlit("[DONE]");
    let whole = "data: "@ + data;
    assert(whole.take(6) =~= "data: "@);
    assert(whole.skip(6) =~= data);
    let end = "data: [DONE]"@;
    assert(end.take(6) =~= "data: "@);
    assert(end.skip(6) =~= "[DONE]"@);
}

/// A streamed answer grows by the piece of each line, and not at all once it has ended.
pub proof fn law_stream_grows_by_pieces(lines: Seq<Seq<char>>, line: Seq<char>)
    ensures
        stream_after(Seq::empty()).0.len() == 0,
        !stream_after(Seq::empty()).1,
        stream_after(lines).1 ==> stream_after(lines.push(line)) == stream_after(lines),
        !stream_after(lines).1 ==> (match stream_line_meaning(line) {
            StreamLineView::Done => stream_after(lines.push(line)) == (stream_after(lines).0, true),
            StreamLineView::Delta(piece) => stream_after(lines.push(line)) == (
                stream_after(lines).0 + piece,
                false,
            ),
            StreamLineView::Skip => stream_after(lines.push(line)) == stream_after(lines),
        }),
{
    assert(lines.push(line).drop_last() =~= lines);
    assert(lines.push(line).last() == line);
}

/// A text without the delimiter is no pair, and neither is one with nothing but spaces before it; in
/// every other text the first delimiter parts the name from the value.
pub proof fn law_pairs_need_a_name(text: Seq<char>, key: Seq<char>, value: Seq<char>, delimiter: char)
    ensures
        !text.contains(delimiter) ==> key_value(text, delimiter) is None,
        !key.contains(delimiter) ==> (if blank(key) {
            key_value(key + one(delimiter) + value, delimiter) is None
        } else {
            key_value(key + one(delimiter) + value, delimiter) == Some((trimmed(key), trimmed(value)))
        }),
{
    let pat = one(delimiter);
    if !text.contains(delimiter) {
        assert forall|j: int| !crate::search::occurs_at(text, pat, j) by {
            if crate::search::occurs_at(text, pat, j) {
                assert(text.subrange(j, j + 1)[0] == text[j]);
                assert(pat[0] == delimiter);
            }
        }
        crate::search::lemma_find_none(text, pat);
    }
    if !key.contains(delimiter) {
        let s = key + pat + value;
        let k = key.len() as int;
        assert(s.subrange(k, k + 1) =~= pat);
        assert forall|j: int| 0 <= j < k implies !crate::search::occurs_at(s, pat, j) by {
            if crate::search::occurs_at(s, pat, j) {
                assert(s.subrange(j, j + 1)[0] == key[j]);
                assert(pat[0] == delimiter);
            }
        }
        crate::search::lemma_find_at(s, pat, k);
        assert(s.take(k) =~= key);
        assert(s.skip(k + 1) =~= value);
    }
}

/// The whole number under `max_tokens` reads back as the one that was asked for.
pub proof fn law_limit_reads_back(req: ChatRequest, stream: bool)
    ensures
        match req.max_tokens {
            Some(n) => held(chat_members(req@, stream), "max_tokens"@) matches Some(
                JsonView::Number(text),
            ) && parsed_unsigned(text, u32::MAX as nat) == Some(n as nat),
            None => held(chat_members(req@, stream), "max_tokens"@) is None,
        },
{
    law_settings_stand_under_their_keys(req, stream, "max_tokens"@);
    if let Some(n) = req.max_tokens {
        crate::number::law_decimal_reads_back(n as nat, u32::MAX as nat);
    }
}

} // verus!
