//! What is begun with, what is asked for, and how a request is put together.

use vstd::prelude::*;

use crate::cli::{is_what_to_do, key_to_use, ApiArgs, Command, ModelsArgs, ResponsesCreateArgs};
use crate::client::{
    auth_header_views, header_complaint, headers_sent, preparing, request_url, stream_piece,
    stream_step, StreamLineView,
};
use crate::commands::{
    api_body, api_complaint, input_meant, models_ask, plain_body, providers_path, scope_path,
    ApiBodyView, InputView,
};
use crate::conversation::{is_name_for, is_place_of, is_taken_up, way_to_file, Conversation};
use crate::home::{way_to, Place};
use crate::ident::{fresh_id, normal_id, settled_id, uuid_text};
use crate::json::{
    array_of, bool_of, element, lemma_json_views, lemma_member_views, member, number_of,
    pointer_zero, text_of, then_member, Json, JsonView, Member, Members,
};
use crate::model_mode::{normal_key, without_colons, without_leading};
use crate::search::starts;
use crate::text::opt_view;
use crate::wire::PairView;

verus! {

/// The key that is given goes before the one that is stored.
pub proof fn law_given_key_goes_first(given: Seq<char>, stored: Option<Seq<char>>)
    ensures
        key_to_use(Some(given), stored) == Some(given),
        key_to_use(None, stored) == stored,
{
}

/// What is asked for is done; where nothing is, it is the full-screen chat, with the stored model
/// where there is one and without any other setting.
pub proof fn law_what_is_asked_for_is_done(
    command: Command,
    asked: Command,
    model: Option<Seq<char>>,
)
    ensures
        is_what_to_do(command, Some(asked), model) ==> command == asked,
        is_what_to_do(command, None, model) ==> (command matches Command::Tui(args) && {
            &&& model matches Some(name) ==> args.model@ == name
            &&& args.system is None
            &&& args.conversation is None
            &&& args.provider is None
            &&& !args.web
            &&& !args.deep_web
            &&& args.temperature is None
            &&& args.max_tokens is None
            &&& args.top_p is None
            &&& args.workspace is None
            &&& args.service_tier is None
            &&& args.reasoning_effort is None
            &&& args.billing_mode is None
        }),
{
}

/// A conversation that is stored is taken up as it is; else a new one is begun under the name, with
/// the model and the system prompt that were asked for.
pub proof fn law_stored_conversation_is_taken_up(
    c: Conversation,
    stored: Conversation,
    id: Seq<char>,
    model: Seq<char>,
    prompt: Option<Seq<char>>,
)
    ensures
        is_taken_up(c, Some(stored), id, model, prompt) ==> c == stored,
        is_taken_up(c, None, id, model, prompt) ==> {
            &&& c.id@ == id
            &&& c.model@ == model
            &&& opt_view(c.system_prompt) == prompt
            &&& c.messages@.len() == 0
            &&& c.updated_at == c.created_at
        },
{
    if is_taken_up(c, None, id, model, prompt) {
        assert(c@.messages.len() == 0);
    }
}

/// A name that was asked for is the one that is used, where anything of it can be; else it is fresh.
pub proof fn law_asked_name_is_used(id: Seq<char>, raw: Seq<char>)
    ensures
        normal_id(raw).len() > 0 && is_name_for(id, Some(raw)) ==> id == normal_id(raw),
        normal_id(raw).len() == 0 && is_name_for(id, Some(raw)) ==> fresh_id(id),
        is_name_for(id, None) ==> fresh_id(id),
        settled_id(raw) && is_name_for(id, Some(raw)) ==> id == raw,
{
}

/// The models of a catalog are asked for, with all that is known of them where that is wanted; or the
/// providers of a model.
pub proof fn law_models_are_asked_for(args: ModelsArgs)
    ensures
        args.show_providers_for matches Some(model) ==> models_ask(args).0 == providers_path(model@)
            && models_ask(args).1.len() == 0,
        args.show_providers_for is None ==> models_ask(args).0 == scope_path(args.scope),
        args.show_providers_for is None && args.detailed ==> models_ask(args).1 == seq![
            ("detailed"@, "true"@),
        ],
        !args.detailed ==> models_ask(args).1.len() == 0,
{
}

/// The input of a response is what was given, or else what a file holds; without either there is a
/// complaint.
pub proof fn law_input_is_given_or_read(args: ResponsesCreateArgs)
    ensures
        args.input matches Some(text) ==> input_meant(args) == Ok::<InputView, Seq<char>>(
            InputView::Given(text@),
        ),
        args.input is None && args.input_file is Some ==> input_meant(args) == Ok::<
            InputView,
            Seq<char>,
        >(InputView::File(args.input_file.unwrap()@)),
        args.input is None && args.input_file is None ==> input_meant(args) is Err,
{
}

/// A request has failed exactly where its status is 400 or above.
pub proof fn law_failures_are_told(status: u16)
    ensures
        api_complaint(status) is Some <==> status >= 400,
{
}

/// A body is a form where fields or files are given, with all of them; else it is the JSON that is
/// given or a file, but not both.
pub proof fn law_body_is_chosen(
    args: ApiArgs,
    fields: Seq<PairView>,
    files: Seq<PairView>,
    text: Seq<char>,
    path: Seq<char>,
    value: JsonView,
)
    ensures
        fields.len() > 0 || files.len() > 0 ==> api_body(args, fields, files) == Ok::<
            ApiBodyView,
            Seq<char>,
        >(ApiBodyView::Form { fields, files }),
        plain_body(Some(text), Some(value), Some(path)) is Err,
        plain_body(Some(text), Some(value), None) == Ok::<ApiBodyView, Seq<char>>(
            ApiBodyView::Value(value),
        ),
        plain_body(Some(text), None, None) is Err,
        plain_body(None, None, Some(path)) == Ok::<ApiBodyView, Seq<char>>(ApiBodyView::File(path)),
        plain_body(None, None, None) == Ok::<ApiBodyView, Seq<char>>(ApiBodyView::Empty),
        fields.len() == 0 && files.len() == 0 && args.json is None && args.body_file is None
            ==> api_body(args, fields, files) == Ok::<ApiBodyView, Seq<char>>(ApiBodyView::Empty),
{
}

/// A request goes to the URL that its path and its query make, with the key of the client and the
/// headers that were given; what is wrong with either is told.
pub proof fn law_request_is_prepared(
    base: Seq<char>,
    key: Option<Seq<char>>,
    path: Seq<char>,
    query: Seq<PairView>,
    headers: Seq<PairView>,
    url: Seq<char>,
)
    ensures
        preparing(base, key, path, query, headers) is Ok <==> request_url(base, path, query) is Ok
            && header_complaint(headers) is None,
        preparing(base, key, path, query, headers) matches Ok(p) ==> {
            &&& request_url(base, path, query) == Ok::<Seq<char>, Seq<char>>(p.url)
            &&& p.auth == auth_header_views(key)
            &&& p.headers == headers_sent(headers)
        },
{
}

/// A piece of a streamed answer is given out where it is added, and nothing else is.
pub proof fn law_pieces_are_given_out(content: Seq<char>, done: bool, event: StreamLineView)
    ensures
        stream_piece(done, event) matches Some(piece) ==> stream_step((content, done), event).0
            == content + piece,
        stream_piece(done, event) is None ==> stream_step((content, done), event).0 == content,
        done ==> stream_piece(done, event) is None,
        !done ==> (event matches StreamLineView::Delta(delta) ==> stream_piece(done, event) == Some(
            delta,
        )),
{
}

/// A value is read only as what it is.
pub proof fn law_values_are_read_as_they_are(
    text: Seq<char>,
    yes: bool,
    items: Seq<JsonView>,
    members: Members,
    i: nat,
)
    ensures
        text_of(Some(JsonView::Text(text))) == Some(text),
        text_of(Some(JsonView::Number(text))) is None,
        text_of(None) is None,
        bool_of(Some(JsonView::Bool(yes))) == Some(yes),
        bool_of(Some(JsonView::Text(text))) is None,
        number_of(Some(JsonView::Number(text))) == Some(text),
        number_of(Some(JsonView::Text(text))) is None,
        array_of(Some(JsonView::Array(items))) == Some(items),
        array_of(Some(JsonView::Object(members))) is None,
        i < items.len() ==> element(JsonView::Array(items), i) == Some(items[i as int]),
        i >= items.len() ==> element(JsonView::Array(items), i) is None,
        items.len() > 0 ==> pointer_zero(Some(JsonView::Array(items))) == Some(items[0]),
        items.len() == 0 ==> pointer_zero(Some(JsonView::Array(items))) is None,
        pointer_zero(None) is None,
        member(JsonView::Text(text), text) is None,
        then_member(None, text) is None,
{
}

/// The key of a preset may be written with underscores, slashes and spaces for its dashes, and behind
/// `:` and `online/`.
pub proof fn law_keys_are_made_plain(s: Seq<char>, i: int)
    requires
        s.len() > 0,
        s[0] != ':',
        !starts(s, "online/"@),
    ensures
        normal_key(s).len() == s.len(),
        0 <= i < s.len() && (s[i] == '_' || s[i] == '/' || s[i] == ' ') ==> normal_key(s)[i] == '-',
        0 <= i < s.len() && s[i] != '_' && s[i] != '/' && s[i] != ' ' ==> normal_key(s)[i] == s[i],
        normal_key(seq![':'] + s) == normal_key(s),
        normal_key("online/"@ + s) == normal_key(s),
{
    reveal_strlit("online/");
    assert(without_colons(s) == s);
    assert(without_leading(s, "online/"@) == s);
    assert((seq![':'] + s)[0] == ':');
    assert((seq![':'] + s).drop_first() =~= s);
    assert(without_colons(seq![':'] + s) == s);
    let t = "online/"@ + s;
    assert(t[0] == 'o');
    assert(without_colons(t) == t);
    assert(t.take(7) =~= "online/"@);
    assert(t.skip(7) =~= s);
    assert(without_leading(t, "online/"@) == s);
}

/// The first of a value is its first element, or its member of that name.
pub proof fn law_first_is_read(members: Members)
    ensures
        pointer_zero(Some(JsonView::Object(members))) == member(JsonView::Object(members), "0"@),
{
}

/// A value is seen as it is, with each of its elements and members in its place.
pub proof fn law_values_are_seen_as_they_are(
    text: String,
    items: Vec<Json>,
    members: Vec<Member>,
    i: int,
)
    ensures
        Json::Text(text)@ == JsonView::Text(text@),
        Json::Array(items)@ matches JsonView::Array(seen) && seen.len() == items@.len() && (0 <= i
            < items@.len() ==> seen[i] == items@[i]@),
        Json::Object(members)@ matches JsonView::Object(seen) && seen.len() == members@.len() && (0
            <= i < members@.len() ==> seen[i].0 == members@[i].key@ && seen[i].1 == members@[i].value@),
{
    lemma_json_views(items@);
    lemma_member_views(members@);
}

/// A conversation is stored under its name in the directory of the library below the home directory,
/// and where there is none in the current one.
pub proof fn law_conversations_have_their_place(place: Place, id: Seq<char>)
    requires
        is_place_of(place, id),
        normal_id(id).len() > 0,
    ensures
        place.root is Home ==> way_to(place) == seq![
            ".nanogpt-cli"@,
            "conversations"@,
            normal_id(id) + ".json"@,
        ],
        place.root is Here ==> way_to(place) == seq![normal_id(id) + ".json"@],
{
    let name = normal_id(id) + ".json"@;
    assert(way_to_file(name) =~= seq![".nanogpt-cli"@, "conversations"@, name]);
}

/// A fresh name is `chat-` and a random identifier; without a stored model the chat begins with its
/// own.
pub proof fn law_fresh_names_and_models(id: Seq<char>, command: Command)
    ensures
        fresh_id(id) ==> starts(id, "chat-"@) && id.len() == 41,
        is_what_to_do(command, None, None) ==> (command matches Command::Tui(args) && args.model@
            == "openai/gpt-5.2"@),
{
    reveal_strlit("chat-");
    if fresh_id(id) {
        let u = choose|u: Seq<char>| #[trigger] uuid_text(u) && id == "chat-"@ + u;
        assert(("chat-"@ + u).take(5) =~= "chat-"@);
    }
}

} // verus!
