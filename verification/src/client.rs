//! Requests to the API and what their answers say.

use vstd::prelude::*;

use crate::conversation::{message_views, ConversationMessage, MessageView};
use crate::json::{
    get_in, json_parse, json_pretty, json_view, json_views, member_views, no_members, opt_json,
    opt_whole_number, parse_json, pointer_zero, pretty_json, set_member, set_opt, set_opt_number,
    set_opt_text, set_text, text_in, text_of, then_member, with_member, with_opt, with_opt_text,
    zero_in, Json, JsonView, Member, Members,
};
use crate::letter::ascii_lower;
use crate::search::{one, split_at_first, split_once, starts, starts_with, strip_prefix};
use crate::text::{blank, cat2, cat3, cat4, is_blank, opt_or_empty, opt_view, same, trim, trimmed};
use crate::wire::{
    extend_query, header_name, header_value_is_valid, headers_held, insert_header, is_header_name,
    is_header_value, no_entries, no_headers, pair_views, parse_url, show_status, status_shown,
    url_parsed, url_with_query, Pair, PairView,
};

verus! {

/// Where the API is and who asks.
#[derive(Debug, Clone)]
pub struct ClientConfig {
    pub base_url: String,
    pub api_key: Option<String>,
    /// How long a request may take.
    pub timeout_secs: u64,
}

/// What to ask a model. A fractional number stands as the JSON value that is sent for it.
pub struct ChatRequest {
    pub model: String,
    pub system_prompt: Option<String>,
    pub messages: Vec<ConversationMessage>,
    pub temperature: Option<Json>,
    pub max_tokens: Option<u32>,
    pub top_p: Option<Json>,
    pub service_tier: Option<String>,
    pub reasoning_effort: Option<String>,
    pub billing_mode: Option<String>,
    pub provider: Option<String>,
}

/// The view of a [`ChatRequest`].
pub struct ChatRequestView {
    pub model: Seq<char>,
    pub system_prompt: Option<Seq<char>>,
    pub messages: Seq<MessageView>,
    pub temperature: Option<JsonView>,
    pub max_tokens: Option<u32>,
    pub top_p: Option<JsonView>,
    pub service_tier: Option<Seq<char>>,
    pub reasoning_effort: Option<Seq<char>>,
    pub billing_mode: Option<Seq<char>>,
    pub provider: Option<Seq<char>>,
}

impl View for ChatRequest {
    type V = ChatRequestView;

    open spec fn view(&self) -> ChatRequestView {
        ChatRequestView {
            model: self.model@,
            system_prompt: opt_view(self.system_prompt),
            messages: message_views(self.messages@),
            temperature: opt_json(self.temperature),
            max_tokens: self.max_tokens,
            top_p: opt_json(self.top_p),
            service_tier: opt_view(self.service_tier),
            reasoning_effort: opt_view(self.reasoning_effort),
            billing_mode: opt_view(self.billing_mode),
            provider: opt_view(self.provider),
        }
    }
}

/// What a model answers.
#[derive(Debug, Clone)]
pub struct ChatResult {
    pub content: String,
}

/// A message as JSON.
pub open spec fn message_json(message: MessageView) -> JsonView {
    JsonView::Object(
        with_member(
            with_member(no_members(), "role"@, JsonView::Text(message.role)),
            "content"@,
            JsonView::Text(message.content),
        ),
    )
}

/// The message that carries a system prompt.
pub open spec fn system_says(content: Seq<char>) -> MessageView {
    MessageView { role: "system"@, content }
}

/// Messages as JSON.
pub open spec fn messages_json(messages: Seq<MessageView>) -> Seq<JsonView> {
    Seq::new(messages.len(), |i: int| message_json(messages[i]))
}

/// The messages of a request: the system prompt first, where there is one, then the others in
/// their order.
pub open spec fn request_messages(req: ChatRequestView) -> Seq<MessageView> {
    match req.system_prompt {
        Some(prompt) => seq![system_says(prompt)] + req.messages,
        None => req.messages,
    }
}

/// The members of a request's body.
pub open spec fn chat_members(req: ChatRequestView, stream: bool) -> Members {
    let m = with_member(no_members(), "model"@, JsonView::Text(req.model));
    let m = with_member(m, "messages"@, JsonView::Array(messages_json(request_messages(req))));
    let m = with_member(m, "stream"@, JsonView::Bool(stream));
    let m = with_opt(m, "temperature"@, req.temperature);
    let m = with_opt(m, "max_tokens"@, opt_whole_number(req.max_tokens));
    let m = with_opt(m, "top_p"@, req.top_p);
    let m = with_opt_text(m, "service_tier"@, req.service_tier);
    let m = with_opt_text(m, "reasoning_effort"@, req.reasoning_effort);
    with_opt_text(m, "billing_mode"@, req.billing_mode)
}

fn write_message(role: &str, content: &str) -> (r: Json)
    ensures
        r@ == message_json(MessageView { role: role@, content: content@ }),
{
    let mut members: Vec<Member> = Vec::new();
    assert(member_views(members@) =~= no_members());
    set_text(&mut members, "role", role);
    set_text(&mut members, "content", content);
    Json::Object(members)
}

/// The body of a request to a model.
pub fn build_chat_request_body(req: &ChatRequest, stream: bool) -> (r: Json)
    ensures
        r@ == JsonView::Object(chat_members(req@, stream)),
{
    let mut messages: Vec<Json> = Vec::new();
    let ghost mut said: Seq<MessageView> = Seq::empty();
    assert(json_views(messages@) =~= messages_json(said));
    if let Some(system) = &req.system_prompt {
        let ghost before = messages@;
        messages.push(write_message("system", system.as_str()));
        proof {
            said = seq![system_says(system@)];
            assert(messages@.drop_last() =~= before);
            assert(json_views(messages@) =~= messages_json(said));
        }
    }
    let ghost start = said;
    let ghost all = message_views(req.messages@);
    let mut i: usize = 0;
    assert(start + all.take(0) =~= start);
    while i < req.messages.len()
        invariant
            i <= req.messages@.len(),
            all == message_views(req.messages@),
            json_views(messages@) == messages_json(start + all.take(i as int)),
        decreases req.messages@.len() - i,
    {
        let ghost before = messages@;
        messages.push(
            write_message(req.messages[i].role.as_str(), req.messages[i].content.as_str()),
        );
        proof {
            assert(messages@.drop_last() =~= before);
            assert(json_view(messages@[messages@.len() - 1]) == message_json(all[i as int]));
            assert(messages_json(start + all.take(i + 1)) =~= messages_json(
                start + all.take(i as int),
            ).push(message_json(all[i as int])));
        }
        i += 1;
    }
    proof {
        assert(all.take(i as int) =~= all);
        assert(start + all =~= request_messages(req@));
    }
    let mut members: Vec<Member> = Vec::new();
    assert(member_views(members@) =~= no_members());
    set_text(&mut members, "model", req.model.as_str());
    set_member(&mut members, "messages", Json::Array(messages));
    set_member(&mut members, "stream", Json::Bool(stream));
    set_opt(&mut members, "temperature", &req.temperature);
    set_opt_number(&mut members, "max_tokens", &req.max_tokens);
    set_opt(&mut members, "top_p", &req.top_p);
    set_opt_text(&mut members, "service_tier", &req.service_tier);
    set_opt_text(&mut members, "reasoning_effort", &req.reasoning_effort);
    set_opt_text(&mut members, "billing_mode", &req.billing_mode);
    Json::Object(members)
}

/// A text split at the first `delimiter`, each part without the spaces around it; nothing where
/// there is no delimiter or nothing before it.
pub open spec fn key_value(pair: Seq<char>, delimiter: char) -> Option<PairView> {
    match split_at_first(pair, one(delimiter)) {
        Some((key, value)) => if trimmed(key).len() > 0 {
            Some((trimmed(key), trimmed(value)))
        } else {
            None
        },
        None => None,
    }
}

/// Splits a text into a name and a value at the first `delimiter`.
pub fn parse_key_value(pair: &str, delimiter: char) -> (r: Result<Pair, String>)
    ensures
        match key_value(pair@, delimiter) {
            Some(view) => r matches Ok(p) && p@ == view,
            None => r matches Err(e) && e@ == "invalid pair: "@ + pair@,
        },
{
    let mut mark: String = String::new();
    mark.push(delimiter);
    assert(mark@ =~= one(delimiter));
    match split_once(pair, mark.as_str()) {
        Some((key, value)) => {
            let key: &str = trim(key);
            if same(key, "") {
                proof {
                    reveal_strlit("");
                }
                Err(cat2("invalid pair: ", pair))
            } else {
                assert(key@.len() > 0) by {
                    reveal_strlit("");
                    if key@.len() == 0 {
                        assert(key@ =~= ""@);
                    }
                }
                Ok(Pair { key: key.to_owned(), value: trim(value).to_owned() })
            }
        },
        None => Err(cat2("invalid pair: ", pair)),
    }
}

/// Whether an answer of this status says that the request was met.
pub open spec fn succeeded(status: u16) -> bool {
    200 <= status < 300
}

/// What an answer means: its JSON value, or why there is none.
pub open spec fn response_meaning(status: u16, text: Seq<char>) -> Result<JsonView, Seq<char>> {
    if succeeded(status) {
        if blank(text) {
            Ok(JsonView::Object(no_members()))
        } else {
            match json_parse(text) {
                Some(value) => Ok(value),
                None => Err("response is not valid JSON"@),
            }
        }
    } else {
        Err(
            "request failed ("@ + status_shown(status) + "): "@ + (match json_parse(text) {
                Some(value) => json_pretty(value),
                None => text,
            }),
        )
    }
}

/// The JSON value of an answer that met the request, once its text was parsed.
pub fn settle_success(text: &str, parsed: Option<Json>) -> (r: Result<Json, String>)
    ensures
        if blank(text@) {
            r matches Ok(v) && v@ == JsonView::Object(no_members())
        } else {
            match parsed {
                Some(value) => r == Ok::<Json, String>(value),
                None => r matches Err(e) && e@ == "response is not valid JSON"@,
            }
        },
{
    if is_blank(text) {
        let members: Vec<Member> = Vec::new();
        assert(member_views(members@) =~= no_members());
        return Ok(Json::Object(members));
    }
    match parsed {
        Some(value) => Ok(value),
        None => Err("response is not valid JSON".to_owned()),
    }
}

/// What is said of a refused request: its status and its answer.
pub fn refusal(shown_status: &str, answer: &str) -> (r: String)
    ensures
        r@ == "request failed ("@ + shown_status@ + "): "@ + answer@,
{
    cat4("request failed (", shown_status, "): ", answer)
}

/// Reads the answer to a request.
pub fn parse_json_response(status: u16, text: &str) -> (r: Result<Json, String>)
    requires
        100 <= status <= 999,
    ensures
        match response_meaning(status, text@) {
            Ok(value) => r matches Ok(v) && v@ == value,
            Err(message) => r matches Err(e) && e@ == message,
        },
{
    let parsed: Option<Json> = parse_json(text);
    if 200 <= status && status < 300 {
        settle_success(text, parsed)
    } else {
        let shown: String = show_status(status);
        match parsed {
            Some(value) => {
                let pretty: String = pretty_json(&value);
                Err(refusal(shown.as_str(), pretty.as_str()))
            },
            None => Err(refusal(shown.as_str(), text)),
        }
    }
}

/// What a model says in the JSON of its answer; nothing where the answer has another shape.
pub open spec fn answer_content(value: JsonView) -> Seq<char> {
    opt_or_empty(
        text_of(
            then_member(
                then_member(pointer_zero(then_member(Some(value), "choices"@)), "message"@),
                "content"@,
            ),
        ),
    )
}

/// What a model says in the JSON of its answer.
pub fn chat_result(value: &Json) -> (r: ChatResult)
    ensures
        r.content@ == answer_content(value@),
{
    let found: Option<&Json> = get_in(
        get_in(zero_in(get_in(Some(value), "choices")), "message"),
        "content",
    );
    match text_in(found) {
        Some(text) => ChatResult { content: text.to_owned() },
        None => ChatResult { content: String::new() },
    }
}

/// The path of requests to a model.
pub const CHAT_PATH: &'static str = "/v1/chat/completions";

/// The pair with a value, where there is one.
pub open spec fn opt_pair(key: Seq<char>, value: Option<Seq<char>>) -> Seq<PairView> {
    match value {
        Some(v) => seq![(key, v)],
        None => Seq::empty(),
    }
}

/// The headers that a request to a model has of its own.
pub open spec fn chat_header_views(req: ChatRequestView, stream: bool) -> Seq<PairView> {
    (if stream {
        seq![("accept"@, "text/event-stream"@)]
    } else {
        Seq::empty()
    }) + opt_pair("X-Provider"@, req.provider) + opt_pair("X-Billing-Mode"@, req.billing_mode)
}

/// The headers that a request to a model has of its own.
pub fn chat_headers(req: &ChatRequest, stream: bool) -> (r: Vec<Pair>)
    ensures
        pair_views(r@) == chat_header_views(req@, stream),
{
    let mut headers: Vec<Pair> = Vec::new();
    if stream {
        headers.push(Pair { key: "accept".to_owned(), value: "text/event-stream".to_owned() });
    }
    if let Some(provider) = &req.provider {
        headers.push(Pair { key: "X-Provider".to_owned(), value: provider.clone() });
    }
    if let Some(mode) = &req.billing_mode {
        headers.push(Pair { key: "X-Billing-Mode".to_owned(), value: mode.clone() });
    }
    assert(pair_views(headers@) =~= chat_header_views(req@, stream));
    headers
}

/// A text without the slashes in front of it.
pub open spec fn without_leading_slashes(s: Seq<char>) -> Seq<char>
    decreases s.len(),
{
    if s.len() > 0 && s[0] == '/' {
        without_leading_slashes(s.drop_first())
    } else {
        s
    }
}

/// A text without the slashes behind it.
pub open spec fn without_trailing_slashes(s: Seq<char>) -> Seq<char>
    decreases s.len(),
{
    if s.len() > 0 && s.last() == '/' {
        without_trailing_slashes(s.drop_last())
    } else {
        s
    }
}

fn trim_leading_slashes(s: &str) -> (r: &str)
    ensures
        r@ == without_leading_slashes(s@),
{
    let chars: Vec<char> = crate::text::chars_of(s);
    let mut i: usize = 0;
    assert(s@.skip(0) =~= s@);
    while i < chars.len() && chars[i] == '/'
        invariant
            chars@ == s@,
            i <= chars@.len(),
            without_leading_slashes(s@.skip(i as int)) == without_leading_slashes(s@),
        decreases chars@.len() - i,
    {
        assert(s@.skip(i as int).drop_first() =~= s@.skip(i + 1));
        i += 1;
    }
    assert(s@.skip(i as int) =~= s@.subrange(i as int, s@.len() as int));
    s.substring_char(i, chars.len())
}

fn trim_trailing_slashes(s: &str) -> (r: &str)
    ensures
        r@ == without_trailing_slashes(s@),
{
    let chars: Vec<char> = crate::text::chars_of(s);
    let mut n: usize = chars.len();
    assert(s@.take(n as int) =~= s@);
    while n > 0 && chars[n - 1] == '/'
        invariant
            chars@ == s@,
            n <= chars@.len(),
            without_trailing_slashes(s@.take(n as int)) == without_trailing_slashes(s@),
        decreases n,
    {
        assert(s@.take(n as int).drop_last() =~= s@.take(n - 1));
        n -= 1;
    }
    assert(s@.take(n as int) =~= s@.subrange(0, n as int));
    s.substring_char(0, n)
}

/// Whether a path is a whole URL.
pub open spec fn is_whole_url(path: Seq<char>) -> bool {
    starts(path, "http://"@) || starts(path, "https://"@)
}

/// The text of a request's URL, before its query: the path itself where it is a whole URL, else
/// the path behind the base, with one slash between them.
pub open spec fn url_text(base: Seq<char>, path: Seq<char>) -> Seq<char> {
    if is_whole_url(path) {
        path
    } else {
        without_trailing_slashes(base) + "/"@ + without_leading_slashes(path)
    }
}

/// What is said of a URL that cannot be read.
pub open spec fn url_complaint(base: Seq<char>, path: Seq<char>) -> Seq<char> {
    if is_whole_url(path) {
        "invalid URL: "@ + path
    } else {
        "invalid base URL/path combination: "@ + base + " + "@ + without_leading_slashes(path)
    }
}

/// The URL of a request, with its query.
pub open spec fn request_url(
    base: Seq<char>,
    path: Seq<char>,
    query: Seq<PairView>,
) -> Result<Seq<char>, Seq<char>> {
    match url_parsed(url_text(base, path)) {
        Some(url) => Ok(
            if query.len() == 0 {
                url
            } else {
                url_with_query(url, query)
            },
        ),
        None => Err(url_complaint(base, path)),
    }
}

/// What is wrong with the first header that cannot be sent; the name is looked at before the
/// value.
pub open spec fn header_complaint(headers: Seq<PairView>) -> Option<Seq<char>>
    decreases headers.len(),
{
    if headers.len() == 0 {
        None
    } else {
        match header_complaint(headers.drop_last()) {
            Some(complaint) => Some(complaint),
            None => if !is_header_name(headers.last().0) {
                Some("invalid header name: "@ + headers.last().0)
            } else if !is_header_value(headers.last().1) {
                Some("invalid header value for "@ + headers.last().0)
            } else {
                None
            },
        }
    }
}

/// The headers that are sent: of those with one name, the last.
pub open spec fn headers_sent(headers: Seq<PairView>) -> Map<Seq<char>, Seq<char>>
    decreases headers.len(),
{
    if headers.len() == 0 {
        no_entries()
    } else {
        headers_sent(headers.drop_last()).insert(ascii_lower(headers.last().0), headers.last().1)
    }
}

proof fn lemma_headers_sent_size(headers: Seq<PairView>)
    ensures
        headers_sent(headers).dom().finite(),
        headers_sent(headers).len() <= headers.len(),
    decreases headers.len(),
{
    if headers.len() > 0 {
        lemma_headers_sent_size(headers.drop_last());
    }
}

/// Checks the headers of a request and puts them together.
pub fn build_headers(headers: &Vec<Pair>) -> (r: Result<
    reqwest::header::HeaderMap<reqwest::header::HeaderValue>,
    String,
>)
    requires
        headers@.len() <= 6553,
    ensures
        match header_complaint(pair_views(headers@)) {
            Some(complaint) => r matches Err(e) && e@ == complaint,
            None => r matches Ok(map) && headers_held(map) == headers_sent(pair_views(headers@)),
        },
{
    let mut map: reqwest::header::HeaderMap<reqwest::header::HeaderValue> = no_headers();
    let ghost all = pair_views(headers@);
    let mut i: usize = 0;
    while i < headers.len()
        invariant
            headers@.len() <= 6553,
            i <= headers@.len(),
            all == pair_views(headers@),
            header_complaint(all.take(i as int)) is None,
            headers_held(map) == headers_sent(all.take(i as int)),
        decreases headers@.len() - i,
    {
        let ghost part = all.take(i + 1);
        proof {
            assert(part.drop_last() =~= all.take(i as int));
            assert(part.last() == headers@[i as int]@);
            lemma_headers_sent_size(all.take(i as int));
        }
        let key: &str = headers[i].key.as_str();
        let value: &str = headers[i].value.as_str();
        if header_name(key).is_none() {
            proof {
                lemma_first_complaint(all, i + 1);
            }
            return Err(cat2("invalid header name: ", key));
        }
        if !header_value_is_valid(value) {
            proof {
                lemma_first_complaint(all, i + 1);
            }
            return Err(cat2("invalid header value for ", key));
        }
        insert_header(&mut map, key, value);
        i += 1;
    }
    assert(all.take(i as int) =~= all);
    Ok(map)
}

proof fn lemma_first_complaint(headers: Seq<PairView>, k: int)
    requires
        0 <= k <= headers.len(),
        header_complaint(headers.take(k)) is Some,
    ensures
        header_complaint(headers) == header_complaint(headers.take(k)),
    decreases headers.len() - k,
{
    if k < headers.len() {
        assert(headers.take(k + 1).drop_last() =~= headers.take(k));
        lemma_first_complaint(headers, k + 1);
    } else {
        assert(headers.take(k) =~= headers);
    }
}

/// Who asks, as headers.
pub open spec fn auth_header_views(api_key: Option<Seq<char>>) -> Seq<PairView> {
    match api_key {
        Some(key) => seq![("x-api-key"@, key), ("authorization"@, "Bearer "@ + key)],
        None => Seq::empty(),
    }
}

/// A request without its body.
pub struct Prepared {
    pub url: String,
    /// Who asks, as headers; those in `headers` go before them.
    pub auth: Vec<Pair>,
    pub headers: reqwest::header::HeaderMap<reqwest::header::HeaderValue>,
}

/// The view of a [`Prepared`].
pub struct PreparedView {
    pub url: Seq<char>,
    pub auth: Seq<PairView>,
    pub headers: Map<Seq<char>, Seq<char>>,
}

impl View for Prepared {
    type V = PreparedView;

    open spec fn view(&self) -> PreparedView {
        PreparedView {
            url: self.url@,
            auth: pair_views(self.auth@),
            headers: headers_held(self.headers),
        }
    }
}

/// Where a request goes, and with which headers; or why it cannot go.
pub open spec fn preparing(
    base_url: Seq<char>,
    api_key: Option<Seq<char>>,
    path: Seq<char>,
    query: Seq<PairView>,
    headers: Seq<PairView>,
) -> Result<PreparedView, Seq<char>> {
    match request_url(base_url, path, query) {
        Err(complaint) => Err(complaint),
        Ok(url) => match header_complaint(headers) {
            Some(complaint) => Err(complaint),
            None => Ok(
                PreparedView {
                    url,
                    auth: auth_header_views(api_key),
                    headers: headers_sent(headers),
                },
            ),
        },
    }
}

/// A client of the API.
#[derive(Debug, Clone)]
pub struct NanoGptClient {
    pub cfg: ClientConfig,
}

impl NanoGptClient {
    /// A client for an API.
    pub fn new(cfg: ClientConfig) -> (r: NanoGptClient)
        ensures
            r.cfg == cfg,
    {
        NanoGptClient { cfg }
    }

    /// Whether there is an API key that is more than spaces.
    pub fn has_api_key(&self) -> (r: bool)
        ensures
            r == match self.cfg.api_key {
                Some(key) => !blank(key@),
                None => false,
            },
    {
        match &self.cfg.api_key {
            Some(key) => !is_blank(key.as_str()),
            None => false,
        }
    }

    /// Sets the API key.
    pub fn set_api_key(&mut self, api_key: String)
        ensures
            final(self).cfg == (ClientConfig { api_key: Some(api_key), ..old(self).cfg }),
    {
        self.cfg.api_key = Some(api_key);
    }

    /// The URL of a request.
    pub fn build_url(&self, path: &str, query: &Vec<Pair>) -> (r: Result<String, String>)
        ensures
            match request_url(self.cfg.base_url@, path@, pair_views(query@)) {
                Ok(url) => r matches Ok(u) && u@ == url,
                Err(complaint) => r matches Err(e) && e@ == complaint,
            },
    {
        let parsed: Option<String> = if starts_with(path, "http://") || starts_with(path, "https://") {
            match parse_url(path) {
                Some(url) => Some(url),
                None => return Err(cat2("invalid URL: ", path)),
            }
        } else {
            let base: &str = trim_trailing_slashes(self.cfg.base_url.as_str());
            let rest: &str = trim_leading_slashes(path);
            let whole: String = cat3(base, "/", rest);
            match parse_url(whole.as_str()) {
                Some(url) => Some(url),
                None => return Err(
                    cat4(
                        "invalid base URL/path combination: ",
                        self.cfg.base_url.as_str(),
                        " + ",
                        rest,
                    ),
                ),
            }
        };
        let url: String = parsed.unwrap();
        if query.len() == 0 {
            Ok(url)
        } else {
            Ok(extend_query(url.as_str(), query))
        }
    }

    /// Where a request goes, and with which headers.
    pub fn prepare(&self, path: &str, query: &Vec<Pair>, headers: &Vec<Pair>) -> (r: Result<
        Prepared,
        String,
    >)
        requires
            headers@.len() <= 6553,
        ensures
            match preparing(
                self.cfg.base_url@,
                opt_view(self.cfg.api_key),
                path@,
                pair_views(query@),
                pair_views(headers@),
            ) {
                Ok(prepared) => r matches Ok(p) && p@ == prepared,
                Err(complaint) => r matches Err(e) && e@ == complaint,
            },
    {
        let url: String = match self.build_url(path, query) {
            Ok(url) => url,
            Err(e) => return Err(e),
        };
        match build_headers(headers) {
            Ok(map) => Ok(Prepared { url, auth: self.auth_headers(), headers: map }),
            Err(e) => Err(e),
        }
    }

    /// Who asks, as headers.
    pub fn auth_headers(&self) -> (r: Vec<Pair>)
        ensures
            pair_views(r@) == auth_header_views(opt_view(self.cfg.api_key)),
    {
        let mut headers: Vec<Pair> = Vec::new();
        if let Some(key) = &self.cfg.api_key {
            headers.push(Pair { key: "x-api-key".to_owned(), value: key.clone() });
            headers.push(
                Pair { key: "authorization".to_owned(), value: cat2("Bearer ", key.as_str()) },
            );
        }
        assert(pair_views(headers@) =~= auth_header_views(opt_view(self.cfg.api_key)));
        headers
    }
}

/// What a line of a streamed answer says.
pub enum StreamLine {
    /// Nothing.
    Skip,
    /// More of the answer.
    Delta(String),
    /// The answer ends.
    Done,
}

/// The view of a [`StreamLine`].
pub enum StreamLineView {
    Skip,
    Delta(Seq<char>),
    Done,
}

impl View for StreamLine {
    type V = StreamLineView;

    open spec fn view(&self) -> StreamLineView {
        match self {
            StreamLine::Skip => StreamLineView::Skip,
            StreamLine::Delta(text) => StreamLineView::Delta(text@),
            StreamLine::Done => StreamLineView::Done,
        }
    }
}

/// The piece of an answer in one chunk of a stream.
pub open spec fn chunk_delta(chunk: JsonView) -> Option<Seq<char>> {
    text_of(
        then_member(
            then_member(pointer_zero(then_member(Some(chunk), "choices"@)), "delta"@),
            "content"@,
        ),
    )
}

/// What a line of a streamed answer says.
pub open spec fn stream_line_meaning(line: Seq<char>) -> StreamLineView {
    if !starts(line, "data: "@) {
        StreamLineView::Skip
    } else {
        let data = line.skip("data: "@.len() as int);
        if data == "[DONE]"@ {
            StreamLineView::Done
        } else {
            match json_parse(data) {
                Some(chunk) => match chunk_delta(chunk) {
                    Some(delta) => StreamLineView::Delta(delta),
                    None => StreamLineView::Skip,
                },
                None => StreamLineView::Skip,
            }
        }
    }
}

/// The piece of an answer in one chunk of a stream.
pub fn read_chunk(chunk: &Json) -> (r: Option<&str>)
    ensures
        crate::text::opt_str_view(r) == chunk_delta(chunk@),
{
    text_in(get_in(get_in(zero_in(get_in(Some(chunk), "choices")), "delta"), "content"))
}

/// Reads one line of a streamed answer.
pub fn read_stream_line(line: &str) -> (r: StreamLine)
    ensures
        r@ == stream_line_meaning(line@),
{
    match strip_prefix(line, "data: ") {
        Some(data) => {
            if same(data, "[DONE]") {
                return StreamLine::Done;
            }
            match parse_json(data) {
                Some(chunk) => match read_chunk(&chunk) {
                    Some(delta) => StreamLine::Delta(delta.to_owned()),
                    None => StreamLine::Skip,
                },
                None => StreamLine::Skip,
            }
        },
        None => StreamLine::Skip,
    }
}

/// A streamed answer as far as it came in.
pub struct StreamState {
    pub content: String,
    /// The answer has ended.
    pub done: bool,
}

/// The lines of a streamed answer that say something: those before its end.
pub open spec fn lines_before_end(lines: Seq<Seq<char>>) -> Seq<Seq<char>>
    decreases lines.len(),
{
    if lines.len() == 0 || stream_line_meaning(lines[0]) is Done {
        Seq::empty()
    } else {
        seq![lines[0]] + lines_before_end(lines.drop_first())
    }
}

/// The pieces of an answer in its lines, one behind the other.
pub open spec fn deltas_joined(lines: Seq<Seq<char>>) -> Seq<char>
    decreases lines.len(),
{
    if lines.len() == 0 {
        Seq::empty()
    } else {
        deltas_joined(lines.drop_last()) + (match stream_line_meaning(lines.last()) {
            StreamLineView::Delta(delta) => delta,
            _ => Seq::empty(),
        })
    }
}

/// An answer after one more event: its text, and whether it has ended.
pub open spec fn stream_step(state: (Seq<char>, bool), event: StreamLineView) -> (Seq<char>, bool) {
    if state.1 {
        state
    } else {
        match event {
            StreamLineView::Skip => state,
            StreamLineView::Delta(delta) => (state.0 + delta, false),
            StreamLineView::Done => (state.0, true),
        }
    }
}

/// What an event adds to an answer; nothing once that has ended.
pub open spec fn stream_piece(done: bool, event: StreamLineView) -> Option<Seq<char>> {
    match event {
        StreamLineView::Delta(delta) => if done {
            None
        } else {
            Some(delta)
        },
        _ => None,
    }
}

/// An answer after some lines.
pub open spec fn stream_after(lines: Seq<Seq<char>>) -> (Seq<char>, bool)
    decreases lines.len(),
{
    if lines.len() == 0 {
        (Seq::empty(), false)
    } else {
        stream_step(stream_after(lines.drop_last()), stream_line_meaning(lines.last()))
    }
}

impl StreamState {
    /// Nothing came in yet.
    pub fn new() -> (r: StreamState)
        ensures
            (r.content@, r.done) == stream_after(Seq::empty()),
    {
        StreamState { content: String::new(), done: false }
    }

    /// Takes one more line; gives back what it adds to the answer.
    pub fn feed(&mut self, line: &str) -> (r: Option<String>)
        ensures
            (final(self).content@, final(self).done) == stream_step(
                (old(self).content@, old(self).done),
                stream_line_meaning(line@),
            ),
            opt_view(r) == stream_piece(old(self).done, stream_line_meaning(line@)),
    {
        if self.done {
            return None;
        }
        match read_stream_line(line) {
            StreamLine::Skip => None,
            StreamLine::Delta(delta) => {
                self.content = cat2(self.content.as_str(), delta.as_str());
                Some(delta)
            },
            StreamLine::Done => {
                self.done = true;
                None
            },
        }
    }
}

/// What is said of a stream that the API refused.
pub fn stream_complaint(status: u16, text: &str) -> (r: String)
    requires
        100 <= status <= 999,
    ensures
        r@ == "chat streaming failed ("@ + status_shown(status) + "): "@ + text@,
{
    let shown: String = show_status(status);
    cat4("chat streaming failed (", shown.as_str(), "): ", text)
}

proof fn lemma_lines_before_end(lines: Seq<Seq<char>>, line: Seq<char>)
    ensures
        stream_after(lines).1 ==> lines_before_end(lines.push(line)) == lines_before_end(lines),
        !stream_after(lines).1 ==> lines_before_end(lines) == lines,
        !stream_after(lines).1 ==> lines_before_end(lines.push(line)) == (if stream_line_meaning(
            line,
        ) is Done {
            lines
        } else {
            lines.push(line)
        }),
        stream_after(lines).1 <==> exists|i: int|
            0 <= i < lines.len() && (#[trigger] stream_line_meaning(lines[i])) is Done,
    decreases lines.len(),
{
    lemma_ended(lines);
    lemma_before_end_push(lines, line);
}

proof fn lemma_ended(lines: Seq<Seq<char>>)
    ensures
        stream_after(lines).1 <==> exists|i: int|
            0 <= i < lines.len() && (#[trigger] stream_line_meaning(lines[i])) is Done,
    decreases lines.len(),
{
    if lines.len() > 0 {
        let front = lines.drop_last();
        let n = lines.len() - 1;
        lemma_ended(front);
        if stream_after(front).1 {
            let i = choose|i: int|
                0 <= i < front.len() && (#[trigger] stream_line_meaning(front[i])) is Done;
            assert(stream_line_meaning(lines[i]) is Done);
        }
        if exists|i: int| 0 <= i < lines.len() && (#[trigger] stream_line_meaning(lines[i])) is Done {
            let i = choose|i: int|
                0 <= i < lines.len() && (#[trigger] stream_line_meaning(lines[i])) is Done;
            if i < n {
                assert(stream_line_meaning(front[i]) is Done);
            }
        }
        if stream_line_meaning(lines[n]) is Done {
            assert(stream_after(lines).1);
        }
    }
}

proof fn lemma_before_end_push(lines: Seq<Seq<char>>, line: Seq<char>)
    ensures
        (exists|i: int| 0 <= i < lines.len() && (#[trigger] stream_line_meaning(lines[i])) is Done)
            ==> lines_before_end(lines.push(line)) == lines_before_end(lines),
        (forall|i: int| 0 <= i < lines.len() ==> !((#[trigger] stream_line_meaning(lines[i])) is Done))
            ==> lines_before_end(lines) == lines && lines_before_end(lines.push(line)) == (
        if stream_line_meaning(line) is Done {
            lines
        } else {
            lines.push(line)
        }),
    decreases lines.len(),
{
    if lines.len() == 0 {
        assert(lines.push(line).drop_first() =~= lines);
        assert(lines_before_end(lines) =~= lines);
        assert(lines.push(line)[0] == line);
        assert(seq![line] + lines_before_end(lines) =~= lines.push(line));
    } else if stream_line_meaning(lines[0]) is Done {
        assert(lines.push(line)[0] == lines[0]);
    } else {
        let rest = lines.drop_first();
        assert(lines.push(line)[0] == lines[0]);
        assert(lines.push(line).drop_first() =~= rest.push(line));
        lemma_before_end_push(rest, line);
        if exists|i: int| 0 <= i < lines.len() && (#[trigger] stream_line_meaning(lines[i])) is Done {
            let i = choose|i: int|
                0 <= i < lines.len() && (#[trigger] stream_line_meaning(lines[i])) is Done;
            assert(stream_line_meaning(rest[i - 1]) is Done);
        } else {
            assert forall|i: int| 0 <= i < rest.len() implies !(
            (#[trigger] stream_line_meaning(rest[i])) is Done) by {
                assert(rest[i] == lines[i + 1]);
                assert(!(stream_line_meaning(lines[i + 1]) is Done));
            }
            assert(seq![lines[0]] + rest =~= lines);
            assert(seq![lines[0]] + rest.push(line) =~= lines.push(line));
        }
    }
}

/// A streamed answer is what its lines before the end add, one behind the other.
pub proof fn law_stream_is_its_deltas(lines: Seq<Seq<char>>)
    ensures
        stream_after(lines).0 == deltas_joined(lines_before_end(lines)),
    decreases lines.len(),
{
    if lines.len() > 0 {
        let front = lines.drop_last();
        law_stream_is_its_deltas(front);
        lemma_lines_before_end(front, lines.last());
        assert(front.push(lines.last()) =~= lines);
        if !stream_after(front).1 {
            assert(lines_before_end(lines).drop_last() =~= lines_before_end(lines).drop_last());
            if !(stream_line_meaning(lines.last()) is Done) {
                assert(lines_before_end(lines) == lines);
                assert(deltas_joined(lines) == deltas_joined(front) + (match stream_line_meaning(
                    lines.last(),
                ) {
                    StreamLineView::Delta(delta) => delta,
                    _ => Seq::empty(),
                }));
            } else {
                assert(lines_before_end(lines) == front);
            }
        }
        assert(stream_after(lines).0 =~= deltas_joined(lines_before_end(lines)));
    }
}

/// The messages that are sent hold the system prompt first, where there is one, and then what was
/// said, in its order.
pub proof fn law_system_prompt_comes_first(req: ChatRequestView, i: int)
    requires
        0 <= i < req.messages.len(),
    ensures
        req.system_prompt matches Some(prompt) ==> request_messages(req)[0] == system_says(prompt)
            && request_messages(req)[i + 1] == req.messages[i],
        req.system_prompt is None ==> request_messages(req)[i] == req.messages[i],
{
}

/// A pair that was written with its delimiter reads back, where the key does not hold the
/// delimiter and neither part has spaces around it.
pub proof fn law_key_value_reads_back(key: Seq<char>, value: Seq<char>, delimiter: char)
    requires
        key.len() > 0,
        !key.contains(delimiter),
        trimmed(key) == key,
        trimmed(value) == value,
    ensures
        key_value(key + one(delimiter) + value, delimiter) == Some((key, value)),
{
    let s = key + one(delimiter) + value;
    let pat = one(delimiter);
    let k = key.len() as int;
    assert(s.subrange(k, k + 1) =~= pat);
    assert forall|j: int| 0 <= j < k implies !crate::search::occurs_at(s, pat, j) by {
        if crate::search::occurs_at(s, pat, j) {
            assert(s.subrange(j, j + 1)[0] == s[j]);
            assert(pat[0] == delimiter);
            assert(key[j] == delimiter);
        }
    }
    crate::search::lemma_find_at(s, pat, k);
    assert(s.take(k) =~= key);
    assert(s.skip(k + 1) =~= value);
}

/// It does not matter whether the base ends with a slash or the path begins with one.
pub proof fn law_slashes_between_do_not_matter(base: Seq<char>, path: Seq<char>)
    requires
        !is_whole_url(path),
    ensures
        url_text(base.push('/'), path) == url_text(base, path),
        url_text(base, seq!['/'] + path) == url_text(base, path),
{
    reveal_strlit("http://");
    reveal_strlit("https://");
    let slashed = seq!['/'] + path;
    assert(base.push('/').drop_last() =~= base);
    assert(slashed.drop_first() =~= path);
    if starts(slashed, "http://"@) {
        assert(slashed.take(7)[0] == "http://"@[0]);
    }
    if starts(slashed, "https://"@) {
        assert(slashed.take(8)[0] == "https://"@[0]);
    }
}

} // verus!
