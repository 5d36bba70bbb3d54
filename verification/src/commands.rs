//! What the commands ask of the API and what they show of its answers.

use vstd::prelude::*;
use vstd::utf8::encode_utf8;

use crate::cli::{
    ApiArgs, ModelScope, ModelsArgs, ResponsesCreateArgs, WebOutput, WebProvider, WebSearchArgs,
};
use crate::client::{key_value, parse_key_value};
use crate::conversation::{summary_views, ConversationSummary, SummaryView};
use crate::json::{
    array_of, bool_in, bool_of, get_in, json_parse, json_pretty, json_views, lemma_json_views, member,
    member_views, merge_json_object, no_members, opt_json, opt_whole_number, parse_json, pretty_json,
    set_member, set_opt, set_opt_number, set_opt_text, set_text, text_array, text_in, text_of,
    text_views, then_member, with_member, with_members, with_opt, with_opt_text, Json, JsonView,
    Member, Members,
};
use crate::letter::{lower, to_lowercase};
use crate::number::{decimal, parsed_unsigned, read_unsigned, write_decimal};
use crate::search::{contains, has};
use crate::stamp::{full_stamp, show_full};
use crate::text::{cat2, cat3, cat4, cat5, opt_or_empty, opt_view, views};
use crate::wire::{encode_path_segment, form_encoded, is_method, method_is_valid, pair_views, Pair, PairView};

verus! {

/// What a request asks for: a path and a query.
pub struct Ask {
    pub path: String,
    pub query: Vec<Pair>,
}

/// The path of a catalog of models.
pub open spec fn scope_path(scope: ModelScope) -> Seq<char> {
    match scope {
        ModelScope::Canonical => "/v1/models"@,
        ModelScope::Subscription => "/subscription/v1/models"@,
        ModelScope::Paid => "/paid/v1/models"@,
    }
}

/// The path of a model's providers.
pub open spec fn providers_path(model: Seq<char>) -> Seq<char> {
    "/models/"@ + form_encoded(encode_utf8(model)) + "/providers"@
}

/// The path of a model's providers.
pub fn model_providers_path(model: &str) -> (r: String)
    ensures
        r@ == providers_path(model@),
{
    let encoded: String = encode_path_segment(model);
    cat3("/models/", encoded.as_str(), "/providers")
}

/// What to ask for to list the models, or the providers of one: a path and a query.
pub open spec fn models_ask(args: ModelsArgs) -> (Seq<char>, Seq<PairView>) {
    match args.show_providers_for {
        Some(model) => (providers_path(model@), Seq::empty()),
        None => (
            scope_path(args.scope),
            if args.detailed {
                seq![("detailed"@, "true"@)]
            } else {
                Seq::empty()
            },
        ),
    }
}

/// What to ask for to list the models, or the providers of one.
pub fn models_request(args: &ModelsArgs) -> (r: Ask)
    ensures
        (r.path@, pair_views(r.query@)) == models_ask(*args),
{
    let mut query: Vec<Pair> = Vec::new();
    if let Some(model) = &args.show_providers_for {
        assert(pair_views(query@) =~= Seq::empty());
        return Ask { path: model_providers_path(model.as_str()), query };
    }
    let path: &str = match args.scope {
        ModelScope::Canonical => "/v1/models",
        ModelScope::Subscription => "/subscription/v1/models",
        ModelScope::Paid => "/paid/v1/models",
    };
    if args.detailed {
        query.push(Pair { key: "detailed".to_owned(), value: "true".to_owned() });
    }
    assert(pair_views(query@) =~= (if args.detailed {
        seq![("detailed"@, "true"@)]
    } else {
        Seq::empty()
    }));
    Ask { path: path.to_owned(), query }
}

/// The name of a model in a list.
pub open spec fn model_id(model: JsonView) -> Seq<char> {
    match text_of(member(model, "id"@)) {
        Some(id) => id,
        None => "<unknown>"@,
    }
}

/// A whole number in a JSON value.
pub open spec fn unsigned_of(value: Option<JsonView>) -> Option<nat> {
    match value {
        Some(JsonView::Number(text)) => parsed_unsigned(text, u64::MAX as nat),
        _ => None,
    }
}

/// A whole number in a JSON value.
pub fn unsigned_in(value: Option<&Json>) -> (r: Option<u64>)
    ensures
        match (r, unsigned_of(crate::json::opt_json_ref(value))) {
            (Some(n), Some(m)) => n == m,
            (None, None) => true,
            _ => false,
        },
{
    match value {
        Some(v) => match v.as_number() {
            Some(text) => read_unsigned(text, u64::MAX),
            None => None,
        },
        None => None,
    }
}

/// What a list shows of one model.
pub open spec fn model_entry(model: JsonView, detailed: bool) -> Seq<char> {
    if detailed {
        model_id(model) + ("\n  owned_by: "@ + opt_or_empty(text_of(member(model, "owned_by"@))))
            + ("\n  subscription: "@ + (match bool_of(
            then_member(member(model, "subscription"@), "included"@),
        ) {
            Some(true) => "yes"@,
            Some(false) => "no"@,
            None => "-"@,
        })) + ("\n  context: "@ + (match unsigned_of(member(model, "context_length"@)) {
            Some(n) => decimal(n),
            None => "-"@,
        })) + ("\n  description: "@ + opt_or_empty(text_of(member(model, "description"@))) + "\n"@)
    } else {
        model_id(model)
    }
}

/// Whether a model has a text in its name, in whatever case; the text is in lower case.
pub open spec fn model_passes(model: JsonView, filter: Option<Seq<char>>) -> bool {
    match filter {
        Some(text) => contains(lower(model_id(model)), text),
        None => true,
    }
}

/// What a list shows of the models that pass.
pub open spec fn model_entries(
    models: Seq<JsonView>,
    detailed: bool,
    filter: Option<Seq<char>>,
) -> Seq<Seq<char>>
    decreases models.len(),
{
    if models.len() == 0 {
        Seq::empty()
    } else {
        let front = model_entries(models.drop_last(), detailed, filter);
        if model_passes(models.last(), filter) {
            front.push(model_entry(models.last(), detailed))
        } else {
            front
        }
    }
}

/// What a list shows of one model.
pub fn show_model(model: &Json, detailed: bool) -> (r: String)
    ensures
        r@ == model_entry(model@, detailed),
{
    let id: &str = match text_in(model.get("id")) {
        Some(id) => id,
        None => "<unknown>",
    };
    if !detailed {
        return id.to_owned();
    }
    let owned_by: &str = match text_in(model.get("owned_by")) {
        Some(text) => text,
        None => "",
    };
    let included: &str = match bool_in(get_in(model.get("subscription"), "included")) {
        Some(b) => if b {
            "yes"
        } else {
            "no"
        },
        None => "-",
    };
    let context: String = match unsigned_in(model.get("context_length")) {
        Some(n) => write_decimal(n),
        None => "-".to_owned(),
    };
    let description: &str = match text_in(model.get("description")) {
        Some(text) => text,
        None => "",
    };
    proof {
        reveal_strlit("");
        assert(""@ =~= Seq::empty());
    }
    let a: String = cat2("\n  owned_by: ", owned_by);
    let b: String = cat2("\n  subscription: ", included);
    let c: String = cat2("\n  context: ", context.as_str());
    let d: String = cat3("\n  description: ", description, "\n");
    cat5(id, a.as_str(), b.as_str(), c.as_str(), d.as_str())
}

/// What the list of models shows of the API's answer.
pub open spec fn models_shown(value: JsonView, args: ModelsArgs) -> Result<Seq<Seq<char>>, Seq<char>> {
    if args.show_providers_for is Some || args.json {
        Ok(seq![json_pretty(value)])
    } else {
        match array_of(member(value, "data"@)) {
            Some(models) => Ok(
                model_entries(
                    models,
                    args.detailed,
                    match args.filter {
                        Some(text) => Some(lower(text@)),
                        None => None,
                    },
                ),
            ),
            None => Err("unexpected models response format"@),
        }
    }
}

/// What the list of models shows of the models in the API's answer; `filter` is in lower case.
pub fn show_models(models: &Vec<Json>, detailed: bool, filter: &Option<String>) -> (r: Vec<String>)
    ensures
        views(r@) == model_entries(json_views(models@), detailed, opt_view(*filter)),
{
    let mut out: Vec<String> = Vec::new();
    let ghost all = json_views(models@);
    let ghost wanted = opt_view(*filter);
    proof {
        lemma_json_views(models@);
    }
    let mut i: usize = 0;
    assert(views(out@) =~= model_entries(all.take(0), detailed, wanted));
    while i < models.len()
        invariant
            i <= models@.len(),
            all == json_views(models@),
            all.len() == models@.len(),
            wanted == opt_view(*filter),
            forall|k: int| 0 <= k < models@.len() ==> (#[trigger] all[k]) == models@[k]@,
            views(out@) == model_entries(all.take(i as int), detailed, wanted),
        decreases models@.len() - i,
    {
        proof {
            assert(all.take(i + 1).drop_last() =~= all.take(i as int));
            assert(all.take(i + 1).last() == all[i as int]);
            assert(all[i as int] == models@[i as int]@);
        }
        let passes: bool = match filter {
            Some(text) => {
                let id: &str = match text_in(models[i].get("id")) {
                    Some(id) => id,
                    None => "<unknown>",
                };
                let low: String = to_lowercase(id);
                has(low.as_str(), text.as_str())
            },
            None => true,
        };
        if passes {
            let ghost before = out@;
            out.push(show_model(&models[i], detailed));
            assert(views(out@) =~= views(before).push(model_entry(all[i as int], detailed)));
        }
        i += 1;
    }
    assert(all.take(i as int) =~= all);
    out
}

/// What the command that lists models prints of the API's answer.
pub fn models_output(value: &Json, args: &ModelsArgs) -> (r: Result<Vec<String>, String>)
    ensures
        match models_shown(value@, *args) {
            Ok(lines) => r matches Ok(out) && views(out@) == lines,
            Err(message) => r matches Err(e) && e@ == message,
        },
{
    if args.show_providers_for.is_some() || args.json {
        let mut out: Vec<String> = Vec::new();
        out.push(pretty_json(value));
        assert(views(out@) =~= seq![json_pretty(value@)]);
        return Ok(out);
    }
    let filter: Option<String> = match &args.filter {
        Some(text) => Some(to_lowercase(text.as_str())),
        None => None,
    };
    match value.get("data") {
        Some(data) => match data.as_array() {
            Some(models) => Ok(show_models(models, args.detailed, &filter)),
            None => Err("unexpected models response format".to_owned()),
        },
        None => Err("unexpected models response format".to_owned()),
    }
}

/// The name of a provider of web searches, as it is sent.
pub open spec fn provider_text(provider: WebProvider) -> Seq<char> {
    match provider {
        WebProvider::Linkup => "linkup"@,
        WebProvider::Tavily => "tavily"@,
        WebProvider::Exa => "exa"@,
        WebProvider::Kagi => "kagi"@,
        WebProvider::Perplexity => "perplexity"@,
        WebProvider::Valyu => "valyu"@,
        WebProvider::Brave => "brave"@,
    }
}

/// The name of a provider of web searches, as it is sent.
pub fn provider_name(provider: WebProvider) -> (r: &'static str)
    ensures
        r@ == provider_text(provider),
{
    match provider {
        WebProvider::Linkup => "linkup",
        WebProvider::Tavily => "tavily",
        WebProvider::Exa => "exa",
        WebProvider::Kagi => "kagi",
        WebProvider::Perplexity => "perplexity",
        WebProvider::Valyu => "valyu",
        WebProvider::Brave => "brave",
    }
}

/// The name of what a web search gives back, as it is sent.
pub open spec fn output_text(output: WebOutput) -> Seq<char> {
    match output {
        WebOutput::SearchResults => "searchResults"@,
        WebOutput::SourcedAnswer => "sourcedAnswer"@,
        WebOutput::Structured => "structured"@,
    }
}

/// The members with `key` set to texts, where there are any.
pub open spec fn with_texts(members: Members, key: Seq<char>, texts: Seq<Seq<char>>) -> Members {
    if texts.len() == 0 {
        members
    } else {
        with_member(members, key, JsonView::Array(text_views(texts)))
    }
}

fn set_texts(members: &mut Vec<Member>, key: &str, texts: &Vec<String>)
    ensures
        member_views(final(members)@) == with_texts(
            member_views(old(members)@),
            key@,
            views(texts@),
        ),
{
    if texts.len() > 0 {
        set_member(members, key, text_array(texts));
    }
}

/// The members of a web search, before those that were added as JSON.
pub open spec fn web_search_members(args: WebSearchArgs) -> Members {
    let m = with_member(no_members(), "query"@, JsonView::Text(args.query@));
    let m = with_member(m, "provider"@, JsonView::Text(provider_text(args.provider)));
    let m = with_member(m, "depth"@, JsonView::Text(args.depth@));
    let m = with_member(m, "outputType"@, JsonView::Text(output_text(args.output)));
    let m = with_member(m, "includeImages"@, JsonView::Bool(args.include_images));
    let m = with_opt_text(m, "structuredOutputSchema"@, opt_view(args.structured_schema));
    let m = with_opt_text(m, "fromDate"@, opt_view(args.from_date));
    let m = with_opt_text(m, "toDate"@, opt_view(args.to_date));
    let m = with_texts(m, "includeDomains"@, views(args.include_domains@));
    with_texts(m, "excludeDomains"@, views(args.exclude_domains@))
}

/// A body with members added from a JSON value; it was parsed from text, or the text is no JSON.
pub open spec fn with_extra(members: Members, extra: Option<JsonView>) -> Result<JsonView, Seq<char>> {
    match extra {
        Some(JsonView::Object(more)) => Ok(JsonView::Object(with_members(members, more))),
        Some(_) => Err("--extra-json must be a JSON object"@),
        None => Err("invalid JSON in --extra-json"@),
    }
}

/// A body with members added from JSON text, where there is any.
pub open spec fn with_extra_text(
    members: Members,
    extra: Option<Seq<char>>,
) -> Result<JsonView, Seq<char>> {
    match extra {
        Some(text) => with_extra(members, json_parse(text)),
        None => Ok(JsonView::Object(members)),
    }
}

/// Adds members from a JSON value to a body.
pub fn add_extra(members: Vec<Member>, extra: Option<Json>) -> (r: Result<Json, String>)
    ensures
        match with_extra(member_views(members@), opt_json(extra)) {
            Ok(value) => r matches Ok(v) && v@ == value,
            Err(message) => r matches Err(e) && e@ == message,
        },
{
    let mut members: Vec<Member> = members;
    match extra {
        Some(value) => match merge_json_object(&mut members, &value) {
            Ok(_) => Ok(Json::Object(members)),
            Err(e) => Err(e),
        },
        None => Err("invalid JSON in --extra-json".to_owned()),
    }
}

fn add_extra_text(members: Vec<Member>, extra: &Option<String>) -> (r: Result<Json, String>)
    ensures
        match with_extra_text(member_views(members@), opt_view(*extra)) {
            Ok(value) => r matches Ok(v) && v@ == value,
            Err(message) => r matches Err(e) && e@ == message,
        },
{
    match extra {
        Some(text) => add_extra(members, parse_json(text.as_str())),
        None => Ok(Json::Object(members)),
    }
}

/// The body of a web search.
pub open spec fn web_search_meaning(args: WebSearchArgs) -> Result<JsonView, Seq<char>> {
    if args.output is Structured && args.structured_schema is None {
        Err("--structured-schema is required when --output structured"@)
    } else {
        with_extra_text(web_search_members(args), opt_view(args.extra_json))
    }
}

/// The body of a web search.
pub fn web_search_body(args: &WebSearchArgs) -> (r: Result<Json, String>)
    ensures
        match web_search_meaning(*args) {
            Ok(value) => r matches Ok(v) && v@ == value,
            Err(message) => r matches Err(e) && e@ == message,
        },
{
    let output: &str = match args.output {
        WebOutput::SearchResults => "searchResults",
        WebOutput::SourcedAnswer => "sourcedAnswer",
        WebOutput::Structured => "structured",
    };
    let structured: bool = match args.output {
        WebOutput::Structured => true,
        _ => false,
    };
    if structured && args.structured_schema.is_none() {
        return Err("--structured-schema is required when --output structured".to_owned());
    }
    let mut members: Vec<Member> = Vec::new();
    assert(member_views(members@) =~= no_members());
    set_text(&mut members, "query", args.query.as_str());
    set_text(&mut members, "provider", provider_name(args.provider));
    set_text(&mut members, "depth", args.depth.as_str());
    set_text(&mut members, "outputType", output);
    set_member(&mut members, "includeImages", Json::Bool(args.include_images));
    set_opt_text(&mut members, "structuredOutputSchema", &args.structured_schema);
    set_opt_text(&mut members, "fromDate", &args.from_date);
    set_opt_text(&mut members, "toDate", &args.to_date);
    set_texts(&mut members, "includeDomains", &args.include_domains);
    set_texts(&mut members, "excludeDomains", &args.exclude_domains);
    add_extra_text(members, &args.extra_json)
}

/// Where the input of a response comes from.
pub enum InputSource {
    Given(String),
    /// From the file of this path.
    File(String),
}

/// The view of an [`InputSource`].
pub enum InputView {
    Given(Seq<char>),
    File(Seq<char>),
}

impl View for InputSource {
    type V = InputView;

    open spec fn view(&self) -> InputView {
        match self {
            InputSource::Given(text) => InputView::Given(text@),
            InputSource::File(path) => InputView::File(path@),
        }
    }
}

/// Where the input of a response comes from: what was given goes before a file.
pub open spec fn input_meant(args: ResponsesCreateArgs) -> Result<InputView, Seq<char>> {
    match (args.input, args.input_file) {
        (Some(text), _) => Ok(InputView::Given(text@)),
        (None, Some(path)) => Ok(InputView::File(path@)),
        (None, None) => Err("--input or --input-file is required"@),
    }
}

/// Where the input of a response comes from: what was given goes before a file.
pub fn responses_input(args: &ResponsesCreateArgs) -> (r: Result<InputSource, String>)
    ensures
        match input_meant(*args) {
            Ok(source) => r matches Ok(s) && s@ == source,
            Err(message) => r matches Err(e) && e@ == message,
        },
{
    match &args.input {
        Some(text) => Ok(InputSource::Given(text.clone())),
        None => match &args.input_file {
            Some(path) => Ok(InputSource::File(path.clone())),
            None => Err("--input or --input-file is required".to_owned()),
        },
    }
}

/// The members with `key` set to true, where it is asked for.
pub open spec fn with_true(members: Members, key: Seq<char>, asked: bool) -> Members {
    if asked {
        with_member(members, key, JsonView::Bool(true))
    } else {
        members
    }
}

/// The members of a response to create, before those that were added as JSON.
pub open spec fn responses_members(args: ResponsesCreateArgs, input: Seq<char>) -> Members {
    let m = with_member(no_members(), "model"@, JsonView::Text(args.model@));
    let m = with_member(m, "input"@, JsonView::Text(input));
    let m = with_opt_text(m, "instructions"@, opt_view(args.instructions));
    let m = with_opt_text(m, "previous_response_id"@, opt_view(args.previous_response_id));
    let m = with_opt(m, "temperature"@, opt_json(args.temperature));
    let m = with_opt(m, "top_p"@, opt_json(args.top_p));
    let m = with_opt(m, "max_output_tokens"@, opt_whole_number(args.max_output_tokens));
    let m = with_true(m, "store"@, args.store);
    let m = with_opt_text(m, "user"@, opt_view(args.user));
    let m = with_opt_text(m, "service_tier"@, opt_view(args.service_tier));
    let m = with_opt_text(m, "billing_mode"@, opt_view(args.billing_mode));
    with_opt(m, "retention_days"@, opt_whole_number(args.retention_days))
}

/// The body of a response to create.
pub fn responses_body(args: &ResponsesCreateArgs, input: &str) -> (r: Result<Json, String>)
    ensures
        match with_extra_text(responses_members(*args, input@), opt_view(args.extra_json)) {
            Ok(value) => r matches Ok(v) && v@ == value,
            Err(message) => r matches Err(e) && e@ == message,
        },
{
    let mut members: Vec<Member> = Vec::new();
    assert(member_views(members@) =~= no_members());
    set_text(&mut members, "model", args.model.as_str());
    set_text(&mut members, "input", input);
    set_opt_text(&mut members, "instructions", &args.instructions);
    set_opt_text(&mut members, "previous_response_id", &args.previous_response_id);
    set_opt(&mut members, "temperature", &args.temperature);
    set_opt(&mut members, "top_p", &args.top_p);
    set_opt_number(&mut members, "max_output_tokens", &args.max_output_tokens);
    if args.store {
        set_member(&mut members, "store", Json::Bool(true));
    }
    set_opt_text(&mut members, "user", &args.user);
    set_opt_text(&mut members, "service_tier", &args.service_tier);
    set_opt_text(&mut members, "billing_mode", &args.billing_mode);
    set_opt_number(&mut members, "retention_days", &args.retention_days);
    add_extra_text(members, &args.extra_json)
}

/// The path of a stored response.
pub open spec fn response_way(id: Seq<char>) -> Seq<char> {
    "/v1/responses/"@ + id
}

/// The path of a stored response.
pub fn response_path(id: &str) -> (r: String)
    ensures
        r@ == response_way(id@),
{
    cat2("/v1/responses/", id)
}

/// What a list shows of one conversation; `updated` is the time of its last change.
pub open spec fn summary_entry_at(item: SummaryView, updated: Seq<char>) -> Seq<char> {
    item.id + ("\n  model: "@ + item.model) + ("\n  updated: "@ + updated) + ("\n  messages: "@
        + decimal(item.message_count) + "\n"@)
}

/// What a list shows of one conversation.
pub open spec fn summary_entry(item: SummaryView) -> Seq<char> {
    summary_entry_at(item, opt_or_empty(full_stamp(item.updated_at.secs, item.updated_at.nanos)))
}

/// What the list of conversations shows.
pub open spec fn summaries_shown(list: Seq<SummaryView>) -> Seq<Seq<char>> {
    if list.len() == 0 {
        seq!["No saved conversations."@]
    } else {
        Seq::new(list.len(), |i: int| summary_entry(list[i]))
    }
}

/// What a list shows of one conversation; `updated` is the time of its last change.
pub fn show_summary(item: &ConversationSummary, updated: &str) -> (r: String)
    ensures
        r@ == summary_entry_at(item@, updated@),
{
    let a: String = cat2("\n  model: ", item.model.as_str());
    let b: String = cat2("\n  updated: ", updated);
    let n: String = write_decimal(item.message_count as u64);
    let c: String = cat3("\n  messages: ", n.as_str(), "\n");
    cat4(item.id.as_str(), a.as_str(), b.as_str(), c.as_str())
}

/// What the command that lists conversations prints.
pub fn conversations_output(list: &Vec<ConversationSummary>) -> (r: Vec<String>)
    ensures
        views(r@) == summaries_shown(summary_views(list@)),
{
    let mut out: Vec<String> = Vec::new();
    if list.len() == 0 {
        out.push("No saved conversations.".to_owned());
        assert(views(out@) =~= seq!["No saved conversations."@]);
        return out;
    }
    let ghost all = summary_views(list@);
    let mut i: usize = 0;
    while i < list.len()
        invariant
            i <= list@.len(),
            all == summary_views(list@),
            views(out@) =~= Seq::new(i as nat, |k: int| summary_entry(all[k])),
        decreases list@.len() - i,
    {
        let ghost before = out@;
        let updated: String = show_full(list[i].updated_at);
        out.push(show_summary(&list[i], updated.as_str()));
        assert(views(out@) =~= views(before).push(summary_entry(all[i as int])));
        i += 1;
    }
    out
}

/// What is printed when a conversation was deleted.
pub fn deleted_notice(id: &str) -> (r: String)
    ensures
        r@ == "Deleted conversation: "@ + id@,
{
    cat2("Deleted conversation: ", id)
}

/// The pairs that some texts stand for, or the complaint about the first that stands for none.
pub open spec fn pairs_meaning(items: Seq<Seq<char>>, delimiter: char) -> Result<
    Seq<PairView>,
    Seq<char>,
>
    decreases items.len(),
{
    if items.len() == 0 {
        Ok(Seq::empty())
    } else {
        match pairs_meaning(items.drop_last(), delimiter) {
            Err(message) => Err(message),
            Ok(front) => match key_value(items.last(), delimiter) {
                Some(pair) => Ok(front.push(pair)),
                None => Err("invalid pair: "@ + items.last()),
            },
        }
    }
}

proof fn lemma_first_bad_pair(items: Seq<Seq<char>>, delimiter: char, k: int)
    requires
        0 <= k <= items.len(),
        pairs_meaning(items.take(k), delimiter) is Err,
    ensures
        pairs_meaning(items, delimiter) == pairs_meaning(items.take(k), delimiter),
    decreases items.len() - k,
{
    if k < items.len() {
        assert(items.take(k + 1).drop_last() =~= items.take(k));
        lemma_first_bad_pair(items, delimiter, k + 1);
    } else {
        assert(items.take(k) =~= items);
    }
}

/// Reads texts as pairs.
pub fn parse_pairs(items: &Vec<String>, delimiter: char) -> (r: Result<Vec<Pair>, String>)
    ensures
        match pairs_meaning(views(items@), delimiter) {
            Ok(pairs) => r matches Ok(out) && pair_views(out@) == pairs,
            Err(message) => r matches Err(e) && e@ == message,
        },
{
    let mut out: Vec<Pair> = Vec::new();
    let ghost all = views(items@);
    let mut i: usize = 0;
    assert(pair_views(out@) =~= Seq::empty());
    while i < items.len()
        invariant
            i <= items@.len(),
            all == views(items@),
            pairs_meaning(all.take(i as int), delimiter) == Ok::<Seq<PairView>, Seq<char>>(
                pair_views(out@),
            ),
        decreases items@.len() - i,
    {
        proof {
            assert(all.take(i + 1).drop_last() =~= all.take(i as int));
            assert(all.take(i + 1).last() == items@[i as int]@);
        }
        match parse_key_value(items[i].as_str(), delimiter) {
            Ok(pair) => {
                let ghost before = out@;
                out.push(pair);
                assert(pair_views(out@) =~= pair_views(before).push(pair@));
            },
            Err(e) => {
                proof {
                    lemma_first_bad_pair(all, delimiter, i + 1);
                }
                return Err(e);
            },
        }
        i += 1;
    }
    assert(all.take(i as int) =~= all);
    Ok(out)
}

/// What a request that is sent as it is carries.
pub enum ApiBody {
    /// A form with fields and files.
    Form { fields: Vec<Pair>, files: Vec<Pair> },
    /// A JSON value.
    Value(Json),
    /// The JSON value in the file of this path.
    File(String),
    /// Nothing.
    Empty,
}

/// The view of an [`ApiBody`].
pub enum ApiBodyView {
    Form { fields: Seq<PairView>, files: Seq<PairView> },
    Value(JsonView),
    File(Seq<char>),
    Empty,
}

impl View for ApiBody {
    type V = ApiBodyView;

    open spec fn view(&self) -> ApiBodyView {
        match self {
            ApiBody::Form { fields, files } => ApiBodyView::Form {
                fields: pair_views(fields@),
                files: pair_views(files@),
            },
            ApiBody::Value(value) => ApiBodyView::Value(value@),
            ApiBody::File(path) => ApiBodyView::File(path@),
            ApiBody::Empty => ApiBodyView::Empty,
        }
    }
}

/// A request that is sent as it is.
pub struct ApiRequest {
    pub method: String,
    pub path: String,
    pub query: Vec<Pair>,
    pub headers: Vec<Pair>,
    pub body: ApiBody,
}

/// The view of an [`ApiRequest`].
pub struct ApiRequestView {
    pub method: Seq<char>,
    pub path: Seq<char>,
    pub query: Seq<PairView>,
    pub headers: Seq<PairView>,
    pub body: ApiBodyView,
}

impl View for ApiRequest {
    type V = ApiRequestView;

    open spec fn view(&self) -> ApiRequestView {
        ApiRequestView {
            method: self.method@,
            path: self.path@,
            query: pair_views(self.query@),
            headers: pair_views(self.headers@),
            body: self.body@,
        }
    }
}

/// The body of a request without a form: a given JSON value or a file, not both.
pub open spec fn plain_body(
    json: Option<Seq<char>>,
    parsed: Option<JsonView>,
    body_file: Option<Seq<char>>,
) -> Result<ApiBodyView, Seq<char>> {
    match (json, body_file) {
        (Some(_), Some(_)) => Err("use either --json or --body-file, not both"@),
        (Some(_), None) => match parsed {
            Some(value) => Ok(ApiBodyView::Value(value)),
            None => Err("invalid JSON in --json"@),
        },
        (None, Some(path)) => Ok(ApiBodyView::File(path)),
        (None, None) => Ok(ApiBodyView::Empty),
    }
}

/// The body of a request without a form, once the given JSON text was parsed.
pub fn choose_body(args: &ApiArgs, parsed: Option<Json>) -> (r: Result<ApiBody, String>)
    ensures
        match plain_body(opt_view(args.json), opt_json(parsed), opt_view(args.body_file)) {
            Ok(body) => r matches Ok(b) && b@ == body,
            Err(message) => r matches Err(e) && e@ == message,
        },
{
    match (&args.json, &args.body_file) {
        (Some(_), Some(_)) => Err("use either --json or --body-file, not both".to_owned()),
        (Some(_), None) => match parsed {
            Some(value) => Ok(ApiBody::Value(value)),
            None => Err("invalid JSON in --json".to_owned()),
        },
        (None, Some(path)) => Ok(ApiBody::File(path.clone())),
        (None, None) => Ok(ApiBody::Empty),
    }
}

/// The body of a request: a form where there are fields or files for one.
pub open spec fn api_body(args: ApiArgs, fields: Seq<PairView>, files: Seq<PairView>) -> Result<
    ApiBodyView,
    Seq<char>,
> {
    if fields.len() > 0 || files.len() > 0 {
        Ok(ApiBodyView::Form { fields, files })
    } else {
        plain_body(
            opt_view(args.json),
            match opt_view(args.json) {
                Some(text) => json_parse(text),
                None => None,
            },
            opt_view(args.body_file),
        )
    }
}

/// What a request that is sent as it is asks for, or the first thing that is wrong with it.
pub open spec fn api_meaning(args: ApiArgs) -> Result<ApiRequestView, Seq<char>> {
    if !is_method(args.method@) {
        Err("invalid HTTP method: "@ + args.method@)
    } else {
        match pairs_meaning(views(args.query@), '=') {
            Err(e) => Err(e),
            Ok(query) => match pairs_meaning(views(args.headers@), ':') {
                Err(e) => Err(e),
                Ok(headers) => match pairs_meaning(views(args.form_fields@), '=') {
                    Err(e) => Err(e),
                    Ok(fields) => match pairs_meaning(views(args.form_files@), '=') {
                        Err(e) => Err(e),
                        Ok(files) => match api_body(args, fields, files) {
                            Err(e) => Err(e),
                            Ok(body) => Ok(
                                ApiRequestView {
                                    method: args.method@,
                                    path: args.path@,
                                    query,
                                    headers,
                                    body,
                                },
                            ),
                        },
                    },
                },
            },
        }
    }
}

/// Reads a request that is to be sent as it is.
pub fn api_request(args: &ApiArgs) -> (r: Result<ApiRequest, String>)
    ensures
        match api_meaning(*args) {
            Ok(request) => r matches Ok(q) && q@ == request,
            Err(message) => r matches Err(e) && e@ == message,
        },
{
    if !method_is_valid(args.method.as_str()) {
        return Err(cat2("invalid HTTP method: ", args.method.as_str()));
    }
    let query: Vec<Pair> = match parse_pairs(&args.query, '=') {
        Ok(pairs) => pairs,
        Err(e) => return Err(e),
    };
    let headers: Vec<Pair> = match parse_pairs(&args.headers, ':') {
        Ok(pairs) => pairs,
        Err(e) => return Err(e),
    };
    let fields: Vec<Pair> = match parse_pairs(&args.form_fields, '=') {
        Ok(pairs) => pairs,
        Err(e) => return Err(e),
    };
    let files: Vec<Pair> = match parse_pairs(&args.form_files, '=') {
        Ok(pairs) => pairs,
        Err(e) => return Err(e),
    };
    let body: ApiBody = if fields.len() > 0 || files.len() > 0 {
        ApiBody::Form { fields, files }
    } else {
        let parsed: Option<Json> = match &args.json {
            Some(text) => parse_json(text.as_str()),
            None => None,
        };
        match choose_body(args, parsed) {
            Ok(body) => body,
            Err(e) => return Err(e),
        }
    };
    Ok(
        ApiRequest {
            method: args.method.clone(),
            path: args.path.clone(),
            query,
            headers,
            body,
        },
    )
}

/// Reads the JSON body that a file holds.
pub fn read_body_file(text: &str) -> (r: Result<Json, String>)
    ensures
        match json_parse(text@) {
            Some(value) => r matches Ok(v) && v@ == value,
            None => r matches Err(e) && e@ == "body file is not JSON"@,
        },
{
    match parse_json(text) {
        Some(value) => Ok(value),
        None => Err("body file is not JSON".to_owned()),
    }
}

/// What is said of a request that was sent as it is and did not come through.
pub open spec fn api_complaint(status: u16) -> Option<Seq<char>> {
    if status >= 400 {
        Some("request failed with status "@ + decimal(status as nat))
    } else {
        None
    }
}

/// Whether a request that was sent as it is came through.
pub fn api_outcome(status: u16) -> (r: Result<(), String>)
    ensures
        match api_complaint(status) {
            Some(message) => r matches Err(e) && e@ == message,
            None => r is Ok,
        },
{
    if status >= 400 {
        let n: String = write_decimal(status as u64);
        Err(cat2("request failed with status ", n.as_str()))
    } else {
        Ok(())
    }
}

/// What is printed of an answer: laid out over lines where that is wanted and it is JSON, else as it
/// is.
pub open spec fn api_shown(text: Seq<char>, pretty: bool) -> Seq<char> {
    if pretty {
        match json_parse(text) {
            Some(value) => json_pretty(value),
            None => text,
        }
    } else {
        text
    }
}

/// What is printed of an answer.
pub fn api_output(text: &str, pretty: bool) -> (r: String)
    ensures
        r@ == api_shown(text@, pretty),
{
    if pretty {
        if let Some(value) = parse_json(text) {
            return pretty_json(&value);
        }
    }
    text.to_owned()
}

} // verus!
