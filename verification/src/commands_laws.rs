//! What the commands ask of the API, and what they show of its answers.

use vstd::prelude::*;
use vstd::utf8::encode_utf8;

use crate::cli::{
    ApiArgs, ModelScope, ModelsArgs, ResponsesCreateArgs, WebOutput, WebProvider, WebSearchArgs,
};
use crate::client::key_value;
use crate::commands::{
    api_meaning, api_shown, model_entries, model_entry, model_id, models_shown, output_text,
    pairs_meaning, provider_text, providers_path, responses_members, scope_path, summaries_shown,
    summary_entry_at, unsigned_of, web_search_meaning, web_search_members, with_extra_text,
    with_texts, with_true, ApiBodyView,
};
use crate::conversation::SummaryView;
use crate::json::{
    json_parse, json_pretty, member, no_members, opt_json, opt_whole_number, text_of, text_views,
    then_member, with_member, with_members, with_opt, with_opt_text, JsonView, Members,
};
use crate::json_laws::{
    held, law_added_members_go_first, law_nothing_is_held_by_none, law_optional_member_is_held,
    law_optional_text_is_held, law_set_member_is_held, opt_text,
};
use crate::letter::lower;
use crate::number::decimal;
use crate::search::{contains, ends, lemma_find, occurs_at, starts};
use crate::stamp::full_stamp;
use crate::text::{opt_view, views};
use crate::wire::{form_encoded, is_method};

verus! {

/// A list of texts as a JSON value, where there are any.
pub open spec fn opt_texts(texts: Seq<Seq<char>>) -> Option<JsonView> {
    if texts.len() == 0 {
        None
    } else {
        Some(JsonView::Array(Seq::new(texts.len(), |i: int| JsonView::Text(texts[i]))))
    }
}

proof fn lemma_texts_are_held(members: Members, key: Seq<char>, texts: Seq<Seq<char>>)
    ensures
        forall|other: Seq<char>| #[trigger]
            held(with_texts(members, key, texts), other) == (if other == key && texts.len() > 0 {
                opt_texts(texts)
            } else {
                held(members, other)
            }),
{
    let value = JsonView::Array(text_views(texts));
    law_set_member_is_held(members, key, value);
    if texts.len() > 0 {
        assert(with_texts(members, key, texts) == with_member(members, key, value));
        assert(text_views(texts) =~= Seq::new(texts.len(), |i: int| JsonView::Text(texts[i])));
    } else {
        assert(with_texts(members, key, texts) == members);
    }
}

proof fn lemma_true_is_held(members: Members, key: Seq<char>, asked: bool)
    ensures
        forall|other: Seq<char>| #[trigger]
            held(with_true(members, key, asked), other) == (if other == key && asked {
                Some(JsonView::Bool(true))
            } else {
                held(members, other)
            }),
{
    law_set_member_is_held(members, key, JsonView::Bool(true));
    if asked {
        assert(with_true(members, key, asked) == with_member(members, key, JsonView::Bool(true)));
    } else {
        assert(with_true(members, key, asked) == members);
    }
}

/// In the body of a web search each setting stands under its own key with its own value, whatever the
/// others are: the domains to search and those to leave out are told apart, what was not given is not
/// there, and nothing else is.
#[verifier::rlimit(50)]
pub proof fn law_search_settings_stand_under_their_keys(args: WebSearchArgs, key: Seq<char>)
    ensures
        held(web_search_members(args), "query"@) == Some(JsonView::Text(args.query@)),
        held(web_search_members(args), "provider"@) == Some(JsonView::Text(provider_text(args.provider))),
        held(web_search_members(args), "depth"@) == Some(JsonView::Text(args.depth@)),
        held(web_search_members(args), "outputType"@) == Some(JsonView::Text(output_text(args.output))),
        held(web_search_members(args), "includeImages"@) == Some(JsonView::Bool(args.include_images)),
        held(web_search_members(args), "structuredOutputSchema"@) == opt_text(opt_view(args.structured_schema)),
        held(web_search_members(args), "fromDate"@) == opt_text(opt_view(args.from_date)),
        held(web_search_members(args), "toDate"@) == opt_text(opt_view(args.to_date)),
        held(web_search_members(args), "includeDomains"@) == opt_texts(views(args.include_domains@)),
        held(web_search_members(args), "excludeDomains"@) == opt_texts(views(args.exclude_domains@)),
        key != "query"@ && key != "provider"@ && key != "depth"@ && key != "outputType"@
            && key != "includeImages"@ && key != "structuredOutputSchema"@ && key != "fromDate"@
            && key != "toDate"@ && key != "includeDomains"@
            && key != "excludeDomains"@ ==> held(web_search_members(args), key) is None,
{
    reveal_strlit("query");
    reveal_strlit("provider");
    reveal_strlit("depth");
    reveal_strlit("outputType");
    reveal_strlit("includeImages");
    reveal_strlit("structuredOutputSchema");
    reveal_strlit("fromDate");
    reveal_strlit("toDate");
    reveal_strlit("includeDomains");
    reveal_strlit("excludeDomains");
    assert("query"@.len() == 5);
    assert("provider"@.len() == 8);
    assert("depth"@.len() == 5);
    assert("outputType"@.len() == 10);
    assert("includeImages"@.len() == 13);
    assert("structuredOutputSchema"@.len() == 22);
    assert("fromDate"@.len() == 8);
    assert("toDate"@.len() == 6);
    assert("includeDomains"@.len() == 14);
    assert("excludeDomains"@.len() == 14);
    assert("query"@[0] != "depth"@[0]);
    assert("provider"@[0] != "fromDate"@[0]);
    assert("includeDomains"@[0] != "excludeDomains"@[0]);
    let m0 = no_members();
    let m1 = with_member(m0, "query"@, JsonView::Text(args.query@));
    law_set_member_is_held(m0, "query"@, JsonView::Text(args.query@));
    let m2 = with_member(m1, "provider"@, JsonView::Text(provider_text(args.provider)));
    law_set_member_is_held(m1, "provider"@, JsonView::Text(provider_text(args.provider)));
    let m3 = with_member(m2, "depth"@, JsonView::Text(args.depth@));
    law_set_member_is_held(m2, "depth"@, JsonView::Text(args.depth@));
    let m4 = with_member(m3, "outputType"@, JsonView::Text(output_text(args.output)));
    law_set_member_is_held(m3, "outputType"@, JsonView::Text(output_text(args.output)));
    let m5 = with_member(m4, "includeImages"@, JsonView::Bool(args.include_images));
    law_set_member_is_held(m4, "includeImages"@, JsonView::Bool(args.include_images));
    let m6 = with_opt_text(m5, "structuredOutputSchema"@, opt_view(args.structured_schema));
    law_optional_text_is_held(m5, "structuredOutputSchema"@, opt_view(args.structured_schema));
    let m7 = with_opt_text(m6, "fromDate"@, opt_view(args.from_date));
    law_optional_text_is_held(m6, "fromDate"@, opt_view(args.from_date));
    let m8 = with_opt_text(m7, "toDate"@, opt_view(args.to_date));
    law_optional_text_is_held(m7, "toDate"@, opt_view(args.to_date));
    let m9 = with_texts(m8, "includeDomains"@, views(args.include_domains@));
    lemma_texts_are_held(m8, "includeDomains"@, views(args.include_domains@));
    let m10 = with_texts(m9, "excludeDomains"@, views(args.exclude_domains@));
    lemma_texts_are_held(m9, "excludeDomains"@, views(args.exclude_domains@));
    assert(m10 == web_search_members(args));
    law_nothing_is_held_by_none("structuredOutputSchema"@);
    law_nothing_is_held_by_none("fromDate"@);
    law_nothing_is_held_by_none("toDate"@);
    law_nothing_is_held_by_none("includeDomains"@);
    law_nothing_is_held_by_none("excludeDomains"@);
    law_nothing_is_held_by_none(key);
}

/// A web search is refused exactly where a structured answer is wanted without its shape, or where
/// what is to be added is no JSON object; without anything to add, the body holds the settings.
pub proof fn law_which_searches_are_made(args: WebSearchArgs)
    ensures
        web_search_meaning(args) is Ok <==> !(args.output is Structured && args.structured_schema
            is None) && (args.extra_json matches Some(text) ==> json_parse(text@) matches Some(
            JsonView::Object(_),
        )),
        !(args.output is Structured && args.structured_schema is None) && args.extra_json is None
            ==> web_search_meaning(args) == Ok::<JsonView, Seq<char>>(
            JsonView::Object(web_search_members(args)),
        ),
{
}

/// What is added to a body as JSON goes before its settings, and the settings that it does not name
/// stay.
pub proof fn law_added_json_goes_first(members: Members, text: Seq<char>, more: Members, key: Seq<char>)
    requires
        json_parse(text) == Some(JsonView::Object(more)),
    ensures
        with_extra_text(members, Some(text)) matches Ok(body) && {
            &&& forall|i: int| #[trigger]
                crate::json_laws::is_last_of(more, i) ==> member(body, more[i].0) == Some(more[i].1)
            &&& (forall|i: int| 0 <= i < more.len() ==> (#[trigger] more[i]).0 != key) ==> member(
                body,
                key,
            ) == held(members, key)
        },
{
    law_added_members_go_first(members, more);
    let all = with_members(members, more);
    assert forall|i: int| #[trigger] crate::json_laws::is_last_of(more, i) implies member(
        JsonView::Object(all),
        more[i].0,
    ) == Some(more[i].1) by {
        assert(held(all, more[i].0) == Some(more[i].1));
    }
    assert(held(all, key) == member(JsonView::Object(all), key));
}

/// In the body of a response each setting stands under its own key with its own value, whatever the
/// others are; what was not given is not there, and nothing else is.
#[verifier::rlimit(50)]
pub proof fn law_response_settings_stand_under_their_keys(
    args: ResponsesCreateArgs,
    input: Seq<char>,
    key: Seq<char>,
)
    ensures
        held(responses_members(args, input), "model"@) == Some(JsonView::Text(args.model@)),
        held(responses_members(args, input), "input"@) == Some(JsonView::Text(input)),
        held(responses_members(args, input), "instructions"@) == opt_text(opt_view(args.instructions)),
        held(responses_members(args, input), "previous_response_id"@) == opt_text(opt_view(args.previous_response_id)),
        held(responses_members(args, input), "temperature"@) == opt_json(args.temperature),
        held(responses_members(args, input), "top_p"@) == opt_json(args.top_p),
        held(responses_members(args, input), "max_output_tokens"@) == (match args.max_output_tokens {
            Some(n) => Some(JsonView::Number(decimal(n as nat))),
            None => None,
        }),
        held(responses_members(args, input), "store"@) == (if args.store {
            Some(JsonView::Bool(true))
        } else {
            None
        }),
        held(responses_members(args, input), "user"@) == opt_text(opt_view(args.user)),
        held(responses_members(args, input), "service_tier"@) == opt_text(opt_view(args.service_tier)),
        held(responses_members(args, input), "billing_mode"@) == opt_text(opt_view(args.billing_mode)),
        held(responses_members(args, input), "retention_days"@) == (match args.retention_days {
            Some(n) => Some(JsonView::Number(decimal(n as nat))),
            None => None,
        }),
        key != "model"@ && key != "input"@ && key != "instructions"@
            && key != "previous_response_id"@ && key != "temperature"@ && key != "top_p"@
            && key != "max_output_tokens"@ && key != "store"@ && key != "user"@
            && key != "service_tier"@ && key != "billing_mode"@
            && key != "retention_days"@ ==> held(responses_members(args, input), key) is None,
{
    reveal_strlit("model");
    reveal_strlit("input");
    reveal_strlit("instructions");
    reveal_strlit("previous_response_id");
    reveal_strlit("temperature");
    reveal_strlit("top_p");
    reveal_strlit("max_output_tokens");
    reveal_strlit("store");
    reveal_strlit("user");
    reveal_strlit("service_tier");
    reveal_strlit("billing_mode");
    reveal_strlit("retention_days");
    assert("model"@.len() == 5);
    assert("input"@.len() == 5);
    assert("instructions"@.len() == 12);
    assert("previous_response_id"@.len() == 20);
    assert("temperature"@.len() == 11);
    assert("top_p"@.len() == 5);
    assert("max_output_tokens"@.len() == 17);
    assert("store"@.len() == 5);
    assert("user"@.len() == 4);
    assert("service_tier"@.len() == 12);
    assert("billing_mode"@.len() == 12);
    assert("retention_days"@.len() == 14);
    assert("model"@[0] != "input"@[0]);
    assert("model"@[0] != "top_p"@[0]);
    assert("model"@[0] != "store"@[0]);
    assert("input"@[0] != "top_p"@[0]);
    assert("input"@[0] != "store"@[0]);
    assert("instructions"@[0] != "service_tier"@[0]);
    assert("instructions"@[0] != "billing_mode"@[0]);
    assert("top_p"@[0] != "store"@[0]);
    assert("service_tier"@[0] != "billing_mode"@[0]);
    let m0 = no_members();
    let m1 = with_member(m0, "model"@, JsonView::Text(args.model@));
    law_set_member_is_held(m0, "model"@, JsonView::Text(args.model@));
    let m2 = with_member(m1, "input"@, JsonView::Text(input));
    law_set_member_is_held(m1, "input"@, JsonView::Text(input));
    let m3 = with_opt_text(m2, "instructions"@, opt_view(args.instructions));
    law_optional_text_is_held(m2, "instructions"@, opt_view(args.instructions));
    let m4 = with_opt_text(m3, "previous_response_id"@, opt_view(args.previous_response_id));
    law_optional_text_is_held(m3, "previous_response_id"@, opt_view(args.previous_response_id));
    let m5 = with_opt(m4, "temperature"@, opt_json(args.temperature));
    law_optional_member_is_held(m4, "temperature"@, opt_json(args.temperature));
    let m6 = with_opt(m5, "top_p"@, opt_json(args.top_p));
    law_optional_member_is_held(m5, "top_p"@, opt_json(args.top_p));
    let m7 = with_opt(m6, "max_output_tokens"@, opt_whole_number(args.max_output_tokens));
    law_optional_member_is_held(m6, "max_output_tokens"@, opt_whole_number(args.max_output_tokens));
    let m8 = with_true(m7, "store"@, args.store);
    lemma_true_is_held(m7, "store"@, args.store);
    let m9 = with_opt_text(m8, "user"@, opt_view(args.user));
    law_optional_text_is_held(m8, "user"@, opt_view(args.user));
    let m10 = with_opt_text(m9, "service_tier"@, opt_view(args.service_tier));
    law_optional_text_is_held(m9, "service_tier"@, opt_view(args.service_tier));
    let m11 = with_opt_text(m10, "billing_mode"@, opt_view(args.billing_mode));
    law_optional_text_is_held(m10, "billing_mode"@, opt_view(args.billing_mode));
    let m12 = with_opt(m11, "retention_days"@, opt_whole_number(args.retention_days));
    law_optional_member_is_held(m11, "retention_days"@, opt_whole_number(args.retention_days));
    assert(m12 == responses_members(args, input));
    law_nothing_is_held_by_none("instructions"@);
    law_nothing_is_held_by_none("previous_response_id"@);
    law_nothing_is_held_by_none("temperature"@);
    law_nothing_is_held_by_none("top_p"@);
    law_nothing_is_held_by_none("max_output_tokens"@);
    law_nothing_is_held_by_none("store"@);
    law_nothing_is_held_by_none("user"@);
    law_nothing_is_held_by_none("service_tier"@);
    law_nothing_is_held_by_none("billing_mode"@);
    law_nothing_is_held_by_none("retention_days"@);
    law_nothing_is_held_by_none(key);
}

/// Each provider of web searches is sent under its own name.
pub proof fn law_search_providers_are_named(provider: WebProvider)
    ensures
        provider is Linkup <==> provider_text(provider) == "linkup"@,
        provider is Tavily <==> provider_text(provider) == "tavily"@,
        provider is Exa <==> provider_text(provider) == "exa"@,
        provider is Kagi <==> provider_text(provider) == "kagi"@,
        provider is Perplexity <==> provider_text(provider) == "perplexity"@,
        provider is Valyu <==> provider_text(provider) == "valyu"@,
        provider is Brave <==> provider_text(provider) == "brave"@,
{
    reveal_strlit("linkup");
    reveal_strlit("tavily");
    reveal_strlit("exa");
    reveal_strlit("kagi");
    reveal_strlit("perplexity");
    reveal_strlit("valyu");
    reveal_strlit("brave");
    assert("linkup"@.len() == 6);
    assert("tavily"@.len() == 6);
    assert("exa"@.len() == 3);
    assert("kagi"@.len() == 4);
    assert("perplexity"@.len() == 10);
    assert("valyu"@.len() == 5);
    assert("brave"@.len() == 5);
    assert("linkup"@[0] != "tavily"@[0]);
    assert("valyu"@[0] != "brave"@[0]);
}

/// Each kind of answer of a web search is sent under its own name.
pub proof fn law_search_answers_are_named(output: WebOutput)
    ensures
        output is SearchResults <==> output_text(output) == "searchResults"@,
        output is SourcedAnswer <==> output_text(output) == "sourcedAnswer"@,
        output is Structured <==> output_text(output) == "structured"@,
{
    reveal_strlit("searchResults");
    reveal_strlit("sourcedAnswer");
    reveal_strlit("structured");
    assert("searchResults"@.len() == 13);
    assert("sourcedAnswer"@.len() == 13);
    assert("structured"@.len() == 10);
    assert("searchResults"@[1] != "sourcedAnswer"@[1]);
}

/// Each catalog of models has its own path.
pub proof fn law_catalogs_have_their_paths(scope: ModelScope)
    ensures
        scope is Canonical <==> scope_path(scope) == "/v1/models"@,
        scope is Subscription <==> scope_path(scope) == "/subscription/v1/models"@,
        scope is Paid <==> scope_path(scope) == "/paid/v1/models"@,
{
    reveal_strlit("/v1/models");
    reveal_strlit("/subscription/v1/models");
    reveal_strlit("/paid/v1/models");
    assert("/v1/models"@.len() == 10);
    assert("/subscription/v1/models"@.len() == 23);
    assert("/paid/v1/models"@.len() == 15);
}

/// The providers of a model stand at a path that holds its name as one segment, between the models and
/// the word for providers.
pub proof fn law_providers_stand_below_their_model(model: Seq<char>, i: int)
    ensures
        starts(providers_path(model), "/models/"@),
        ends(providers_path(model), "/providers"@),
        providers_path(model) == "/models/"@ + form_encoded(encode_utf8(model)) + "/providers"@,
        0 <= i < form_encoded(encode_utf8(model)).len() ==> form_encoded(encode_utf8(model))[i] != '/',
{
    reveal_strlit("/models/");
    reveal_strlit("/providers");
    let path = providers_path(model);
    assert(path.take(8) =~= "/models/"@);
    assert(path.skip(path.len() - 10) =~= "/providers"@);
    crate::wire::law_encoded_stays_in_its_segment(encode_utf8(model));
}

/// A list shows one entry for each model whose name holds the filter, whatever its case, in the order
/// of the models; without a filter it shows them all.
pub proof fn law_list_shows_what_passes(
    models: Seq<JsonView>,
    model: JsonView,
    detailed: bool,
    filter: Option<Seq<char>>,
)
    ensures
        model_entries(Seq::empty(), detailed, filter).len() == 0,
        (filter matches Some(text) ==> contains(lower(model_id(model)), text)) ==> model_entries(
            models.push(model),
            detailed,
            filter,
        ) == model_entries(models, detailed, filter).push(model_entry(model, detailed)),
        (filter matches Some(text) && !contains(lower(model_id(model)), text)) ==> model_entries(
            models.push(model),
            detailed,
            filter,
        ) == model_entries(models, detailed, filter),
        filter is None ==> model_entries(models, detailed, filter).len() == models.len(),
{
    assert(models.push(model).drop_last() =~= models);
    assert(models.push(model).last() == model);
    if filter is None {
        lemma_all_models_are_shown(models, detailed);
    }
}

proof fn lemma_all_models_are_shown(models: Seq<JsonView>, detailed: bool)
    ensures
        model_entries(models, detailed, None).len() == models.len(),
    decreases models.len(),
{
    if models.len() > 0 {
        lemma_all_models_are_shown(models.drop_last(), detailed);
    }
}

/// A short entry is the name of its model; a model without a name is said to be unknown.
pub proof fn law_entry_names_its_model(model: JsonView, name: Seq<char>)
    ensures
        member(model, "id"@) == Some(JsonView::Text(name)) ==> model_entry(model, false) == name
            && starts(model_entry(model, true), name),
        member(model, "id"@) is None ==> model_entry(model, false) == "<unknown>"@,
{
    if member(model, "id"@) == Some(JsonView::Text(name)) {
        assert(model_entry(model, true).take(name.len() as int) =~= name);
    }
}

proof fn lemma_part_is_contained(front: Seq<char>, part: Seq<char>, back: Seq<char>)
    ensures
        contains(front + part + back, part),
{
    let s = front + part + back;
    let n = front.len() as int;
    assert(s.subrange(n, n + part.len()) =~= part);
    assert(occurs_at(s, part, n));
    lemma_find(s, part);
}

/// A detailed entry tells who owns a model, whether the subscription holds it, how long its context
/// is, and what it is.
pub proof fn law_detailed_entry_tells_all(
    model: JsonView,
    owner: Seq<char>,
    included: bool,
    length: nat,
    description: Seq<char>,
)
    ensures
        member(model, "owned_by"@) == Some(JsonView::Text(owner)) ==> contains(
            model_entry(model, true),
            "\n  owned_by: "@ + owner,
        ),
        then_member(member(model, "subscription"@), "included"@) == Some(JsonView::Bool(included))
            ==> contains(
            model_entry(model, true),
            "\n  subscription: "@ + if included {
                "yes"@
            } else {
                "no"@
            },
        ),
        unsigned_of(member(model, "context_length"@)) == Some(length) ==> contains(
            model_entry(model, true),
            "\n  context: "@ + decimal(length),
        ),
        member(model, "description"@) == Some(JsonView::Text(description)) ==> contains(
            model_entry(model, true),
            "\n  description: "@ + description,
        ),
{
    let all = model_entry(model, true);
    let a = "\n  owned_by: "@ + crate::text::opt_or_empty(text_of(member(model, "owned_by"@)));
    let b = "\n  subscription: "@ + (match crate::json::bool_of(
        then_member(member(model, "subscription"@), "included"@),
    ) {
        Some(true) => "yes"@,
        Some(false) => "no"@,
        None => "-"@,
    });
    let c = "\n  context: "@ + (match unsigned_of(member(model, "context_length"@)) {
        Some(n) => decimal(n),
        None => "-"@,
    });
    let d = "\n  description: "@ + crate::text::opt_or_empty(text_of(member(model, "description"@)));
    let name = model_id(model);
    assert(all =~= name + a + (b + c + d + "\n"@));
    lemma_part_is_contained(name, a, b + c + d + "\n"@);
    assert(all =~= (name + a) + b + (c + d + "\n"@));
    lemma_part_is_contained(name + a, b, c + d + "\n"@);
    assert(all =~= (name + a + b) + c + (d + "\n"@));
    lemma_part_is_contained(name + a + b, c, d + "\n"@);
    assert(all =~= (name + a + b + c) + d + "\n"@);
    lemma_part_is_contained(name + a + b + c, d, "\n"@);
}

/// The models are shown as a list unless the answer itself is wanted, or the providers of one model;
/// the filter is compared in lower case.
pub proof fn law_models_are_shown_as_asked(value: JsonView, models: Seq<JsonView>, args: ModelsArgs)
    ensures
        args.json || args.show_providers_for is Some ==> models_shown(value, args) == Ok::<
            Seq<Seq<char>>,
            Seq<char>,
        >(seq![json_pretty(value)]),
        !args.json && args.show_providers_for is None && member(value, "data"@) == Some(
            JsonView::Array(models),
        ) ==> models_shown(value, args) == Ok::<Seq<Seq<char>>, Seq<char>>(
            model_entries(
                models,
                args.detailed,
                match args.filter {
                    Some(text) => Some(lower(text@)),
                    None => None,
                },
            ),
        ),
        !args.json && args.show_providers_for is None && !(member(value, "data"@) matches Some(
            JsonView::Array(_),
        )) ==> models_shown(value, args) is Err,
{
}

/// The list of conversations tells of each, in order, its name, model, time and number of messages.
pub proof fn law_list_tells_of_each(list: Seq<SummaryView>, i: int, updated: Seq<char>)
    ensures
        list.len() > 0 ==> summaries_shown(list).len() == list.len(),
        0 <= i < list.len() && full_stamp(list[i].updated_at.secs, list[i].updated_at.nanos) == Some(
            updated,
        ) ==> summaries_shown(list)[i] == summary_entry_at(list[i], updated),
        0 <= i < list.len() ==> starts(summary_entry_at(list[i], updated), list[i].id) && contains(
            summary_entry_at(list[i], updated),
            "\n  model: "@ + list[i].model,
        ) && contains(summary_entry_at(list[i], updated), "\n  updated: "@ + updated) && contains(
            summary_entry_at(list[i], updated),
            "\n  messages: "@ + decimal(list[i].message_count) + "\n"@,
        ),
        list.len() == 0 ==> summaries_shown(list) == seq!["No saved conversations."@],
{
    if 0 <= i < list.len() {
        let item = list[i];
        let all = summary_entry_at(item, updated);
        let a = "\n  model: "@ + item.model;
        let b = "\n  updated: "@ + updated;
        let c = "\n  messages: "@ + decimal(item.message_count) + "\n"@;
        assert(all.take(item.id.len() as int) =~= item.id);
        assert(all =~= item.id + a + (b + c));
        lemma_part_is_contained(item.id, a, b + c);
        assert(all =~= (item.id + a) + b + c);
        lemma_part_is_contained(item.id + a, b, c);
        assert(all =~= (item.id + a + b) + c + Seq::<char>::empty());
        lemma_part_is_contained(item.id + a + b, c, Seq::empty());
    }
}

/// Texts are read as pairs where each of them is one: as many pairs, in the same order.
pub proof fn law_pairs_stay_in_order(items: Seq<Seq<char>>, delimiter: char)
    ensures
        pairs_meaning(items, delimiter) matches Ok(pairs) ==> pairs.len() == items.len()
            && forall|i: int|
            0 <= i < items.len() ==> key_value(#[trigger] items[i], delimiter) == Some(pairs[i]),
        pairs_meaning(items, delimiter) is Ok <==> forall|i: int|
            0 <= i < items.len() ==> key_value(#[trigger] items[i], delimiter) is Some,
    decreases items.len(),
{
    if items.len() > 0 {
        let front = items.drop_last();
        let last = items.len() - 1;
        law_pairs_stay_in_order(front, delimiter);
        assert(items[last] == items.last());
        if let Ok(pairs) = pairs_meaning(items, delimiter) {
            assert forall|i: int| 0 <= i < items.len() implies key_value(
                #[trigger] items[i],
                delimiter,
            ) == Some(pairs[i]) by {
                if i < last {
                    assert(front[i] == items[i]);
                }
            }
        }
        if forall|i: int|
            0 <= i < items.len() ==> key_value(#[trigger] items[i], delimiter) is Some {
            assert forall|i: int| 0 <= i < front.len() implies key_value(
                #[trigger] front[i],
                delimiter,
            ) is Some by {
                assert(front[i] == items[i]);
            }
        }
    }
}

/// A request that is sent as it is goes where it was told to, with the query and the headers that were
/// given: the query and the form are written with `=`, the headers with `:`.
pub proof fn law_request_is_sent_as_told(args: ApiArgs)
    ensures
        api_meaning(args) matches Ok(request) ==> {
            &&& request.method == args.method@
            &&& request.path == args.path@
            &&& request.query.len() == args.query@.len()
            &&& request.headers.len() == args.headers@.len()
            &&& forall|i: int|
                0 <= i < args.query@.len() ==> key_value(#[trigger] args.query@[i]@, '=') == Some(
                    request.query[i],
                )
            &&& forall|i: int|
                0 <= i < args.headers@.len() ==> key_value(#[trigger] args.headers@[i]@, ':') == Some(
                    request.headers[i],
                )
        },
        !is_method(args.method@) ==> api_meaning(args) is Err,
{
    law_pairs_stay_in_order(views(args.query@), '=');
    law_pairs_stay_in_order(views(args.headers@), ':');
    if let Ok(request) = api_meaning(args) {
        assert forall|i: int| 0 <= i < args.query@.len() implies key_value(
            #[trigger] args.query@[i]@,
            '=',
        ) == Some(request.query[i]) by {
            assert(views(args.query@)[i] == args.query@[i]@);
        }
        assert forall|i: int| 0 <= i < args.headers@.len() implies key_value(
            #[trigger] args.headers@[i]@,
            ':',
        ) == Some(request.headers[i]) by {
            assert(views(args.headers@)[i] == args.headers@[i]@);
        }
    }
}

/// A request carries a form exactly where fields or files for one were given, each in its place; else
/// it carries the JSON value that was given, or the file, or nothing.
pub proof fn law_body_is_what_was_given(args: ApiArgs)
    ensures
        api_meaning(args) matches Ok(request) ==> {
            &&& request.body is Form <==> args.form_fields@.len() > 0 || args.form_files@.len() > 0
            &&& request.body matches ApiBodyView::Form { fields, files } ==> {
                &&& fields.len() == args.form_fields@.len()
                &&& files.len() == args.form_files@.len()
                &&& forall|i: int|
                    0 <= i < fields.len() ==> key_value(#[trigger] args.form_fields@[i]@, '=')
                        == Some(fields[i])
                &&& forall|i: int|
                    0 <= i < files.len() ==> key_value(#[trigger] args.form_files@[i]@, '=') == Some(
                        files[i],
                    )
            }
            &&& request.body matches ApiBodyView::Value(value) ==> args.json is Some
                && args.body_file is None && json_parse(args.json.unwrap()@) == Some(value)
            &&& request.body matches ApiBodyView::File(path) ==> args.json is None
                && args.body_file is Some && args.body_file.unwrap()@ == path
            &&& request.body is Empty ==> args.json is None && args.body_file is None
        },
        args.form_fields@.len() == 0 && args.form_files@.len() == 0 && args.json is Some
            && args.body_file is Some ==> api_meaning(args) is Err,
{
    law_pairs_stay_in_order(views(args.form_fields@), '=');
    law_pairs_stay_in_order(views(args.form_files@), '=');
    if let Ok(request) = api_meaning(args) {
        if let ApiBodyView::Form { fields, files } = request.body {
            assert forall|i: int| 0 <= i < fields.len() implies key_value(
                #[trigger] args.form_fields@[i]@,
                '=',
            ) == Some(fields[i]) by {
                assert(views(args.form_fields@)[i] == args.form_fields@[i]@);
            }
            assert forall|i: int| 0 <= i < files.len() implies key_value(
                #[trigger] args.form_files@[i]@,
                '=',
            ) == Some(files[i]) by {
                assert(views(args.form_files@)[i] == args.form_files@[i]@);
            }
        }
    }
}

/// An answer is laid out only where that is wanted and it is JSON; else it is shown as it is.
pub proof fn law_answer_is_shown_as_wanted(text: Seq<char>, pretty: bool)
    ensures
        !pretty || json_parse(text) is None ==> api_shown(text, pretty) == text,
        pretty ==> (json_parse(text) matches Some(value) ==> api_shown(text, pretty) == json_pretty(
            value,
        )),
{
}

} // verus!
