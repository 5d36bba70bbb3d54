//! What the command line asks for.
//!
//! Fractional numbers stand as the JSON value that is sent for them.

use vstd::prelude::*;

use crate::json::Json;
use crate::text::copy_opt;

verus! {

/// Everything that was given on the command line.
pub struct Cli {
    /// The API key.
    pub api_key: Option<String>,
    /// The base URL of the API.
    pub base_url: String,
    /// How long a request may take, in seconds.
    pub timeout_secs: u64,
    /// What to do; the full-screen chat where nothing is said.
    pub command: Option<Command>,
}

/// What to do.
pub enum Command {
    /// Chat line by line.
    Chat(ChatArgs),
    /// Chat on the full screen.
    Tui(TuiArgs),
    /// List the models.
    Models(ModelsArgs),
    /// Search the web.
    WebSearch(WebSearchArgs),
    /// Show the balance of the account.
    Balance,
    /// Work with stored responses.
    Responses(ResponsesArgs),
    /// Work with stored conversations.
    Conversations(ConversationsArgs),
    /// Send a request as it is.
    Api(ApiArgs),
}

/// How to chat line by line.
pub struct ChatArgs {
    pub model: String,
    pub system: Option<String>,
    pub conversation: Option<String>,
    /// Show the answer as it comes in.
    pub stream: bool,
    /// Let the model search the web.
    pub web: bool,
    /// Let the model search the web deeply.
    pub deep_web: bool,
    pub temperature: Option<Json>,
    pub max_tokens: Option<u32>,
    pub top_p: Option<Json>,
    pub provider: Option<String>,
    pub billing_mode: Option<String>,
    pub service_tier: Option<String>,
    pub reasoning_effort: Option<String>,
}

/// How to chat on the full screen.
pub struct TuiArgs {
    pub model: String,
    /// The directory that the agent's tools work in.
    pub workspace: Option<String>,
    pub system: Option<String>,
    pub conversation: Option<String>,
    /// Let the model search the web.
    pub web: bool,
    /// Let the model search the web deeply.
    pub deep_web: bool,
    pub temperature: Option<Json>,
    pub max_tokens: Option<u32>,
    pub top_p: Option<Json>,
    pub provider: Option<String>,
    pub billing_mode: Option<String>,
    pub service_tier: Option<String>,
    pub reasoning_effort: Option<String>,
}

impl TuiArgs {
    /// Nothing is asked for but the model.
    pub open spec fn only_model(self, model: Seq<char>) -> bool {
        &&& self.model@ == model
        &&& self.workspace is None
        &&& self.system is None
        &&& self.conversation is None
        &&& !self.web
        &&& !self.deep_web
        &&& self.temperature is None
        &&& self.max_tokens is None
        &&& self.top_p is None
        &&& self.provider is None
        &&& self.billing_mode is None
        &&& self.service_tier is None
        &&& self.reasoning_effort is None
    }
}

impl Default for TuiArgs {
    fn default() -> (r: Self)
        ensures
            r.only_model("openai/gpt-5.2"@),
    {
        TuiArgs {
            model: "openai/gpt-5.2".to_owned(),
            workspace: None,
            system: None,
            conversation: None,
            web: false,
            deep_web: false,
            temperature: None,
            max_tokens: None,
            top_p: None,
            provider: None,
            billing_mode: None,
            service_tier: None,
            reasoning_effort: None,
        }
    }
}

/// Which catalog of models.
#[derive(Debug, Clone, Copy, PartialEq, Eq, Structural)]
pub enum ModelScope {
    Canonical,
    Subscription,
    Paid,
}

/// How to list the models.
pub struct ModelsArgs {
    /// Show what is known of each model.
    pub detailed: bool,
    pub scope: ModelScope,
    /// Show the models with this text in their name.
    pub filter: Option<String>,
    /// Show the providers of this model instead.
    pub show_providers_for: Option<String>,
    /// Show the answer as it is.
    pub json: bool,
}

/// What a web search gives back.
#[derive(Debug, Clone, Copy, PartialEq, Eq, Structural)]
pub enum WebOutput {
    SearchResults,
    SourcedAnswer,
    Structured,
}

/// Who searches the web.
#[derive(Debug, Clone, Copy, PartialEq, Eq, Structural)]
pub enum WebProvider {
    Linkup,
    Tavily,
    Exa,
    Kagi,
    Perplexity,
    Valyu,
    Brave,
}

/// How to search the web.
pub struct WebSearchArgs {
    pub query: String,
    pub provider: WebProvider,
    pub depth: String,
    pub output: WebOutput,
    /// The shape of a structured answer.
    pub structured_schema: Option<String>,
    pub from_date: Option<String>,
    pub to_date: Option<String>,
    pub include_domains: Vec<String>,
    pub exclude_domains: Vec<String>,
    pub include_images: bool,
    /// More members of the request, as a JSON object.
    pub extra_json: Option<String>,
    /// Show the answer as it is.
    pub json: bool,
}

/// How to work with stored responses.
pub struct ResponsesArgs {
    pub command: ResponsesCommand,
}

/// What to do with stored responses.
pub enum ResponsesCommand {
    Create(ResponsesCreateArgs),
    Get(ResponsesGetArgs),
    Delete(ResponsesGetArgs),
    Info,
}

/// How to create a response.
pub struct ResponsesCreateArgs {
    pub model: String,
    pub input: Option<String>,
    /// The file that holds the input.
    pub input_file: Option<String>,
    pub instructions: Option<String>,
    pub previous_response_id: Option<String>,
    pub temperature: Option<Json>,
    pub top_p: Option<Json>,
    pub max_output_tokens: Option<u32>,
    pub store: bool,
    pub user: Option<String>,
    pub service_tier: Option<String>,
    pub billing_mode: Option<String>,
    pub retention_days: Option<u32>,
    /// More members of the request, as a JSON object.
    pub extra_json: Option<String>,
}

/// Which stored response.
#[derive(Debug)]
pub struct ResponsesGetArgs {
    pub id: String,
}

/// How to work with stored conversations.
#[derive(Debug)]
pub struct ConversationsArgs {
    pub command: ConversationsCommand,
}

/// What to do with stored conversations.
#[derive(Debug)]
pub enum ConversationsCommand {
    List,
    Show { id: String },
    Delete { id: String },
}

/// A request to send as it is.
#[derive(Debug)]
pub struct ApiArgs {
    pub method: String,
    pub path: String,
    /// `key=value` pairs of the query.
    pub query: Vec<String>,
    /// `key:value` headers.
    pub headers: Vec<String>,
    /// A JSON body.
    pub json: Option<String>,
    /// The file that holds a JSON body.
    pub body_file: Option<String>,
    /// `key=value` fields of a form.
    pub form_fields: Vec<String>,
    /// `key=path` files of a form.
    pub form_files: Vec<String>,
    /// Lay JSON out over lines.
    pub pretty: bool,
}

/// The API key to use: the given one, or else the stored one.
pub open spec fn key_to_use(given: Option<Seq<char>>, stored: Option<Seq<char>>) -> Option<Seq<char>> {
    match given {
        Some(key) => Some(key),
        None => stored,
    }
}

/// The API key to use: the given one, or else the stored one.
pub fn resolve_api_key(given: &Option<String>, stored: &Option<String>) -> (r: Option<String>)
    ensures
        crate::text::opt_view(r) == key_to_use(
            crate::text::opt_view(*given),
            crate::text::opt_view(*stored),
        ),
{
    match given {
        Some(key) => Some(key.clone()),
        None => copy_opt(stored),
    }
}

/// Whether a command is what to do: what was asked for, or else the full-screen chat with the stored
/// model.
pub open spec fn is_what_to_do(
    command: Command,
    asked: Option<Command>,
    default_model: Option<Seq<char>>,
) -> bool {
    match asked {
        Some(wanted) => command == wanted,
        None => command matches Command::Tui(args) && args.only_model(
            match default_model {
                Some(model) => model,
                None => "openai/gpt-5.2"@,
            },
        ),
    }
}

/// What to do: what was asked for, or else the full-screen chat with the stored model.
pub fn resolve_command(asked: Option<Command>, default_model: &Option<String>) -> (r: Command)
    ensures
        is_what_to_do(r, asked, crate::text::opt_view(*default_model)),
{
    match asked {
        Some(command) => command,
        None => {
            let mut args: TuiArgs = TuiArgs::default();
            if let Some(model) = default_model {
                args.model = model.clone();
            }
            Command::Tui(args)
        },
    }
}

} // verus!
