//! Web searches: what the model may ask for, what the provider is sent, and what the
//! client sees of it.
use vstd::prelude::*;

use crate::custom::trim_opt;
use crate::data::{copy_opt, copy_opt_vec, copy_vec, same_opt, same_opt_vec, same_vec, Data};
use crate::error::{config_error, ToolError};
#[allow(unused_imports)]
use crate::error::ToolErrorView;
use crate::handler::ToolOutput;
#[allow(unused_imports)]
use crate::handler::ToolOutputView;
use crate::ids::{call_output_id, fresh_uuid};
use crate::items::{
    FunctionToolCall, OutputItem, WebSearchAction, WebSearchCall, WebSearchCallStatus,
    WebSearchSource,
};
#[allow(unused_imports)]
use crate::items::{
    FunctionToolCallView, OutputItemView, WebSearchActionView, WebSearchCallView,
    WebSearchSourceView,
};
#[allow(unused_imports)]
use crate::json::{Json, JsonObject, JsonView};
use crate::text::{chars_of, concat, concat3, decimal, same_text, trim, trim_end_matches};
use crate::tools::{FunctionTool, ToolType};
#[allow(unused_imports)]
use crate::tools::FunctionToolView;
use crate::wire::{read_opt_list, set_text, write_list, ToJson};

verus! {

/// What the model asks a web search for.
#[derive(Debug, Clone, PartialEq)]
pub struct WebSearchArguments {
    pub query: Option<String>,
    pub queries: Option<Vec<String>>,
    pub count: Option<u16>,
    pub freshness: Option<String>,
    pub country: Option<String>,
    pub language: Option<String>,
    pub safesearch: Option<String>,
    pub livecrawl: Option<String>,
    pub livecrawl_formats: Option<Vec<String>>,
    pub crawl_timeout: Option<u16>,
    pub include_domains: Option<Vec<String>>,
    pub exclude_domains: Option<Vec<String>>,
    pub boost_domains: Option<Vec<String>>,
}

/// The view of a [`WebSearchArguments`].
#[verifier::ext_equal]
pub struct WebSearchArgumentsView {
    pub query: Option<Seq<char>>,
    pub queries: Option<Seq<Seq<char>>>,
    pub count: Option<u16>,
    pub freshness: Option<Seq<char>>,
    pub country: Option<Seq<char>>,
    pub language: Option<Seq<char>>,
    pub safesearch: Option<Seq<char>>,
    pub livecrawl: Option<Seq<char>>,
    pub livecrawl_formats: Option<Seq<Seq<char>>>,
    pub crawl_timeout: Option<u16>,
    pub include_domains: Option<Seq<Seq<char>>>,
    pub exclude_domains: Option<Seq<Seq<char>>>,
    pub boost_domains: Option<Seq<Seq<char>>>,
}

impl View for WebSearchArguments {
    type V = WebSearchArgumentsView;

    open spec fn view(&self) -> WebSearchArgumentsView {
        WebSearchArgumentsView {
            query: crate::data::opt_view(self.query),
            queries: crate::data::opt_views(self.queries),
            count: self.count,
            freshness: crate::data::opt_view(self.freshness),
            country: crate::data::opt_view(self.country),
            language: crate::data::opt_view(self.language),
            safesearch: crate::data::opt_view(self.safesearch),
            livecrawl: crate::data::opt_view(self.livecrawl),
            livecrawl_formats: crate::data::opt_views(self.livecrawl_formats),
            crawl_timeout: self.crawl_timeout,
            include_domains: crate::data::opt_views(self.include_domains),
            exclude_domains: crate::data::opt_views(self.exclude_domains),
            boost_domains: crate::data::opt_views(self.boost_domains),
        }
    }
}

impl Data for WebSearchArguments {
    fn copied(&self) -> (out: WebSearchArguments) {
        WebSearchArguments {
            query: copy_opt(&self.query),
            queries: copy_opt_vec(&self.queries),
            count: self.count,
            freshness: copy_opt(&self.freshness),
            country: copy_opt(&self.country),
            language: copy_opt(&self.language),
            safesearch: copy_opt(&self.safesearch),
            livecrawl: copy_opt(&self.livecrawl),
            livecrawl_formats: copy_opt_vec(&self.livecrawl_formats),
            crawl_timeout: self.crawl_timeout,
            include_domains: copy_opt_vec(&self.include_domains),
            exclude_domains: copy_opt_vec(&self.exclude_domains),
            boost_domains: copy_opt_vec(&self.boost_domains),
        }
    }

    fn same(&self, other: &WebSearchArguments) -> (yes: bool) {
        same_opt(&self.query, &other.query)
            && same_opt_vec(&self.queries, &other.queries)
            && self.count == other.count
            && same_opt(&self.freshness, &other.freshness)
            && same_opt(&self.country, &other.country)
            && same_opt(&self.language, &other.language)
            && same_opt(&self.safesearch, &other.safesearch)
            && same_opt(&self.livecrawl, &other.livecrawl)
            && same_opt_vec(&self.livecrawl_formats, &other.livecrawl_formats)
            && self.crawl_timeout == other.crawl_timeout
            && same_opt_vec(&self.include_domains, &other.include_domains)
            && same_opt_vec(&self.exclude_domains, &other.exclude_domains)
            && same_opt_vec(&self.boost_domains, &other.boost_domains)
    }
}

/// What the request's declaration says of its searches.
#[derive(Debug, Clone, PartialEq)]
pub struct WebSearchConfig {
    /// How many results the declared context size asks for.
    pub default_count: Option<u16>,
    pub allowed_domains: Option<Vec<String>>,
    pub blocked_domains: Option<Vec<String>>,
    pub country: Option<String>,
}

/// The view of a [`WebSearchConfig`].
#[verifier::ext_equal]
pub struct WebSearchConfigView {
    pub default_count: Option<u16>,
    pub allowed_domains: Option<Seq<Seq<char>>>,
    pub blocked_domains: Option<Seq<Seq<char>>>,
    pub country: Option<Seq<char>>,
}

impl View for WebSearchConfig {
    type V = WebSearchConfigView;

    open spec fn view(&self) -> WebSearchConfigView {
        WebSearchConfigView {
            default_count: self.default_count,
            allowed_domains: crate::data::opt_views(self.allowed_domains),
            blocked_domains: crate::data::opt_views(self.blocked_domains),
            country: crate::data::opt_view(self.country),
        }
    }
}

impl Data for WebSearchConfig {
    fn copied(&self) -> (out: WebSearchConfig) {
        WebSearchConfig {
            default_count: self.default_count,
            allowed_domains: copy_opt_vec(&self.allowed_domains),
            blocked_domains: copy_opt_vec(&self.blocked_domains),
            country: copy_opt(&self.country),
        }
    }

    fn same(&self, other: &WebSearchConfig) -> (yes: bool) {
        self.default_count == other.default_count
            && same_opt_vec(&self.allowed_domains, &other.allowed_domains)
            && same_opt_vec(&self.blocked_domains, &other.blocked_domains)
            && same_opt(&self.country, &other.country)
    }
}

/// The texts of a list inside a field of a declaration.
pub open spec fn texts_within(config: JsonView, key: Seq<char>, inner: Seq<char>) -> Option<
    Seq<Seq<char>>,
> {
    match crate::json::field(config, key) {
        Some(JsonView::Object(fields)) => match crate::wire::opt_list::<String>(fields, inner) {
            Some(list) => list,
            None => None,
        },
        _ => None,
    }
}

fn read_texts_within(config: &Json, key: &str, inner: &str) -> (out: Option<Vec<String>>)
    ensures
        crate::data::opt_views(out) == texts_within(config@, key@, inner@),
{
    match config.get(key) {
        Some(Json::Object(fields)) => match read_opt_list::<String>(fields, inner) {
            Some(list) => list,
            None => None,
        },
        _ => None,
    }
}

/// What a declaration says of its searches, with the number of results that its context
/// size asks for.
pub open spec fn config_of(config: JsonView, default_count: Option<u16>) -> WebSearchConfigView {
    WebSearchConfigView {
        default_count,
        allowed_domains: texts_within(config, "filters"@, "allowed_domains"@),
        blocked_domains: texts_within(config, "filters"@, "blocked_domains"@),
        country: match crate::json::field(config, "user_location"@) {
            Some(JsonView::Object(fields)) => crate::json::text_field(fields, "country"@),
            _ => None,
        },
    }
}

impl WebSearchConfig {
    /// What a declaration says of its searches. How many results its context size asks for
    /// is given.
    pub fn from_declaration(config: &Json, default_count: Option<u16>) -> (out: WebSearchConfig)
        ensures
            out@ == config_of(config@, default_count),
    {
        let country = match config.get("user_location") {
            Some(Json::Object(fields)) => match fields.get_str("country") {
                Some(country) => Some(country.to_owned()),
                None => None,
            },
            _ => None,
        };
        WebSearchConfig {
            default_count,
            allowed_domains: read_texts_within(config, "filters", "allowed_domains"),
            blocked_domains: read_texts_within(config, "filters", "blocked_domains"),
            country,
        }
    }
}

/// A request to the search provider.
#[derive(Debug, Clone, PartialEq)]
pub struct YouSearchRequest {
    pub query: String,
    pub count: Option<u8>,
    pub freshness: Option<String>,
    pub country: Option<String>,
    pub language: Option<String>,
    pub safesearch: Option<String>,
    pub livecrawl: Option<String>,
    pub livecrawl_formats: Option<Vec<String>>,
    pub crawl_timeout: Option<u8>,
    pub include_domains: Option<Vec<String>>,
    pub exclude_domains: Option<Vec<String>>,
    pub boost_domains: Option<Vec<String>>,
}

/// The view of a [`YouSearchRequest`].
#[verifier::ext_equal]
pub struct YouSearchRequestView {
    pub query: Seq<char>,
    pub count: Option<u8>,
    pub freshness: Option<Seq<char>>,
    pub country: Option<Seq<char>>,
    pub language: Option<Seq<char>>,
    pub safesearch: Option<Seq<char>>,
    pub livecrawl: Option<Seq<char>>,
    pub livecrawl_formats: Option<Seq<Seq<char>>>,
    pub crawl_timeout: Option<u8>,
    pub include_domains: Option<Seq<Seq<char>>>,
    pub exclude_domains: Option<Seq<Seq<char>>>,
    pub boost_domains: Option<Seq<Seq<char>>>,
}

impl View for YouSearchRequest {
    type V = YouSearchRequestView;

    open spec fn view(&self) -> YouSearchRequestView {
        YouSearchRequestView {
            query: self.query@,
            count: self.count,
            freshness: crate::data::opt_view(self.freshness),
            country: crate::data::opt_view(self.country),
            language: crate::data::opt_view(self.language),
            safesearch: crate::data::opt_view(self.safesearch),
            livecrawl: crate::data::opt_view(self.livecrawl),
            livecrawl_formats: crate::data::opt_views(self.livecrawl_formats),
            crawl_timeout: self.crawl_timeout,
            include_domains: crate::data::opt_views(self.include_domains),
            exclude_domains: crate::data::opt_views(self.exclude_domains),
            boost_domains: crate::data::opt_views(self.boost_domains),
        }
    }
}

impl Data for YouSearchRequest {
    fn copied(&self) -> (out: YouSearchRequest) {
        YouSearchRequest {
            query: self.query.copied(),
            count: self.count,
            freshness: copy_opt(&self.freshness),
            country: copy_opt(&self.country),
            language: copy_opt(&self.language),
            safesearch: copy_opt(&self.safesearch),
            livecrawl: copy_opt(&self.livecrawl),
            livecrawl_formats: copy_opt_vec(&self.livecrawl_formats),
            crawl_timeout: self.crawl_timeout,
            include_domains: copy_opt_vec(&self.include_domains),
            exclude_domains: copy_opt_vec(&self.exclude_domains),
            boost_domains: copy_opt_vec(&self.boost_domains),
        }
    }

    fn same(&self, other: &YouSearchRequest) -> (yes: bool) {
        self.query.same(&other.query)
            && self.count == other.count
            && same_opt(&self.freshness, &other.freshness)
            && same_opt(&self.country, &other.country)
            && same_opt(&self.language, &other.language)
            && same_opt(&self.safesearch, &other.safesearch)
            && same_opt(&self.livecrawl, &other.livecrawl)
            && same_opt_vec(&self.livecrawl_formats, &other.livecrawl_formats)
            && self.crawl_timeout == other.crawl_timeout
            && same_opt_vec(&self.include_domains, &other.include_domains)
            && same_opt_vec(&self.exclude_domains, &other.exclude_domains)
            && same_opt_vec(&self.boost_domains, &other.boost_domains)
    }
}

/// Where the search provider is, and the key to it.
#[derive(Clone, PartialEq)]
pub struct YouSearchProvider {
    pub api_key: Option<String>,
    pub base_url: Option<String>,
}

/// The view of a [`YouSearchProvider`].
#[verifier::ext_equal]
pub struct YouSearchProviderView {
    pub api_key: Option<Seq<char>>,
    pub base_url: Option<Seq<char>>,
}

impl View for YouSearchProvider {
    type V = YouSearchProviderView;

    open spec fn view(&self) -> YouSearchProviderView {
        YouSearchProviderView {
            api_key: crate::data::opt_view(self.api_key),
            base_url: crate::data::opt_view(self.base_url),
        }
    }
}

impl Data for YouSearchProvider {
    fn copied(&self) -> (out: YouSearchProvider) {
        YouSearchProvider {
            api_key: copy_opt(&self.api_key),
            base_url: copy_opt(&self.base_url),
        }
    }

    fn same(&self, other: &YouSearchProvider) -> (yes: bool) {
        same_opt(&self.api_key, &other.api_key)
            && same_opt(&self.base_url, &other.base_url)
    }
}

/// Runs web searches. One without a provider only shapes output.
#[derive(Clone, PartialEq)]
pub struct WebSearchHandler {
    pub provider: Option<YouSearchProvider>,
}

/// The view of a [`WebSearchHandler`].
#[verifier::ext_equal]
pub struct WebSearchHandlerView {
    pub provider: Option<YouSearchProviderView>,
}

impl View for WebSearchHandler {
    type V = WebSearchHandlerView;

    open spec fn view(&self) -> WebSearchHandlerView {
        WebSearchHandlerView {
            provider: crate::data::opt_view(self.provider),
        }
    }
}

impl Data for WebSearchHandler {
    fn copied(&self) -> (out: WebSearchHandler) {
        WebSearchHandler {
            provider: copy_opt(&self.provider),
        }
    }

    fn same(&self, other: &WebSearchHandler) -> (yes: bool) {
        same_opt(&self.provider, &other.provider)
    }
}

/// The requests that a web search is, and where they go.
#[derive(Clone, PartialEq)]
pub struct WebSearchPlan {
    pub api_key: String,
    pub base_url: String,
    pub queries: Vec<String>,
    pub requests: Vec<YouSearchRequest>,
}

/// The view of a [`WebSearchPlan`].
#[verifier::ext_equal]
pub struct WebSearchPlanView {
    pub api_key: Seq<char>,
    pub base_url: Seq<char>,
    pub queries: Seq<Seq<char>>,
    pub requests: Seq<YouSearchRequestView>,
}

impl View for WebSearchPlan {
    type V = WebSearchPlanView;

    open spec fn view(&self) -> WebSearchPlanView {
        WebSearchPlanView {
            api_key: self.api_key@,
            base_url: self.base_url@,
            queries: crate::data::views(self.queries@),
            requests: crate::data::views(self.requests@),
        }
    }
}

impl Data for WebSearchPlan {
    fn copied(&self) -> (out: WebSearchPlan) {
        WebSearchPlan {
            api_key: self.api_key.copied(),
            base_url: self.base_url.copied(),
            queries: copy_vec(&self.queries),
            requests: copy_vec(&self.requests),
        }
    }

    fn same(&self, other: &WebSearchPlan) -> (yes: bool) {
        self.api_key.same(&other.api_key)
            && self.base_url.same(&other.base_url)
            && same_vec(&self.queries, &other.queries)
            && same_vec(&self.requests, &other.requests)
    }
}

/// What the search provider found for one query.
#[derive(Debug, Clone, PartialEq)]
pub struct WebSearchProviderResponse {
    pub results: Json,
    pub metadata: Json,
}

/// The view of a [`WebSearchProviderResponse`].
#[verifier::ext_equal]
pub struct WebSearchProviderResponseView {
    pub results: JsonView,
    pub metadata: JsonView,
}

impl View for WebSearchProviderResponse {
    type V = WebSearchProviderResponseView;

    open spec fn view(&self) -> WebSearchProviderResponseView {
        WebSearchProviderResponseView {
            results: self.results@,
            metadata: self.metadata@,
        }
    }
}

impl Data for WebSearchProviderResponse {
    fn copied(&self) -> (out: WebSearchProviderResponse) {
        WebSearchProviderResponse {
            results: self.results.copied(),
            metadata: self.metadata.copied(),
        }
    }

    fn same(&self, other: &WebSearchProviderResponse) -> (yes: bool) {
        self.results.same(&other.results)
            && self.metadata.same(&other.metadata)
    }
}

/// A property that a function takes.
pub open spec fn property(type_: Seq<char>, description: Seq<char>) -> JsonView {
    JsonView::Object(
        Map::<Seq<char>, JsonView>::empty().insert("type"@, JsonView::Text(type_)).insert(
            "description"@,
            JsonView::Text(description),
        ),
    )
}

fn write_property(type_: &str, description: &str) -> (out: Json)
    ensures
        out@ == property(type_@, description@),
{
    let mut fields = JsonObject::new();
    fields.set_str("type", type_);
    fields.set_str("description", description);
    Json::Object(fields)
}

/// A property that is a list of texts.
pub open spec fn texts_property(description: Seq<char>) -> JsonView {
    JsonView::Object(
        Map::<Seq<char>, JsonView>::empty().insert("type"@, JsonView::Text("array"@)).insert(
            "items"@,
            JsonView::Object(
                Map::<Seq<char>, JsonView>::empty().insert("type"@, JsonView::Text("string"@)),
            ),
        ).insert("description"@, JsonView::Text(description)),
    )
}

fn write_texts_property(description: &str) -> (out: Json)
    ensures
        out@ == texts_property(description@),
{
    let mut items = JsonObject::new();
    items.set_str("type", "string");
    let mut fields = JsonObject::new();
    fields.set_str("type", "array");
    fields.set("items", Json::Object(items));
    fields.set_str("description", description);
    Json::Object(fields)
}

/// That one property is required.
pub open spec fn required_property(name: Seq<char>) -> JsonView {
    JsonView::Object(
        Map::<Seq<char>, JsonView>::empty().insert(
            "required"@,
            JsonView::Array(seq![JsonView::Text(name)]),
        ),
    )
}

fn write_required_property(name: &str) -> (out: Json)
    ensures
        out@ == required_property(name@),
{
    let names: Vec<Json> = vec![Json::text(name)];
    proof {
        assert(crate::json::array_view(names@) =~= seq![JsonView::Text(name@)]);
    }
    let mut fields = JsonObject::new();
    fields.set("required", Json::Array(names));
    Json::Object(fields)
}

/// What a web search takes.
pub open spec fn search_properties() -> Map<Seq<char>, JsonView> {
    Map::<Seq<char>, JsonView>::empty().insert(
        "query"@,
        property("string"@, "The natural language web search query."@),
    ).insert(
        "queries"@,
        texts_property(
            "Multiple independent search queries to run in parallel, instead of a single query."@,
        ),
    ).insert(
        "count"@,
        property("integer"@, "Maximum results per section, from 1 to 100."@),
    ).insert(
        "freshness"@,
        property(
            "string"@,
            "Optional recency filter: day, week, month, year, or YYYY-MM-DDtoYYYY-MM-DD."@,
        ),
    ).insert(
        "country"@,
        property("string"@, "Optional ISO 3166-1 alpha-2 country code."@),
    ).insert(
        "language"@,
        property("string"@, "Optional BCP 47 language code."@),
    ).insert(
        "include_domains"@,
        texts_property("Optional strict allowlist of domains."@),
    ).insert(
        "exclude_domains"@,
        texts_property("Optional domain blocklist."@),
    )
}

/// What a web search takes: one query, or several.
pub open spec fn search_schema() -> JsonView {
    JsonView::Object(
        Map::<Seq<char>, JsonView>::empty().insert("type"@, JsonView::Text("object"@)).insert(
            "properties"@,
            JsonView::Object(search_properties()),
        ).insert(
            "anyOf"@,
            JsonView::Array(seq![required_property("query"@), required_property("queries"@)]),
        ),
    )
}

fn write_search_schema() -> (out: Json)
    ensures
        out@ == search_schema(),
{
    let mut properties = JsonObject::new();
    properties.set("query", write_property("string", "The natural language web search query."));
    properties.set(
        "queries",
        write_texts_property(
            "Multiple independent search queries to run in parallel, instead of a single query.",
        ),
    );
    properties.set(
        "count",
        write_property("integer", "Maximum results per section, from 1 to 100."),
    );
    properties.set(
        "freshness",
        write_property(
            "string",
            "Optional recency filter: day, week, month, year, or YYYY-MM-DDtoYYYY-MM-DD.",
        ),
    );
    properties.set(
        "country",
        write_property("string", "Optional ISO 3166-1 alpha-2 country code."),
    );
    properties.set("language", write_property("string", "Optional BCP 47 language code."));
    properties.set(
        "include_domains",
        write_texts_property("Optional strict allowlist of domains."),
    );
    properties.set("exclude_domains", write_texts_property("Optional domain blocklist."));
    let either: Vec<Json> = vec![
        write_required_property("query"),
        write_required_property("queries"),
    ];
    proof {
        assert(crate::json::array_view(either@) =~= seq![
            required_property("query"@),
            required_property("queries"@),
        ]);
    }
    let mut fields = JsonObject::new();
    fields.set_str("type", "object");
    fields.set("properties", Json::Object(properties));
    fields.set("anyOf", Json::Array(either));
    Json::Object(fields)
}

/// The function that stands for a web search.
pub open spec fn web_search_function() -> FunctionToolView {
    FunctionToolView {
        type_: "function"@,
        name: "web_search"@,
        description: Some(
            "Search the public web for current information and return structured web and news results."@,
        ),
        parameters: Some(search_schema()),
        strict: Some(false),
    }
}

/// The function that stands for a web search.
pub fn web_search_function_tool() -> (function: FunctionTool)
    ensures
        function@ == web_search_function(),
{
    FunctionTool {
        type_: "function".to_owned(),
        name: "web_search".to_owned(),
        description: Some(
            "Search the public web for current information and return structured web and news results.".to_owned(),
        ),
        parameters: Some(write_search_schema()),
        strict: Some(false),
    }
}

/// The texts of the first `n` that say anything, without whitespace at their ends.
pub open spec fn cleaned(values: Seq<Seq<char>>, n: int) -> Seq<Seq<char>>
    decreases n,
{
    if n <= 0 {
        Seq::empty()
    } else {
        match crate::custom::trimmed(Some(values[n - 1])) {
            Some(t) => cleaned(values, n - 1).push(t),
            None => cleaned(values, n - 1),
        }
    }
}

/// The texts of a list that say anything; nothing where none does.
pub open spec fn clean_list(values: Option<Seq<Seq<char>>>) -> Option<Seq<Seq<char>>> {
    match values {
        Some(v) => {
            let texts = cleaned(v, v.len() as int);
            if texts.len() == 0 {
                None
            } else {
                Some(texts)
            }
        },
        None => None,
    }
}

/// The texts of a list that say anything; nothing where none does.
pub fn clean_vec(values: &Option<Vec<String>>) -> (out: Option<Vec<String>>)
    ensures
        crate::data::opt_views(out) == clean_list(crate::data::opt_views(*values)),
{
    let values = match values {
        Some(v) => v,
        None => {
            return None;
        },
    };
    let mut out: Vec<String> = Vec::new();
    let ghost all = crate::data::views(values@);
    let mut i: usize = 0;
    proof {
        assert(crate::data::views(out@) =~= Seq::empty());
    }
    while i < values.len()
        invariant
            i <= values@.len(),
            all == crate::data::views(values@),
            crate::data::views(out@) == cleaned(all, i as int),
        decreases values@.len() - i,
    {
        if let Some(t) = trim_opt(Some(values[i].as_str())) {
            proof {
                crate::data::views_push(out@, t);
            }
            out.push(t);
        }
        i = i + 1;
    }
    proof {
        assert(crate::data::views(out@).len() == out@.len());
    }
    if out.len() == 0 {
        None
    } else {
        Some(out)
    }
}

/// The text without whitespace at its ends, where anything is left.
pub fn clean_string(value: &Option<String>) -> (out: Option<String>)
    ensures
        crate::data::opt_view(out) == crate::custom::trimmed(crate::data::opt_view(*value)),
{
    match value {
        Some(t) => trim_opt(Some(t.as_str())),
        None => None,
    }
}

/// The queries that are asked for: the list where it says anything, else the one query.
pub open spec fn queries_of(args: WebSearchArgumentsView) -> Seq<Seq<char>> {
    match clean_list(args.queries) {
        Some(list) => list,
        None => match crate::custom::trimmed(args.query) {
            Some(query) => seq![query],
            None => Seq::empty(),
        },
    }
}

/// The arguments of a search, from what was read of its text: an error says why the text
/// does not hold arguments. There must be a query.
pub open spec fn arguments_of(read: Result<WebSearchArgumentsView, Seq<char>>) -> Result<
    WebSearchArgumentsView,
    ToolErrorView,
> {
    match read {
        Ok(args) => if queries_of(args).len() == 0 {
            Err(ToolErrorView::Config("web_search requires a non-empty query or queries"@))
        } else {
            Ok(args)
        },
        Err(reason) => Err(
            ToolErrorView::Config("web_search arguments must be valid JSON: "@ + reason),
        ),
    }
}

impl WebSearchArguments {
    /// The queries that are asked for.
    pub fn all_queries(&self) -> (queries: Vec<String>)
        ensures
            crate::data::views(queries@) == queries_of(self@),
    {
        match clean_vec(&self.queries) {
            Some(list) => list,
            None => {
                let mut out: Vec<String> = Vec::new();
                if let Some(query) = clean_string(&self.query) {
                    out.push(query);
                    proof {
                        assert(crate::data::views(out@) =~= seq![query@]);
                    }
                } else {
                    proof {
                        assert(crate::data::views(out@) =~= Seq::empty());
                    }
                }
                out
            },
        }
    }

    /// The arguments of a search, from what was read of its text: an error says why the
    /// text does not hold arguments. There must be a query.
    pub fn checked(read: &Result<WebSearchArguments, String>) -> (out: Result<
        WebSearchArguments,
        ToolError,
    >)
        ensures
            crate::error::outcome(out) == arguments_of(crate::wire::reading(*read)),
    {
        match read {
            Ok(args) => {
                let queries = args.all_queries();
                proof {
                    assert(crate::data::views(queries@).len() == queries@.len());
                }
                if queries.len() == 0 {
                    Err(config_error("web_search requires a non-empty query or queries"))
                } else {
                    Ok(args.copied())
                }
            },
            Err(reason) => Err(
                ToolError::Config(
                    concat("web_search arguments must be valid JSON: ", reason.as_str()),
                ),
            ),
        }
    }
}

/// A character in upper case, where it is a small letter of ASCII.
pub open spec fn ascii_upper(c: char) -> char {
    if 0x61 <= c as u32 <= 0x7a {
        ((c as u32 - 0x20) as u8) as char
    } else {
        c
    }
}

fn to_ascii_uppercase(text: &str) -> (out: String)
    ensures
        out@ == text@.map_values(|c: char| ascii_upper(c)),
{
    let chars = chars_of(text);
    let mut out = String::new();
    let mut i: usize = 0;
    while i < chars.len()
        invariant
            i <= chars@.len(),
            chars@ == text@,
            out@ == text@.take(i as int).map_values(|c: char| ascii_upper(c)),
        decreases chars@.len() - i,
    {
        let c = chars[i];
        let n: u32 = c as u32;
        let upper = if 0x61 <= n && n <= 0x7a {
            ((n - 0x20) as u8) as char
        } else {
            c
        };
        out.push(upper);
        proof {
            assert(text@.take(i + 1).map_values(|c: char| ascii_upper(c)) =~= text@.take(
                i as int,
            ).map_values(|c: char| ascii_upper(c)).push(ascii_upper(c)));
        }
        i = i + 1;
    }
    proof {
        assert(text@.take(text@.len() as int) =~= text@);
    }
    out
}

/// How many results are asked for, within the provider's bounds.
pub open spec fn valid_count(count: Option<u16>) -> Result<Option<u8>, ToolErrorView> {
    match count {
        None => Ok(None),
        Some(n) => if 1 <= n <= 100 {
            Ok(Some(n as u8))
        } else {
            Err(ToolErrorView::Config("web_search count must be between 1 and 100"@))
        },
    }
}

/// How many results are asked for, within the provider's bounds.
pub fn validate_count(count: Option<u16>) -> (out: Result<Option<u8>, ToolError>)
    ensures
        opt_outcome(out) == valid_count(count),
{
    match count {
        None => Ok(None),
        Some(n) => if 1 <= n && n <= 100 {
            Ok(Some(n as u8))
        } else {
            Err(config_error("web_search count must be between 1 and 100"))
        },
    }
}

/// How many seconds a crawl may take, within the provider's bounds.
pub open spec fn valid_crawl_timeout(timeout: Option<u16>) -> Result<Option<u8>, ToolErrorView> {
    match timeout {
        None => Ok(None),
        Some(n) => if 1 <= n <= 60 {
            Ok(Some(n as u8))
        } else {
            Err(ToolErrorView::Config("web_search crawl_timeout must be between 1 and 60"@))
        },
    }
}

/// How many seconds a crawl may take, within the provider's bounds.
pub fn validate_crawl_timeout(timeout: Option<u16>) -> (out: Result<Option<u8>, ToolError>)
    ensures
        opt_outcome(out) == valid_crawl_timeout(timeout),
{
    match timeout {
        None => Ok(None),
        Some(n) => if 1 <= n && n <= 60 {
            Ok(Some(n as u8))
        } else {
            Err(config_error("web_search crawl_timeout must be between 1 and 60"))
        },
    }
}

/// The view of a number that may be absent, or of an error.
pub open spec fn opt_outcome(
    out: Result<Option<u8>, ToolError>,
) -> Result<Option<u8>, ToolErrorView> {
    match out {
        Ok(n) => Ok(n),
        Err(e) => Err(e@),
    }
}

/// The first of two lists that is there.
pub open spec fn either_list(
    a: Option<Seq<Seq<char>>>,
    b: Option<Seq<Seq<char>>>,
) -> Option<Seq<Seq<char>>> {
    match a {
        Some(list) => Some(list),
        None => b,
    }
}

/// The request for one query. What the declaration says of domains and the country
/// goes before what the model asks for; domains cannot be both allowed and excluded or
/// boosted.
pub open spec fn request_for(
    query: Seq<char>,
    args: WebSearchArgumentsView,
    config: WebSearchConfigView,
) -> Result<YouSearchRequestView, ToolErrorView> {
    let count = match args.count {
        Some(n) => Some(n),
        None => config.default_count,
    };
    let allowed = either_list(clean_list(config.allowed_domains), clean_list(args.include_domains));
    let blocked = either_list(clean_list(config.blocked_domains), clean_list(args.exclude_domains));
    let boosted = clean_list(args.boost_domains);
    let country = match crate::custom::trimmed(config.country) {
        Some(c) => Some(c),
        None => crate::custom::trimmed(args.country),
    };
    match (valid_count(count), valid_crawl_timeout(args.crawl_timeout)) {
        (Err(e), _) => Err(e),
        (_, Err(e)) => Err(e),
        (Ok(count), Ok(crawl_timeout)) => if allowed is Some && (blocked is Some || boosted is Some) {
            Err(
                ToolErrorView::Config(
                    "include_domains cannot be combined with exclude_domains or boost_domains"@,
                ),
            )
        } else {
            Ok(
                YouSearchRequestView {
                    query: crate::text::trim_text(query),
                    count,
                    freshness: crate::custom::trimmed(args.freshness),
                    country: match country {
                        Some(c) => Some(c.map_values(|ch: char| ascii_upper(ch))),
                        None => None,
                    },
                    language: crate::custom::trimmed(args.language),
                    safesearch: crate::custom::trimmed(args.safesearch),
                    livecrawl: crate::custom::trimmed(args.livecrawl),
                    livecrawl_formats: clean_list(args.livecrawl_formats),
                    crawl_timeout,
                    include_domains: allowed,
                    exclude_domains: blocked,
                    boost_domains: boosted,
                },
            )
        },
    }
}

/// One more parameter of a query.
pub open spec fn with_param(
    params: Seq<(Seq<char>, Seq<char>)>,
    key: Seq<char>,
    value: Option<Seq<char>>,
) -> Seq<(Seq<char>, Seq<char>)> {
    match value {
        Some(v) => params.push((key, v)),
        None => params,
    }
}

/// One more number among the parameters of a query.
pub open spec fn with_number_param(
    params: Seq<(Seq<char>, Seq<char>)>,
    key: Seq<char>,
    value: Option<u8>,
) -> Seq<(Seq<char>, Seq<char>)> {
    match value {
        Some(v) => params.push((key, crate::text::decimal_text(v as nat))),
        None => params,
    }
}

/// A parameter of a query for each text of a list.
pub open spec fn with_list_params(
    params: Seq<(Seq<char>, Seq<char>)>,
    key: Seq<char>,
    values: Option<Seq<Seq<char>>>,
) -> Seq<(Seq<char>, Seq<char>)> {
    match values {
        Some(list) => params + list.map_values(|v: Seq<char>| (key, v)),
        None => params,
    }
}

/// The parameters of a request, in the order in which they are sent.
pub open spec fn params_of(r: YouSearchRequestView) -> Seq<(Seq<char>, Seq<char>)> {
    let p0 = seq![("query"@, r.query)];
    let p1 = with_number_param(p0, "count"@, r.count);
    let p2 = with_param(p1, "freshness"@, r.freshness);
    let p3 = with_param(p2, "country"@, r.country);
    let p4 = with_param(p3, "language"@, r.language);
    let p5 = with_param(p4, "safesearch"@, r.safesearch);
    let p6 = with_param(p5, "livecrawl"@, r.livecrawl);
    let p7 = with_list_params(p6, "livecrawl_formats"@, r.livecrawl_formats);
    let p8 = with_number_param(p7, "crawl_timeout"@, r.crawl_timeout);
    let p9 = with_list_params(p8, "include_domains"@, r.include_domains);
    let p10 = with_list_params(p9, "exclude_domains"@, r.exclude_domains);
    with_list_params(p10, "boost_domains"@, r.boost_domains)
}

fn push_param(params: &mut Vec<(String, String)>, key: &str, value: &Option<String>)
    ensures
        crate::data::views(final(params)@) == with_param(
            crate::data::views(old(params)@),
            key@,
            crate::data::opt_view(*value),
        ),
{
    if let Some(v) = value {
        let pair = (key.to_owned(), v.clone());
        proof {
            crate::data::views_push(params@, pair);
        }
        params.push(pair);
    }
}

fn push_number(params: &mut Vec<(String, String)>, key: &str, value: Option<u8>)
    ensures
        crate::data::views(final(params)@) == with_number_param(
            crate::data::views(old(params)@),
            key@,
            value,
        ),
{
    if let Some(v) = value {
        let pair = (key.to_owned(), decimal(v as u64));
        proof {
            crate::data::views_push(params@, pair);
        }
        params.push(pair);
    }
}

fn push_list(params: &mut Vec<(String, String)>, key: &str, values: &Option<Vec<String>>)
    ensures
        crate::data::views(final(params)@) == with_list_params(
            crate::data::views(old(params)@),
            key@,
            crate::data::opt_views(*values),
        ),
{
    if let Some(list) = values {
        let ghost start = crate::data::views(params@);
        let ghost all = crate::data::views(list@);
        let mut i: usize = 0;
        proof {
            assert(start + all.take(0).map_values(|v: Seq<char>| (key@, v)) =~= start);
        }
        while i < list.len()
            invariant
                i <= list@.len(),
                all == crate::data::views(list@),
                crate::data::views(params@) == start + all.take(i as int).map_values(
                    |v: Seq<char>| (key@, v),
                ),
            decreases list@.len() - i,
        {
            let pair = (key.to_owned(), list[i].clone());
            proof {
                crate::data::views_push(params@, pair);
                assert((start + all.take(i as int).map_values(|v: Seq<char>| (key@, v))).push(
                    (key@, all[i as int]),
                ) =~= start + all.take(i + 1).map_values(|v: Seq<char>| (key@, v)));
            }
            params.push(pair);
            i = i + 1;
        }
        proof {
            assert(all.take(all.len() as int) =~= all);
        }
    }
}

impl YouSearchRequest {
    /// The parameters of this request, in the order in which they are sent.
    pub fn query_params(&self) -> (params: Vec<(String, String)>)
        ensures
            crate::data::views(params@) == params_of(self@),
    {
        let mut params: Vec<(String, String)> = Vec::new();
        let first = ("query".to_owned(), self.query.clone());
        params.push(first);
        proof {
            assert(crate::data::views(params@) =~= seq![("query"@, self.query@)]);
        }
        push_number(&mut params, "count", self.count);
        push_param(&mut params, "freshness", &self.freshness);
        push_param(&mut params, "country", &self.country);
        push_param(&mut params, "language", &self.language);
        push_param(&mut params, "safesearch", &self.safesearch);
        push_param(&mut params, "livecrawl", &self.livecrawl);
        push_list(&mut params, "livecrawl_formats", &self.livecrawl_formats);
        push_number(&mut params, "crawl_timeout", self.crawl_timeout);
        push_list(&mut params, "include_domains", &self.include_domains);
        push_list(&mut params, "exclude_domains", &self.exclude_domains);
        push_list(&mut params, "boost_domains", &self.boost_domains);
        params
    }

    /// The request for one query.
    pub fn from_args_and_config(
        query: &str,
        args: &WebSearchArguments,
        config: &WebSearchConfig,
    ) -> (out: Result<
        YouSearchRequest,
        ToolError,
    >)
        ensures
            crate::error::outcome(out) == request_for(query@, args@, config@),
    {
        let count = match args.count {
            Some(n) => Some(n),
            None => config.default_count,
        };
        let count = match validate_count(count) {
            Ok(c) => c,
            Err(e) => {
                return Err(e);
            },
        };
        let crawl_timeout = match validate_crawl_timeout(args.crawl_timeout) {
            Ok(t) => t,
            Err(e) => {
                return Err(e);
            },
        };
        let include_domains = match clean_vec(&config.allowed_domains) {
            Some(list) => Some(list),
            None => clean_vec(&args.include_domains),
        };
        let exclude_domains = match clean_vec(&config.blocked_domains) {
            Some(list) => Some(list),
            None => clean_vec(&args.exclude_domains),
        };
        let boost_domains = clean_vec(&args.boost_domains);
        if include_domains.is_some() && (exclude_domains.is_some() || boost_domains.is_some()) {
            return Err(
                config_error(
                    "include_domains cannot be combined with exclude_domains or boost_domains",
                ),
            );
        }
        let country = match clean_string(&config.country) {
            Some(c) => Some(c),
            None => clean_string(&args.country),
        };
        let country = match country {
            Some(c) => Some(to_ascii_uppercase(c.as_str())),
            None => None,
        };
        Ok(
            YouSearchRequest {
                query: trim(query),
                count,
                freshness: clean_string(&args.freshness),
                country,
                language: clean_string(&args.language),
                safesearch: clean_string(&args.safesearch),
                livecrawl: clean_string(&args.livecrawl),
                livecrawl_formats: clean_vec(&args.livecrawl_formats),
                crawl_timeout,
                include_domains,
                exclude_domains,
                boost_domains,
            },
        )
    }
}

/// An address without whitespace at its ends and slashes behind it, where anything is
/// left.
pub open spec fn base_url_of(value: Seq<char>) -> Option<Seq<char>> {
    let t = crate::text::trim_end_matches_text(crate::text::trim_text(value), '/');
    if t.len() == 0 {
        None
    } else {
        Some(t)
    }
}

/// An address without whitespace at its ends and slashes behind it, where anything is
/// left.
pub fn clean_base_url(value: &str) -> (out: Option<String>)
    ensures
        crate::data::opt_view(out) == base_url_of(value@),
{
    let t = trim(value);
    let t = trim_end_matches(t.as_str(), '/');
    if t.as_str().is_empty() {
        None
    } else {
        Some(t)
    }
}

impl YouSearchProvider {
    /// A provider as the surroundings configure it.
    pub fn from_values(
        api_key: Option<String>,
        base_url: Option<String>,
    ) -> (provider: YouSearchProvider)
        ensures
            provider@ == (YouSearchProviderView {
                api_key: crate::custom::trimmed(crate::data::opt_view(api_key)),
                base_url: match crate::data::opt_view(base_url) {
                    Some(url) => base_url_of(url),
                    None => None,
                },
            }),
    {
        YouSearchProvider {
            api_key: clean_string(&api_key),
            base_url: match &base_url {
                Some(url) => clean_base_url(url.as_str()),
                None => None,
            },
        }
    }

    /// A provider with a key.
    pub fn with_api_key(api_key: String, base_url: &str) -> (provider: YouSearchProvider)
        ensures
            provider@ == (YouSearchProviderView {
                api_key: Some(api_key@),
                base_url: base_url_of(base_url@),
            }),
    {
        YouSearchProvider { api_key: Some(api_key), base_url: clean_base_url(base_url) }
    }
}

/// The requests for the first `n` queries.
pub open spec fn requests_for(
    queries: Seq<Seq<char>>,
    args: WebSearchArgumentsView,
    config: WebSearchConfigView,
    n: int,
) -> Result<Seq<YouSearchRequestView>, ToolErrorView>
    decreases n,
{
    if n <= 0 {
        Ok(Seq::empty())
    } else {
        match requests_for(queries, args, config, n - 1) {
            Err(e) => Err(e),
            Ok(rest) => match request_for(queries[n - 1], args, config) {
                Err(e) => Err(e),
                Ok(r) => Ok(rest.push(r)),
            },
        }
    }
}

proof fn requests_stop(
    queries: Seq<Seq<char>>,
    args: WebSearchArgumentsView,
    config: WebSearchConfigView,
    n: int,
    m: int,
)
    requires
        n <= m,
        requests_for(queries, args, config, n) is Err,
    ensures
        requests_for(queries, args, config, m) == requests_for(queries, args, config, n),
    decreases m - n,
{
    if n < m {
        requests_stop(queries, args, config, n, m - 1);
    }
}

fn make_requests(
    queries: &Vec<String>,
    args: &WebSearchArguments,
    config: &WebSearchConfig,
) -> (out: Result<
    Vec<YouSearchRequest>,
    ToolError,
>)
    ensures
        match requests_for(
            crate::data::views(queries@),
            args@,
            config@,
            queries@.len() as int,
        ) {
            Ok(list) => out matches Ok(v) && crate::data::views(v@) == list,
            Err(e) => out matches Err(x) && x@ == e,
        },
{
    let mut out: Vec<YouSearchRequest> = Vec::new();
    let ghost all = crate::data::views(queries@);
    let mut i: usize = 0;
    proof {
        assert(crate::data::views(out@) =~= Seq::empty());
    }
    while i < queries.len()
        invariant
            i <= queries@.len() == all.len(),
            all == crate::data::views(queries@),
            requests_for(all, args@, config@, i as int) == Ok::<_, ToolErrorView>(
                crate::data::views(out@),
            ),
        decreases queries@.len() - i,
    {
        match YouSearchRequest::from_args_and_config(queries[i].as_str(), args, config) {
            Ok(r) => {
                proof {
                    crate::data::views_push(out@, r);
                }
                out.push(r);
            },
            Err(e) => {
                proof {
                    requests_stop(all, args@, config@, i + 1, all.len() as int);
                }
                return Err(e);
            },
        }
        i = i + 1;
    }
    Ok(out)
}

/// What a web search sends, for what was read of its arguments.
pub open spec fn plan_of(
    handler: WebSearchHandlerView,
    tool_name: Seq<char>,
    arguments: Result<WebSearchArgumentsView, Seq<char>>,
    config: WebSearchConfigView,
) -> Result<WebSearchPlanView, ToolErrorView> {
    if tool_name != "web_search"@ {
        Err(
            ToolErrorView::Config(
                "web_search handler cannot execute tool '"@ + tool_name + "'"@,
            ),
        )
    } else {
        match handler.provider {
            None => Err(
                ToolErrorView::Config("web_search spec-only handler cannot execute tools"@),
            ),
            Some(provider) => match arguments_of(arguments) {
                Err(e) => Err(e),
                Ok(args) => match (provider.api_key, provider.base_url) {
                    (None, _) => Err(
                        ToolErrorView::Config(
                            "YOU_API_KEY must be set to use the web_search tool"@,
                        ),
                    ),
                    (_, None) => Err(
                        ToolErrorView::Config(
                            "YOU_API_BASE_URL must be set to use the web_search tool"@,
                        ),
                    ),
                    (Some(api_key), Some(base_url)) => match requests_for(
                        queries_of(args),
                        args,
                        config,
                        queries_of(args).len() as int,
                    ) {
                        Err(e) => Err(e),
                        Ok(requests) => Ok(
                            WebSearchPlanView {
                                api_key,
                                base_url,
                                queries: queries_of(args),
                                requests,
                            },
                        ),
                    },
                },
            },
        }
    }
}

/// The handler for a configured key and place.
pub open spec fn handler_of(
    api_key: Option<Seq<char>>,
    base_url: Option<Seq<char>>,
) -> WebSearchHandlerView {
    WebSearchHandlerView {
        provider: Some(
            YouSearchProviderView {
                api_key: crate::custom::trimmed(api_key),
                base_url: match base_url {
                    Some(url) => base_url_of(url),
                    None => None,
                },
            },
        ),
    }
}

impl WebSearchHandler {
    /// A handler for a configured key and place.
    pub fn from_values(
        api_key: Option<String>,
        base_url: Option<String>,
    ) -> (handler: WebSearchHandler)
        ensures
            handler@ == handler_of(crate::data::opt_view(api_key), crate::data::opt_view(base_url)),
    {
        WebSearchHandler { provider: Some(YouSearchProvider::from_values(api_key, base_url)) }
    }

    /// A handler with a key.
    pub fn with_api_key(api_key: String, base_url: &str) -> (handler: WebSearchHandler)
        ensures
            handler@.provider == Some(
                YouSearchProviderView {
                    api_key: Some(api_key@),
                    base_url: base_url_of(base_url@),
                },
            ),
    {
        WebSearchHandler { provider: Some(YouSearchProvider::with_api_key(api_key, base_url)) }
    }

    /// A handler that only shapes output.
    pub fn spec_only() -> (handler: WebSearchHandler)
        ensures
            handler@.provider is None,
    {
        WebSearchHandler { provider: None }
    }

    /// The type of the tools that this handler runs.
    pub fn tool_type(&self) -> (tool_type: ToolType)
        ensures
            tool_type == ToolType::WebSearch,
    {
        ToolType::WebSearch
    }

    /// The function that stands for a web search.
    pub fn normalize(&self) -> (functions: Vec<FunctionTool>)
        ensures
            crate::data::views(functions@) == seq![web_search_function()],
    {
        let functions = vec![web_search_function_tool()];
        proof {
            assert(crate::data::views(functions@) =~= seq![web_search_function()]);
        }
        functions
    }

    /// Whether calls of one search may run at the same time.
    pub fn supports_parallel_execution(&self) -> (yes: bool)
        ensures
            yes,
    {
        true
    }

    /// What a web search sends, for what was read of its arguments.
    pub fn plan(
        &self,
        tool_name: &str,
        arguments: &Result<WebSearchArguments, String>,
        config: &WebSearchConfig,
    ) -> (out: Result<
        WebSearchPlan,
        ToolError,
    >)
        ensures
            crate::error::outcome(out) == plan_of(
                self@,
                tool_name@,
                crate::wire::reading(*arguments),
                config@,
            ),
    {
        if !same_text(tool_name, "web_search") {
            return Err(
                ToolError::Config(
                    concat3("web_search handler cannot execute tool '", tool_name, "'"),
                ),
            );
        }
        let provider = match &self.provider {
            Some(p) => p,
            None => {
                return Err(config_error("web_search spec-only handler cannot execute tools"));
            },
        };
        let args = match WebSearchArguments::checked(arguments) {
            Ok(a) => a,
            Err(e) => {
                return Err(e);
            },
        };
        let api_key = match &provider.api_key {
            Some(key) => key.clone(),
            None => {
                return Err(config_error("YOU_API_KEY must be set to use the web_search tool"));
            },
        };
        let base_url = match &provider.base_url {
            Some(url) => url.clone(),
            None => {
                return Err(config_error("YOU_API_BASE_URL must be set to use the web_search tool"));
            },
        };
        let queries = args.all_queries();
        proof {
            assert(crate::data::views(queries@).len() == queries@.len());
        }
        match make_requests(&queries, &args, config) {
            Ok(requests) => Ok(WebSearchPlan { api_key, base_url, queries, requests }),
            Err(e) => Err(e),
        }
    }
}

/// What the provider answered, from its parsed body.
pub open spec fn provider_response(body: Result<JsonView, Seq<char>>) -> Result<
    WebSearchProviderResponseView,
    ToolErrorView,
> {
    match body {
        Err(reason) => Err(
            ToolErrorView::Execution("You.com search returned invalid JSON: "@ + reason),
        ),
        Ok(body) => Ok(
            WebSearchProviderResponseView {
                results: match crate::json::field(body, "results"@) {
                    Some(r) => r,
                    None => JsonView::Object(
                        Map::<Seq<char>, JsonView>::empty().insert(
                            "web"@,
                            JsonView::Array(Seq::empty()),
                        ).insert("news"@, JsonView::Array(Seq::empty())),
                    ),
                },
                metadata: match crate::json::field(body, "metadata"@) {
                    Some(m) => m,
                    None => JsonView::Null,
                },
            },
        ),
    }
}

/// What the provider answered, from its parsed body.
pub fn read_provider_response(
    body: &Result<Json, String>,
) -> (out: Result<WebSearchProviderResponse, ToolError>)
    ensures
        crate::error::outcome(out) == provider_response(crate::json::read_view(*body)),
{
    let body = match body {
        Ok(b) => b,
        Err(reason) => {
            return Err(
                ToolError::Execution(
                    concat("You.com search returned invalid JSON: ", reason.as_str()),
                ),
            );
        },
    };
    let results = match body.get("results") {
        Some(r) => r.copy(),
        None => {
            let web: Vec<Json> = Vec::new();
            let news: Vec<Json> = Vec::new();
            proof {
                assert(crate::json::array_view(web@) =~= Seq::empty());
                assert(crate::json::array_view(news@) =~= Seq::empty());
            }
            let mut fields = JsonObject::new();
            fields.set("web", Json::Array(web));
            fields.set("news", Json::Array(news));
            Json::Object(fields)
        },
    };
    let metadata = match body.get("metadata") {
        Some(m) => m.copy(),
        None => Json::Null,
    };
    Ok(WebSearchProviderResponse { results, metadata })
}

/// What the provider answered.
pub fn parse_provider_response(body: &str) -> (out: Result<WebSearchProviderResponse, ToolError>)
    ensures
        crate::error::outcome(out) == provider_response(crate::json::read_json(body@)),
{
    let parsed = Json::read(body);
    read_provider_response(&parsed)
}

/// How the provider's server replied.
#[derive(Debug, Clone, PartialEq)]
pub enum ProviderReply {
    /// It answered with a status that means success.
    Answered { body: String },
    /// It answered with another status.
    Refused { status: String, body: String },
    /// It could not be asked.
    Unreachable { reason: String },
    /// Its answer could not be read.
    Unreadable { reason: String },
}

/// The view of a [`ProviderReply`].
#[verifier::ext_equal]
pub enum ProviderReplyView {
    Answered { body: Seq<char> },
    Refused { status: Seq<char>, body: Seq<char> },
    Unreachable { reason: Seq<char> },
    Unreadable { reason: Seq<char> },
}

impl View for ProviderReply {
    type V = ProviderReplyView;

    open spec fn view(&self) -> ProviderReplyView {
        match *self {
            ProviderReply::Answered { body } => ProviderReplyView::Answered { body: body@ },
            ProviderReply::Refused { status, body } => ProviderReplyView::Refused {
                status: status@,
                body: body@,
            },
            ProviderReply::Unreachable { reason } => ProviderReplyView::Unreachable {
                reason: reason@,
            },
            ProviderReply::Unreadable { reason } => ProviderReplyView::Unreadable {
                reason: reason@,
            },
        }
    }
}

/// What a reply of the provider's server comes to, with the value that its body parses to.
pub open spec fn reply_outcome(
    reply: ProviderReplyView,
    parsed: Result<JsonView, Seq<char>>,
) -> Result<WebSearchProviderResponseView, ToolErrorView> {
    match reply {
        ProviderReplyView::Answered { .. } => provider_response(parsed),
        ProviderReplyView::Refused { status, body } => Err(
            ToolErrorView::Execution("You.com search returned "@ + status + ": "@ + body),
        ),
        ProviderReplyView::Unreachable { reason } => Err(
            ToolErrorView::Execution("You.com search request failed: "@ + reason),
        ),
        ProviderReplyView::Unreadable { reason } => Err(
            ToolErrorView::Execution("failed to read You.com search response: "@ + reason),
        ),
    }
}

/// The text of a reply that is parsed.
pub open spec fn reply_body(reply: ProviderReplyView) -> Seq<char> {
    match reply {
        ProviderReplyView::Answered { body } => body,
        _ => Seq::empty(),
    }
}

/// What a reply of the provider's server comes to.
pub fn read_reply(reply: &ProviderReply) -> (out: Result<WebSearchProviderResponse, ToolError>)
    ensures
        crate::error::outcome(out) == reply_outcome(
            reply@,
            crate::json::read_json(reply_body(reply@)),
        ),
{
    match reply {
        ProviderReply::Answered { body } => parse_provider_response(body.as_str()),
        ProviderReply::Refused { status, body } => {
            let start = concat3("You.com search returned ", status.as_str(), ": ");
            Err(ToolError::Execution(concat(start.as_str(), body.as_str())))
        },
        ProviderReply::Unreachable { reason } => Err(
            ToolError::Execution(concat("You.com search request failed: ", reason.as_str())),
        ),
        ProviderReply::Unreadable { reason } => Err(
            ToolError::Execution(
                concat("failed to read You.com search response: ", reason.as_str()),
            ),
        ),
    }
}

/// Where the provider at an address is asked.
pub fn search_url(base_url: &str) -> (url: String)
    ensures
        url@ == base_url@ + "/v1/search"@,
{
    concat(base_url, "/v1/search")
}

/// What a section of the results lists.
pub open spec fn section_items(results: JsonView, section: Seq<char>) -> Seq<JsonView> {
    match crate::json::field(results, section) {
        Some(JsonView::Array(items)) => items,
        _ => Seq::empty(),
    }
}

/// What a section of the first `n` answers lists, one after the other.
pub open spec fn gathered(
    responses: Seq<WebSearchProviderResponseView>,
    section: Seq<char>,
    n: int,
) -> Seq<JsonView>
    decreases n,
{
    if n <= 0 {
        Seq::empty()
    } else {
        gathered(responses, section, n - 1) + section_items(responses[n - 1].results, section)
    }
}

/// The output of a web search, as JSON.
pub open spec fn search_output(
    queries: Seq<Seq<char>>,
    responses: Seq<WebSearchProviderResponseView>,
) -> JsonView {
    let n = responses.len() as int;
    JsonView::Object(
        Map::<Seq<char>, JsonView>::empty().insert(
            "query"@,
            JsonView::Text(
                if queries.len() > 0 {
                    queries[0]
                } else {
                    Seq::empty()
                },
            ),
        ).insert("queries"@, JsonView::Array(crate::wire::list_json::<String>(queries))).insert(
            "results"@,
            JsonView::Object(
                Map::<Seq<char>, JsonView>::empty().insert(
                    "web"@,
                    JsonView::Array(gathered(responses, "web"@, n)),
                ).insert("news"@, JsonView::Array(gathered(responses, "news"@, n))),
            ),
        ).insert(
            "metadata"@,
            JsonView::Array(
                responses.map_values(|r: WebSearchProviderResponseView| r.metadata),
            ),
        ),
    )
}

fn gather(responses: &Vec<WebSearchProviderResponse>, section: &str) -> (out: Json)
    ensures
        out@ == JsonView::Array(
            gathered(crate::data::views(responses@), section@, responses@.len() as int),
        ),
{
    let mut out: Vec<Json> = Vec::new();
    let ghost all = crate::data::views(responses@);
    let mut i: usize = 0;
    proof {
        assert(crate::data::views(out@) =~= Seq::empty());
    }
    while i < responses.len()
        invariant
            i <= responses@.len(),
            all == crate::data::views(responses@),
            crate::data::views(out@) == gathered(all, section@, i as int),
        decreases responses@.len() - i,
    {
        proof {
            assert(all[i as int] == responses@[i as int]@);
            assert(crate::data::views(out@) + Seq::<JsonView>::empty() =~= crate::data::views(out@));
        }
        if let Some(Json::Array(items)) = responses[i].results.get(section) {
            let mut more = copy_vec(items);
            let ghost before = out@;
            let ghost added = more@;
            out.append(&mut more);
            proof {
                assert(crate::json::array_view(items@) =~= crate::data::views(items@));
                assert(crate::data::views(out@) =~= crate::data::views(before) + crate::data::views(
                    added,
                ));
            }
        }
        i = i + 1;
    }
    let value = Json::Array(out);
    proof {
        assert(crate::json::array_view(out@) =~= crate::data::views(out@));
    }
    value
}

/// The output of a web search, as JSON.
pub fn make_search_output(
    queries: &Vec<String>,
    responses: &Vec<WebSearchProviderResponse>,
) -> (out: Json)
    ensures
        out@ == search_output(crate::data::views(queries@), crate::data::views(responses@)),
{
    let mut metadata: Vec<Json> = Vec::new();
    let ghost all = crate::data::views(responses@);
    let mut i: usize = 0;
    while i < responses.len()
        invariant
            i <= responses@.len(),
            metadata@.len() == i,
            forall|j: int| 0 <= j < i ==> (#[trigger] metadata@[j])@ == responses@[j]@.metadata,
        decreases responses@.len() - i,
    {
        metadata.push(responses[i].metadata.copy());
        i = i + 1;
    }
    proof {
        assert(crate::json::array_view(metadata@) =~= all.map_values(
            |r: WebSearchProviderResponseView| r.metadata,
        ));
        assert(all.len() == responses@.len());
        assert(crate::data::views(queries@).len() == queries@.len());
    }
    let first = if queries.len() > 0 {
        queries[0].clone()
    } else {
        String::new()
    };
    let mut results = JsonObject::new();
    results.set("web", gather(responses, "web"));
    results.set("news", gather(responses, "news"));
    let mut fields = JsonObject::new();
    fields.set_str("query", first.as_str());
    fields.set("queries", write_list::<String>(queries));
    fields.set("results", Json::Object(results));
    fields.set("metadata", Json::Array(metadata));
    Json::Object(fields)
}

/// The output of a web search for its call.
pub fn finish_search(
    call_id: &str,
    queries: &Vec<String>,
    responses: &Vec<WebSearchProviderResponse>,
) -> (out: ToolOutput)
    ensures
        out@ == (ToolOutputView {
            call_id: call_id@,
            output: crate::json::json_text(
                search_output(crate::data::views(queries@), crate::data::views(responses@)),
            ),
        }),
{
    let json = make_search_output(queries, responses);
    ToolOutput { call_id: call_id.to_owned(), output: json.to_text() }
}

/// The text of a JSON value that says anything, without whitespace at its ends.
pub open spec fn clean_json(value: Option<JsonView>) -> Option<Seq<char>> {
    crate::custom::trimmed(crate::json::text_of(value))
}

fn clean_json_str(value: Option<&Json>) -> (out: Option<String>)
    ensures
        crate::data::opt_view(out) == clean_json(crate::json::ref_view(value)),
{
    match value {
        Some(v) => trim_opt(v.as_str()),
        None => None,
    }
}

/// The texts of the first `n` values that say anything.
pub open spec fn clean_values(values: Seq<JsonView>, n: int) -> Seq<Seq<char>>
    decreases n,
{
    if n <= 0 {
        Seq::empty()
    } else {
        match clean_json(Some(values[n - 1])) {
            Some(t) => clean_values(values, n - 1).push(t),
            None => clean_values(values, n - 1),
        }
    }
}

/// The queries that a value lists.
pub open spec fn listed_queries(value: JsonView) -> Option<Seq<Seq<char>>> {
    match crate::json::field(value, "queries"@) {
        Some(JsonView::Array(items)) => {
            let queries = clean_values(items, items.len() as int);
            if queries.len() == 0 {
                None
            } else {
                Some(queries)
            }
        },
        _ => None,
    }
}

fn queries_from_value(value: &Json) -> (out: Option<Vec<String>>)
    ensures
        crate::data::opt_views(out) == listed_queries(value@),
{
    let items = match value.get("queries") {
        Some(Json::Array(items)) => items,
        _ => {
            return None;
        },
    };
    let mut out: Vec<String> = Vec::new();
    let ghost all = crate::json::array_view(items@);
    let mut i: usize = 0;
    proof {
        assert(crate::data::views(out@) =~= Seq::empty());
    }
    while i < items.len()
        invariant
            i <= items@.len(),
            all == crate::json::array_view(items@),
            crate::data::views(out@) == clean_values(all, i as int),
        decreases items@.len() - i,
    {
        proof {
            assert(all[i as int] == items@[i as int]@);
        }
        if let Some(t) = clean_json_str(Some(&items[i])) {
            proof {
                crate::data::views_push(out@, t);
            }
            out.push(t);
        }
        i = i + 1;
    }
    proof {
        assert(crate::data::views(out@).len() == out@.len());
    }
    if out.len() == 0 {
        None
    } else {
        Some(out)
    }
}

/// The queries that parsed arguments ask for.
pub open spec fn asked_queries(arguments: Option<JsonView>) -> Option<Seq<Seq<char>>> {
    match arguments {
        Some(args) => match listed_queries(args) {
            Some(list) => Some(list),
            None => match clean_json(crate::json::field(args, "query"@)) {
                Some(query) => Some(seq![query]),
                None => None,
            },
        },
        None => None,
    }
}

fn queries_from_arguments(arguments: &Option<Json>) -> (out: Option<Vec<String>>)
    ensures
        crate::data::opt_views(out) == asked_queries(crate::data::opt_view(*arguments)),
{
    let args = match arguments {
        Some(a) => a,
        None => {
            return None;
        },
    };
    match queries_from_value(args) {
        Some(list) => Some(list),
        None => match clean_json_str(args.get("query")) {
            Some(query) => {
                let list = vec![query];
                proof {
                    assert(crate::data::views(list@) =~= seq![query@]);
                }
                Some(list)
            },
            None => None,
        },
    }
}

/// The queries of a search, or one that is empty.
pub open spec fn or_empty_query(queries: Option<Seq<Seq<char>>>) -> Seq<Seq<char>> {
    match queries {
        Some(list) => list,
        None => seq![Seq::empty()],
    }
}

/// The page that a result is.
pub open spec fn source_of(result: JsonView) -> Option<WebSearchSourceView> {
    match clean_json(crate::json::field(result, "url"@)) {
        Some(url) => Some(
            WebSearchSourceView { url, title: clean_json(crate::json::field(result, "title"@)) },
        ),
        None => None,
    }
}

fn source_from_result(result: &Json) -> (out: Option<WebSearchSource>)
    ensures
        crate::data::opt_view(out) == source_of(result@),
{
    match clean_json_str(result.get("url")) {
        Some(url) => Some(WebSearchSource { url, title: clean_json_str(result.get("title")) }),
        None => None,
    }
}

/// The pages that the first `n` results are.
pub open spec fn sources_of(results: Seq<JsonView>, n: int) -> Seq<WebSearchSourceView>
    decreases n,
{
    if n <= 0 {
        Seq::empty()
    } else {
        match source_of(results[n - 1]) {
            Some(s) => sources_of(results, n - 1).push(s),
            None => sources_of(results, n - 1),
        }
    }
}

/// The pages that a section of an output lists.
pub open spec fn section_sources(output: JsonView, section: Seq<char>) -> Seq<WebSearchSourceView> {
    match crate::json::field(output, "results"@) {
        Some(results) => {
            let items = section_items(results, section);
            sources_of(items, items.len() as int)
        },
        None => Seq::empty(),
    }
}

fn read_section_sources(output: &Json, section: &str) -> (out: Vec<WebSearchSource>)
    ensures
        crate::data::views(out@) == section_sources(output@, section@),
{
    let mut out: Vec<WebSearchSource> = Vec::new();
    proof {
        assert(crate::data::views(out@) =~= Seq::empty());
    }
    let results = match output.get("results") {
        Some(r) => r,
        None => {
            return out;
        },
    };
    let items = match results.get(section) {
        Some(Json::Array(items)) => items,
        _ => {
            return out;
        },
    };
    let ghost all = crate::json::array_view(items@);
    let mut i: usize = 0;
    while i < items.len()
        invariant
            i <= items@.len(),
            all == crate::json::array_view(items@),
            crate::data::views(out@) == sources_of(all, i as int),
        decreases items@.len() - i,
    {
        proof {
            assert(all[i as int] == items@[i as int]@);
        }
        if let Some(s) = source_from_result(&items[i]) {
            proof {
                crate::data::views_push(out@, s);
            }
            out.push(s);
        }
        i = i + 1;
    }
    out
}

/// The pages that an output lists: those of the web, then the news.
pub open spec fn output_sources(output: Option<JsonView>) -> Seq<WebSearchSourceView> {
    match output {
        Some(o) => section_sources(o, "web"@) + section_sources(o, "news"@),
        None => Seq::empty(),
    }
}

fn sources_from_output(output: &Option<Json>) -> (out: Vec<WebSearchSource>)
    ensures
        crate::data::views(out@) == output_sources(crate::data::opt_view(*output)),
{
    match output {
        Some(o) => {
            let mut out = read_section_sources(o, "web");
            let mut news = read_section_sources(o, "news");
            let ghost a = out@;
            let ghost b = news@;
            out.append(&mut news);
            proof {
                assert(crate::data::views(out@) =~= crate::data::views(a) + crate::data::views(b));
            }
            out
        },
        None => {
            let out: Vec<WebSearchSource> = Vec::new();
            proof {
                assert(crate::data::views(out@) =~= Seq::empty());
            }
            out
        },
    }
}

impl ToJson for WebSearchSource {
    open spec fn json_of(s: WebSearchSourceView) -> JsonView {
        JsonView::Object(
            crate::wire::with_text(
                Map::<Seq<char>, JsonView>::empty().insert("type"@, JsonView::Text("url"@)).insert(
                    "url"@,
                    JsonView::Text(s.url),
                ),
                "title"@,
                s.title,
            ),
        )
    }

    fn to_json(&self) -> (out: Json) {
        let mut fields = JsonObject::new();
        fields.set_str("type", "url");
        fields.set_str("url", self.url.as_str());
        set_text(&mut fields, "title", &self.title);
        Json::Object(fields)
    }
}

/// What a search did: what it asked for, and what it found.
pub open spec fn search_action(
    queries: Seq<Seq<char>>,
    sources: Seq<WebSearchSourceView>,
) -> WebSearchActionView {
    WebSearchActionView {
        fields: Map::<Seq<char>, JsonView>::empty().insert(
            "type"@,
            JsonView::Text("search"@),
        ).insert(
            "query"@,
            JsonView::Text(
                if queries.len() > 0 {
                    queries[0]
                } else {
                    Seq::empty()
                },
            ),
        ).insert("queries"@, JsonView::Array(crate::wire::list_json::<String>(queries))).insert(
            "sources"@,
            JsonView::Array(crate::wire::list_json::<WebSearchSource>(sources)),
        ),
    }
}

fn make_search_action(
    queries: &Vec<String>,
    sources: &Vec<WebSearchSource>,
) -> (action: WebSearchAction)
    ensures
        action@ == search_action(crate::data::views(queries@), crate::data::views(sources@)),
{
    let first = if queries.len() > 0 {
        queries[0].clone()
    } else {
        String::new()
    };
    proof {
        assert(crate::data::views(queries@).len() == queries@.len());
    }
    let mut fields = JsonObject::new();
    fields.set_str("type", "search");
    fields.set_str("query", first.as_str());
    fields.set("queries", write_list::<String>(queries));
    fields.set("sources", write_list::<WebSearchSource>(sources));
    WebSearchAction { fields }
}

/// The public item of a search that ended. Its queries are those that its output says,
/// else those that it was asked for.
pub open spec fn ended_item(
    call: FunctionToolCallView,
    output: Option<JsonView>,
    arguments: Option<JsonView>,
    status: WebSearchCallStatus,
    fresh: Seq<char>,
) -> OutputItemView {
    let said = match output {
        Some(o) => listed_queries(o),
        None => None,
    };
    let queries = match said {
        Some(list) => list,
        None => or_empty_query(asked_queries(arguments)),
    };
    OutputItemView::WebSearchCall(
        WebSearchCallView {
            id: crate::ids::output_id("ws_"@, call.id, call.call_id, fresh),
            status,
            action: search_action(queries, output_sources(output)),
        },
    )
}

fn or_empty_queries(queries: Option<Vec<String>>) -> (out: Vec<String>)
    ensures
        crate::data::views(out@) == or_empty_query(crate::data::opt_views(queries)),
{
    match queries {
        Some(list) => list,
        None => {
            let list = vec![String::new()];
            proof {
                assert(crate::data::views(list@) =~= seq![Seq::<char>::empty()]);
            }
            list
        },
    }
}

/// The public item of a search that ended, with its output and arguments parsed.
pub fn output_item_with(
    call: &FunctionToolCall,
    output: &Option<Json>,
    arguments: &Option<Json>,
    status: WebSearchCallStatus,
    fresh: &str,
) -> (item: OutputItem)
    ensures
        item@ == ended_item(
            call@,
            crate::data::opt_view(*output),
            crate::data::opt_view(*arguments),
            status,
            fresh@,
        ),
{
    let said = match output {
        Some(o) => queries_from_value(o),
        None => None,
    };
    let queries = match said {
        Some(list) => list,
        None => or_empty_queries(queries_from_arguments(arguments)),
    };
    let sources = sources_from_output(output);
    OutputItem::WebSearchCall(
        WebSearchCall {
            id: call_output_id("ws_", call.id.as_str(), call.call_id.as_str(), fresh),
            status,
            action: make_search_action(&queries, &sources),
        },
    )
}

/// The public item of a search that ended.
pub fn output_item(
    call: &FunctionToolCall,
    output: &ToolOutput,
    status: WebSearchCallStatus,
) -> (item: OutputItem)
    ensures
        exists|fresh: Seq<char>|
            crate::ids::is_uuid7(fresh) && item@ == #[trigger] ended_item(
                call@,
                crate::json::parsed_json(output@.output),
                crate::json::parsed_json(call@.arguments),
                status,
                fresh,
            ),
{
    let parsed = Json::parse(output.output.as_str());
    let arguments = Json::parse(call.arguments.as_str());
    let fresh = fresh_uuid();
    output_item_with(call, &parsed, &arguments, status, fresh.as_str())
}

/// The public item of a search that has begun.
pub open spec fn begun_item(
    call: FunctionToolCallView,
    arguments: Option<JsonView>,
    fresh: Seq<char>,
) -> OutputItemView {
    OutputItemView::WebSearchCall(
        WebSearchCallView {
            id: crate::ids::output_id("ws_"@, call.id, call.call_id, fresh),
            status: WebSearchCallStatus::InProgress,
            action: search_action(or_empty_query(asked_queries(arguments)), Seq::empty()),
        },
    )
}

/// The public item of a search that has begun, with its arguments parsed.
pub fn started_output_item_with(
    call: &FunctionToolCall,
    arguments: &Option<Json>,
    fresh: &str,
) -> (item: OutputItem)
    ensures
        item@ == begun_item(call@, crate::data::opt_view(*arguments), fresh@),
{
    let queries = or_empty_queries(queries_from_arguments(arguments));
    let sources: Vec<WebSearchSource> = Vec::new();
    proof {
        assert(crate::data::views(sources@) =~= Seq::empty());
    }
    OutputItem::WebSearchCall(
        WebSearchCall {
            id: call_output_id("ws_", call.id.as_str(), call.call_id.as_str(), fresh),
            status: WebSearchCallStatus::InProgress,
            action: make_search_action(&queries, &sources),
        },
    )
}

/// The public item of a search that has begun.
pub fn started_output_item(call: &FunctionToolCall) -> (item: OutputItem)
    ensures
        exists|fresh: Seq<char>|
            crate::ids::is_uuid7(fresh) && item@ == #[trigger] begun_item(
                call@,
                crate::json::parsed_json(call@.arguments),
                fresh,
            ),
{
    let arguments = Json::parse(call.arguments.as_str());
    let fresh = fresh_uuid();
    started_output_item_with(call, &arguments, fresh.as_str())
}

} // verus!
