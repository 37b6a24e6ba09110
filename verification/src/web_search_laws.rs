//! What a web search asks the provider for, and what the model and the client are told of its
//! answers.
use vstd::prelude::*;

#[allow(unused_imports)]
use crate::error::ToolErrorView;
#[allow(unused_imports)]
use crate::items::{
    FunctionToolCallView, OutputItemView, WebSearchCallStatus, WebSearchSource, WebSearchSourceView,
};
#[allow(unused_imports)]
use crate::json::JsonView;
#[allow(unused_imports)]
use crate::web_search::{
    ProviderReplyView, WebSearchArgumentsView, WebSearchConfigView, WebSearchHandlerView,
    WebSearchPlanView, WebSearchProviderResponseView, YouSearchRequestView,
};
#[allow(unused_imports)]
use crate::wire::ToJson;

verus! {

/// Whether each text of a list says something and has no whitespace at its ends.
pub open spec fn all_tight(values: Seq<Seq<char>>) -> bool {
    forall|i: int| 0 <= i < values.len() ==> crate::text_laws::is_tight(#[trigger] values[i])
}

proof fn tight_stays(text: Seq<char>)
    requires
        crate::text_laws::is_tight(text),
    ensures
        crate::text::trim_text(text) == text,
        crate::custom::trimmed(Some(text)) == Some(text),
{
    crate::text_laws::ends_are_trimmed(Seq::empty(), text, Seq::empty());
    assert(Seq::<char>::empty() + text + Seq::<char>::empty() =~= text);
}

/// Lists of texts keep every text that says something, in their order: the texts of two lists,
/// one behind the other, are those of the first and then those of the second.
pub proof fn lists_keep_their_order(a: Seq<Seq<char>>, b: Seq<Seq<char>>, n: int)
    requires
        0 <= n <= b.len(),
    ensures
        crate::web_search::cleaned(a + b, a.len() + n) == crate::web_search::cleaned(
            a,
            a.len() as int,
        ) + crate::web_search::cleaned(b, n),
    decreases n,
{
    if n > 0 {
        lists_keep_their_order(a, b, n - 1);
        assert((a + b)[a.len() + n - 1] == b[n - 1]);
        assert(crate::web_search::cleaned(a + b, a.len() + n) =~= crate::web_search::cleaned(
            a,
            a.len() as int,
        ) + crate::web_search::cleaned(b, n));
    } else {
        cleaned_prefix(a, b, a.len() as int);
        assert(crate::web_search::cleaned(b, 0) =~= Seq::empty());
    }
}

proof fn cleaned_prefix(a: Seq<Seq<char>>, b: Seq<Seq<char>>, n: int)
    requires
        0 <= n <= a.len(),
    ensures
        crate::web_search::cleaned(a + b, n) == crate::web_search::cleaned(a, n),
    decreases n,
{
    if n > 0 {
        cleaned_prefix(a, b, n - 1);
        assert((a + b)[n - 1] == a[n - 1]);
    }
}

/// A list of texts that all say something stays as it is; a blank text adds nothing to a list.
pub proof fn lists_keep_their_texts(values: Seq<Seq<char>>, n: int)
    requires
        all_tight(values),
        0 <= n <= values.len(),
    ensures
        crate::web_search::cleaned(values, n) == values.take(n),
        values.len() > 0 ==> crate::web_search::clean_list(Some(values)) == Some(values) || n
            < values.len(),
        crate::web_search::clean_list(None) is None,
        forall|blank: Seq<char>|
            crate::text_laws::is_space(blank) ==> #[trigger] crate::web_search::cleaned(
                seq![blank],
                1,
            ).len() == 0,
    decreases n,
{
    if n > 0 {
        lists_keep_their_texts(values, n - 1);
        tight_stays(values[n - 1]);
        assert(values.take(n) =~= values.take(n - 1).push(values[n - 1]));
    } else {
        assert(values.take(0) =~= Seq::empty());
    }
    assert(values.take(values.len() as int) =~= values);
    assert forall|blank: Seq<char>| crate::text_laws::is_space(blank) implies (
    #[trigger] crate::web_search::cleaned(seq![blank], 1)).len() == 0 by {
        crate::text_laws::ends_are_trimmed(blank, seq!['x'], Seq::empty());
        assert(crate::web_search::cleaned(seq![blank], 0).len() == 0);
    }
}

/// A search asks for the queries of its list, or for its one query where it has no list. One
/// without any query is refused.
pub proof fn queries_are_those_asked_for(args: WebSearchArgumentsView)
    ensures
        args.queries is Some && args.queries->0.len() > 0 && all_tight(args.queries->0)
            ==> crate::web_search::queries_of(args) == args.queries->0,
        args.queries is None && args.query is Some && crate::text_laws::is_tight(args.query->0)
            ==> crate::web_search::queries_of(args) == seq![args.query->0],
        args.queries is None && args.query is None ==> crate::web_search::arguments_of(Ok(args))
            is Err,
        crate::web_search::queries_of(args).len() > 0 ==> crate::web_search::arguments_of(Ok(args))
            == Ok::<WebSearchArgumentsView, ToolErrorView>(args),
{
    if args.queries is Some && args.queries->0.len() > 0 && all_tight(args.queries->0) {
        lists_keep_their_texts(args.queries->0, args.queries->0.len() as int);
    }
    if args.query is Some && crate::text_laws::is_tight(args.query->0) {
        tight_stays(args.query->0);
    }
}

/// Whether a list that is there is as it is sent.
pub open spec fn is_ready_list(list: Option<Seq<Seq<char>>>) -> bool {
    list is Some ==> list->0.len() > 0 && all_tight(list->0)
}

/// Whether a text that is there is as it is sent.
pub open spec fn is_ready(text: Option<Seq<char>>) -> bool {
    text is Some ==> crate::text_laws::is_tight(text->0)
}

/// Whether everything that a search asks for is as it is sent.
pub open spec fn is_all_ready(
    query: Seq<char>,
    args: WebSearchArgumentsView,
    config: WebSearchConfigView,
) -> bool {
    &&& crate::text_laws::is_tight(query)
    &&& is_ready(args.freshness) && is_ready(args.country) && is_ready(args.language) && is_ready(
        args.safesearch,
    ) && is_ready(args.livecrawl) && is_ready(config.country)
    &&& is_ready_list(args.livecrawl_formats) && is_ready_list(args.include_domains)
        && is_ready_list(args.exclude_domains) && is_ready_list(args.boost_domains)
        && is_ready_list(config.allowed_domains) && is_ready_list(config.blocked_domains)
}

proof fn ready_stays(text: Option<Seq<char>>)
    requires
        is_ready(text),
    ensures
        crate::custom::trimmed(text) == text,
{
    if text is Some {
        tight_stays(text->0);
    }
}

proof fn ready_list_stays(list: Option<Seq<Seq<char>>>)
    requires
        is_ready_list(list),
    ensures
        crate::web_search::clean_list(list) == list,
{
    if list is Some {
        lists_keep_their_texts(list->0, list->0.len() as int);
    }
}

/// A request says what the model asked for: the count, if it is from 1 to 100, the crawl
/// timeout, if it is from 1 to 60, and each other thing as it is. What the declaration says of
/// the count, of domains and of the country holds where the model says nothing, or goes before
/// it. Domains that are allowed cannot be combined with others.
pub proof fn requests_say_what_is_asked(
    query: Seq<char>,
    args: WebSearchArgumentsView,
    config: WebSearchConfigView,
)
    requires
        is_all_ready(query, args, config),
    ensures
        ({
            let request = crate::web_search::request_for(query, args, config);
            let r = request->Ok_0;
            let count = if args.count is Some {
                args.count
            } else {
                config.default_count
            };
            let allowed = if config.allowed_domains is Some {
                config.allowed_domains
            } else {
                args.include_domains
            };
            let blocked = if config.blocked_domains is Some {
                config.blocked_domains
            } else {
                args.exclude_domains
            };
            let country = if config.country is Some {
                config.country
            } else {
                args.country
            };
            &&& request is Ok <==> (count is Some ==> 1 <= count->0 <= 100)
                && (args.crawl_timeout is Some ==> 1 <= args.crawl_timeout->0 <= 60) && !(allowed
                is Some && (blocked is Some || args.boost_domains is Some))
            &&& request is Err ==> request->Err_0 is Config
            &&& request is Ok ==> {
                &&& r.query == query
                &&& r.count is Some <==> count is Some
                &&& count is Some ==> r.count->0 == count->0
                &&& r.crawl_timeout is Some <==> args.crawl_timeout is Some
                &&& args.crawl_timeout is Some ==> r.crawl_timeout->0 == args.crawl_timeout->0
                &&& r.freshness == args.freshness && r.language == args.language && r.safesearch
                    == args.safesearch && r.livecrawl == args.livecrawl
                &&& r.livecrawl_formats == args.livecrawl_formats
                &&& r.include_domains == allowed && r.exclude_domains == blocked
                    && r.boost_domains == args.boost_domains
                &&& r.country is Some <==> country is Some
                &&& country is Some ==> is_in_capitals(country->0, r.country->0)
            }
        }),
{
    tight_stays(query);
    ready_stays(args.freshness);
    ready_stays(args.country);
    ready_stays(args.language);
    ready_stays(args.safesearch);
    ready_stays(args.livecrawl);
    ready_stays(config.country);
    ready_list_stays(args.livecrawl_formats);
    ready_list_stays(args.include_domains);
    ready_list_stays(args.exclude_domains);
    ready_list_stays(args.boost_domains);
    ready_list_stays(config.allowed_domains);
    ready_list_stays(config.blocked_domains);
    let request = crate::web_search::request_for(query, args, config);
    if config.country is Some {
        small_letters_are_raised(config.country->0);
    } else if args.country is Some {
        small_letters_are_raised(args.country->0);
    }
}

proof fn letters_are_raised(c: char)
    ensures
        'a' <= c <= 'z' ==> c as u32 - crate::web_search::ascii_upper(c) as u32 == 'a' as u32
            - 'A' as u32,
        !('a' <= c <= 'z') ==> crate::web_search::ascii_upper(c) == c,
{
    if 'a' <= c <= 'z' {
        let v = (c as u32 - 0x20) as u8;
        assert((v as char) as u32 == v);
    }
}

proof fn small_letters_are_raised(text: Seq<char>)
    ensures
        is_in_capitals(text, text.map_values(|c: char| crate::web_search::ascii_upper(c))),
{
    let capitals = text.map_values(|c: char| crate::web_search::ascii_upper(c));
    assert forall|i: int| 0 <= i < text.len() implies if 'a' <= (#[trigger] text[i]) <= 'z' {
        text[i] as u32 - capitals[i] as u32 == 'a' as u32 - 'A' as u32
    } else {
        capitals[i] == text[i]
    } by {
        assert(capitals[i] == crate::web_search::ascii_upper(text[i]));
        letters_are_raised(text[i]);
    }
}

/// Whether a text is another with its small letters of ASCII as capitals.
pub open spec fn is_in_capitals(text: Seq<char>, capitals: Seq<char>) -> bool {
    &&& capitals.len() == text.len()
    &&& forall|i: int|
        0 <= i < text.len() ==> if 'a' <= (#[trigger] text[i]) <= 'z' {
            text[i] as u32 - capitals[i] as u32 == 'a' as u32 - 'A' as u32
        } else {
            capitals[i] == text[i]
        }
}

/// There is one request for each query, in the order of the queries.
pub proof fn each_query_is_requested(
    queries: Seq<Seq<char>>,
    args: WebSearchArgumentsView,
    config: WebSearchConfigView,
    n: int,
)
    requires
        0 <= n <= queries.len(),
        all_tight(queries),
        crate::web_search::requests_for(queries, args, config, n) is Ok,
    ensures
        ({
            let requests = crate::web_search::requests_for(queries, args, config, n)->Ok_0;
            &&& requests.len() == n
            &&& forall|i: int| 0 <= i < n ==> (#[trigger] requests[i]).query == queries[i]
            &&& forall|i: int|
                0 <= i < n ==> crate::web_search::request_for(queries[i], args, config) == Ok::<
                    YouSearchRequestView,
                    ToolErrorView,
                >(#[trigger] requests[i])
        }),
    decreases n,
{
    if n > 0 {
        each_query_is_requested(queries, args, config, n - 1);
        tight_stays(queries[n - 1]);
    }
}

/// A search is sent with the configured key and to the configured place, for all of its
/// queries. It is refused where the tool is another, no provider is known, the arguments
/// cannot be read, or the key or the place is missing.
pub proof fn plans_are_complete(
    handler: WebSearchHandlerView,
    tool_name: Seq<char>,
    arguments: Result<WebSearchArgumentsView, Seq<char>>,
    config: WebSearchConfigView,
)
    ensures
        ({
            let plan = crate::web_search::plan_of(handler, tool_name, arguments, config);
            &&& tool_name != "web_search"@ ==> plan is Err
            &&& handler.provider is None ==> plan is Err
            &&& arguments is Err ==> plan is Err
            &&& handler.provider is Some && (handler.provider->0.api_key is None
                || handler.provider->0.base_url is None) ==> plan is Err
            &&& plan is Err ==> plan->Err_0 is Config
            &&& plan is Ok ==> {
                &&& plan->Ok_0.api_key == handler.provider->0.api_key->0
                &&& plan->Ok_0.base_url == handler.provider->0.base_url->0
                &&& plan->Ok_0.queries == crate::web_search::queries_of(arguments->Ok_0)
                &&& plan->Ok_0.queries.len() > 0
                &&& plan->Ok_0.requests.len() == plan->Ok_0.queries.len()
            }
        }),
{
    if arguments is Ok {
        let args = arguments->Ok_0;
        let queries = crate::web_search::queries_of(args);
        if crate::web_search::requests_for(queries, args, config, queries.len() as int) is Ok {
            requests_count(queries, args, config, queries.len() as int);
        }
        if crate::web_search::requests_for(queries, args, config, queries.len() as int) is Err {
            requests_errors(queries, args, config, queries.len() as int);
        }
    }
}

proof fn requests_count(
    queries: Seq<Seq<char>>,
    args: WebSearchArgumentsView,
    config: WebSearchConfigView,
    n: int,
)
    requires
        0 <= n <= queries.len(),
        crate::web_search::requests_for(queries, args, config, n) is Ok,
    ensures
        crate::web_search::requests_for(queries, args, config, n)->Ok_0.len() == n,
    decreases n,
{
    if n > 0 {
        requests_count(queries, args, config, n - 1);
    }
}

proof fn requests_errors(
    queries: Seq<Seq<char>>,
    args: WebSearchArgumentsView,
    config: WebSearchConfigView,
    n: int,
)
    requires
        0 <= n <= queries.len(),
        crate::web_search::requests_for(queries, args, config, n) is Err,
    ensures
        crate::web_search::requests_for(queries, args, config, n)->Err_0 is Config,
    decreases n,
{
    if n > 0 {
        if crate::web_search::requests_for(queries, args, config, n - 1) is Err {
            requests_errors(queries, args, config, n - 1);
        }
    }
}

/// A key and a place are configured without the whitespace at their ends, and the place
/// without slashes behind it.
pub proof fn providers_are_configured_cleanly(api_key: Seq<char>, url: Seq<char>, slashes: Seq<char>)
    requires
        crate::text_laws::is_tight(api_key),
        crate::text_laws::is_tight(url),
        url.last() != '/',
        forall|i: int| 0 <= i < slashes.len() ==> #[trigger] slashes[i] == '/',
    ensures
        ({
            let handler = crate::web_search::handler_of(Some(api_key), Some(url + slashes));
            &&& handler.provider is Some
            &&& handler.provider->0.api_key == Some(api_key)
            &&& handler.provider->0.base_url == Some(url)
        }),
        ({
            let handler = crate::web_search::handler_of(None, None);
            handler.provider is Some && handler.provider->0.api_key is None
                && handler.provider->0.base_url is None
        }),
{
    tight_stays(api_key);
    assert(crate::text_laws::is_tight(url + slashes)) by {
        crate::text_laws::whitespace_is_what_it_is('/');
    }
    tight_stays(url + slashes);
    crate::text_laws::trailing_marks_go(url, slashes, '/');
}

/// The parameter for something that may be absent.
pub open spec fn one_param(key: Seq<char>, value: Option<Seq<char>>) -> Seq<
    (Seq<char>, Seq<char>),
> {
    match value {
        Some(v) => seq![(key, v)],
        None => Seq::empty(),
    }
}

/// A number that may be absent, in decimal.
pub open spec fn in_decimal(value: Option<u8>) -> Option<Seq<char>> {
    match value {
        Some(v) => Some(crate::text::decimal_text(v as nat)),
        None => None,
    }
}

/// The parameters for a list that may be absent, one for each text.
pub open spec fn list_params(key: Seq<char>, values: Option<Seq<Seq<char>>>) -> Seq<
    (Seq<char>, Seq<char>),
> {
    match values {
        Some(list) => Seq::new(list.len(), |i: int| (key, list[i])),
        None => Seq::empty(),
    }
}

proof fn params_follow(
    params: Seq<(Seq<char>, Seq<char>)>,
    key: Seq<char>,
    value: Option<Seq<char>>,
)
    ensures
        crate::web_search::with_param(params, key, value) == params + one_param(key, value),
{
    assert(crate::web_search::with_param(params, key, value) =~= params + one_param(key, value));
}

proof fn number_params_follow(
    params: Seq<(Seq<char>, Seq<char>)>,
    key: Seq<char>,
    value: Option<u8>,
)
    ensures
        crate::web_search::with_number_param(params, key, value) == params + one_param(
            key,
            in_decimal(value),
        ),
{
    assert(crate::web_search::with_number_param(params, key, value) =~= params + one_param(
        key,
        in_decimal(value),
    ));
}

proof fn lists_follow(
    params: Seq<(Seq<char>, Seq<char>)>,
    key: Seq<char>,
    values: Option<Seq<Seq<char>>>,
)
    ensures
        crate::web_search::with_list_params(params, key, values) == params + list_params(
            key,
            values,
        ),
{
    assert(crate::web_search::with_list_params(params, key, values) =~= params + list_params(
        key,
        values,
    ));
}

/// A request is sent with the query first, and then with everything else that it says, each
/// under its own name, a list with one parameter for each of its texts; with nothing for what
/// it does not say.
pub proof fn requests_are_sent_whole(r: YouSearchRequestView)
    ensures
        crate::web_search::params_of(r) == seq![("query"@, r.query)] + one_param(
            "count"@,
            in_decimal(r.count),
        ) + one_param("freshness"@, r.freshness) + one_param("country"@, r.country) + one_param(
            "language"@,
            r.language,
        ) + one_param("safesearch"@, r.safesearch) + one_param("livecrawl"@, r.livecrawl)
            + list_params("livecrawl_formats"@, r.livecrawl_formats) + one_param(
            "crawl_timeout"@,
            in_decimal(r.crawl_timeout),
        ) + list_params("include_domains"@, r.include_domains) + list_params(
            "exclude_domains"@,
            r.exclude_domains,
        ) + list_params("boost_domains"@, r.boost_domains),
{
    let p0 = seq![("query"@, r.query)];
    let p1 = crate::web_search::with_number_param(p0, "count"@, r.count);
    number_params_follow(p0, "count"@, r.count);
    let p2 = crate::web_search::with_param(p1, "freshness"@, r.freshness);
    params_follow(p1, "freshness"@, r.freshness);
    let p3 = crate::web_search::with_param(p2, "country"@, r.country);
    params_follow(p2, "country"@, r.country);
    let p4 = crate::web_search::with_param(p3, "language"@, r.language);
    params_follow(p3, "language"@, r.language);
    let p5 = crate::web_search::with_param(p4, "safesearch"@, r.safesearch);
    params_follow(p4, "safesearch"@, r.safesearch);
    let p6 = crate::web_search::with_param(p5, "livecrawl"@, r.livecrawl);
    params_follow(p5, "livecrawl"@, r.livecrawl);
    let p7 = crate::web_search::with_list_params(p6, "livecrawl_formats"@, r.livecrawl_formats);
    lists_follow(p6, "livecrawl_formats"@, r.livecrawl_formats);
    let p8 = crate::web_search::with_number_param(p7, "crawl_timeout"@, r.crawl_timeout);
    number_params_follow(p7, "crawl_timeout"@, r.crawl_timeout);
    let p9 = crate::web_search::with_list_params(p8, "include_domains"@, r.include_domains);
    lists_follow(p8, "include_domains"@, r.include_domains);
    let p10 = crate::web_search::with_list_params(p9, "exclude_domains"@, r.exclude_domains);
    lists_follow(p9, "exclude_domains"@, r.exclude_domains);
    let p11 = crate::web_search::with_list_params(p10, "boost_domains"@, r.boost_domains);
    lists_follow(p10, "boost_domains"@, r.boost_domains);
}

/// What a declaration says of domains, of the country and of the size of a search is what its
/// searches go by.
pub proof fn declarations_are_heeded(
    config: Map<Seq<char>, JsonView>,
    filters: Map<Seq<char>, JsonView>,
    location: Map<Seq<char>, JsonView>,
    domain: Seq<char>,
    country: Seq<char>,
    default_count: Option<u16>,
)
    requires
        config.contains_key("filters"@),
        config["filters"@] == JsonView::Object(filters),
        config.contains_key("user_location"@),
        config["user_location"@] == JsonView::Object(location),
        location.contains_key("country"@),
        location["country"@] == JsonView::Text(country),
    ensures
        ({
            let c = crate::web_search::config_of(JsonView::Object(config), default_count);
            let one = JsonView::Array(seq![JsonView::Text(domain)]);
            &&& c.default_count == default_count
            &&& c.country == Some(country)
            &&& filters.contains_key("allowed_domains"@) && filters["allowed_domains"@] == one
                ==> c.allowed_domains == Some(seq![domain])
            &&& filters.contains_key("blocked_domains"@) && filters["blocked_domains"@] == one
                ==> c.blocked_domains == Some(seq![domain])
            &&& !filters.contains_key("allowed_domains"@) ==> c.allowed_domains is None
            &&& !filters.contains_key("blocked_domains"@) ==> c.blocked_domains is None
        }),
{
    let items = seq![JsonView::Text(domain)];
    reveal_with_fuel(crate::wire::list_of, 2);
    assert(crate::wire::list_of::<String>(items, 1) == Some(seq![domain])) by {
        assert(crate::wire::list_of::<String>(items, 0) == Some(Seq::<Seq<char>>::empty()));
        assert(Seq::<Seq<char>>::empty().push(domain) =~= seq![domain]);
    }
}

/// What the provider answers is what it found and what it says of it; a provider that was not
/// reached, that refused or whose answer cannot be read is an error that says why.
pub proof fn answers_are_read(
    body: Map<Seq<char>, JsonView>,
    text: Seq<char>,
    status: Seq<char>,
    reason: Seq<char>,
)
    ensures
        ({
            let read = crate::web_search::reply_outcome(
                ProviderReplyView::Answered { body: text },
                Ok(JsonView::Object(body)),
            );
            &&& read is Ok
            &&& body.contains_key("results"@) ==> read->Ok_0.results == body["results"@]
            &&& body.contains_key("metadata"@) ==> read->Ok_0.metadata == body["metadata"@]
            &&& !body.contains_key("metadata"@) ==> read->Ok_0.metadata is Null
        }),
        crate::web_search::reply_outcome(
            ProviderReplyView::Answered { body: text },
            Err(reason),
        ) is Err,
        ({
            let refused = crate::web_search::reply_outcome(
                ProviderReplyView::Refused { status, body: text },
                Err(reason),
            );
            refused is Err && refused->Err_0 is Execution && exists|before: Seq<char>|
                refused->Err_0->Execution_0 == #[trigger] (before + status + ": "@ + text)
        }),
        ({
            let lost = crate::web_search::reply_outcome(
                ProviderReplyView::Unreachable { reason },
                Err(reason),
            );
            lost is Err && lost->Err_0 is Execution && exists|before: Seq<char>|
                lost->Err_0->Execution_0 == #[trigger] (before + reason)
        }),
        ({
            let lost = crate::web_search::reply_outcome(
                ProviderReplyView::Unreadable { reason },
                Err(reason),
            );
            lost is Err && lost->Err_0 is Execution && exists|before: Seq<char>|
                lost->Err_0->Execution_0 == #[trigger] (before + reason)
        }),
        crate::web_search::reply_body(ProviderReplyView::Answered { body: text }) == text,
{
    assert(crate::web_search::reply_outcome(
        ProviderReplyView::Refused { status, body: text },
        Err(reason),
    )->Err_0->Execution_0 == ("You.com search returned "@) + status + ": "@ + text);
    assert(crate::web_search::reply_outcome(
        ProviderReplyView::Unreachable { reason },
        Err(reason),
    )->Err_0->Execution_0 == ("You.com search request failed: "@) + reason);
    assert(crate::web_search::reply_outcome(
        ProviderReplyView::Unreadable { reason },
        Err(reason),
    )->Err_0->Execution_0 == ("failed to read You.com search response: "@) + reason);
}

/// Whether a result is in a section of an answer.
pub open spec fn is_found(
    response: WebSearchProviderResponseView,
    section: Seq<char>,
    result: JsonView,
) -> bool {
    &&& response.results is Object
    &&& response.results->Object_0.contains_key(section)
    &&& response.results->Object_0[section] is Array
    &&& response.results->Object_0[section]->Array_0.contains(result)
}

proof fn found_is_gathered(
    responses: Seq<WebSearchProviderResponseView>,
    section: Seq<char>,
    i: int,
    result: JsonView,
    n: int,
)
    requires
        0 <= i < n <= responses.len(),
        is_found(responses[i], section, result),
    ensures
        crate::web_search::gathered(responses, section, n).contains(result),
    decreases n,
{
    let before = crate::web_search::gathered(responses, section, n - 1);
    let more = crate::web_search::section_items(responses[n - 1].results, section);
    if i < n - 1 {
        found_is_gathered(responses, section, i, result, n - 1);
        let k = choose|k: int| 0 <= k < before.len() && before[k] == result;
        assert((before + more)[k] == result);
    } else {
        let k = choose|k: int| 0 <= k < more.len() && more[k] == result;
        assert((before + more)[before.len() + k] == result);
    }
}

proof fn gathered_is_found(
    responses: Seq<WebSearchProviderResponseView>,
    section: Seq<char>,
    result: JsonView,
    n: int,
) -> (i: int)
    requires
        0 <= n <= responses.len(),
        crate::web_search::gathered(responses, section, n).contains(result),
    ensures
        0 <= i < n,
        is_found(responses[i], section, result),
    decreases n,
{
    let before = crate::web_search::gathered(responses, section, n - 1);
    let more = crate::web_search::section_items(responses[n - 1].results, section);
    if n > 0 {
        let k = choose|k: int| 0 <= k < (before + more).len() && (before + more)[k] == result;
        if k < before.len() {
            assert(before[k] == result);
            gathered_is_found(responses, section, result, n - 1)
        } else {
            assert(more[k - before.len()] == result);
            n - 1
        }
    } else {
        0
    }
}

/// The model is told all queries and everything that any answer lists of the web and of the
/// news, each in its section, nothing else, and what each answer says of itself, in order.
pub proof fn answers_are_told_whole(
    queries: Seq<Seq<char>>,
    responses: Seq<WebSearchProviderResponseView>,
)
    requires
        queries.len() > 0,
    ensures
        ({
            let output = crate::web_search::search_output(queries, responses);
            let fields = output->Object_0;
            let results = fields["results"@]->Object_0;
            &&& output is Object
            &&& fields.contains_key("query"@) && fields["query"@] == JsonView::Text(queries[0])
            &&& fields.contains_key("queries"@) && fields["queries"@] is Array
            &&& fields["queries"@]->Array_0.len() == queries.len()
            &&& forall|i: int|
                0 <= i < queries.len() ==> (#[trigger] fields["queries"@]->Array_0[i])
                    == JsonView::Text(queries[i])
            &&& fields.contains_key("results"@) && fields["results"@] is Object
            &&& results.contains_key("web"@) && results["web"@] is Array
            &&& results.contains_key("news"@) && results["news"@] is Array
            &&& forall|i: int, result: JsonView|
                0 <= i < responses.len() && #[trigger] is_found(responses[i], "web"@, result)
                    ==> results["web"@]->Array_0.contains(result)
            &&& forall|i: int, result: JsonView|
                0 <= i < responses.len() && #[trigger] is_found(responses[i], "news"@, result)
                    ==> results["news"@]->Array_0.contains(result)
            &&& forall|result: JsonView| #[trigger]
                results["web"@]->Array_0.contains(result) ==> exists|i: int|
                    0 <= i < responses.len() && is_found(#[trigger] responses[i], "web"@, result)
            &&& forall|result: JsonView| #[trigger]
                results["news"@]->Array_0.contains(result) ==> exists|i: int|
                    0 <= i < responses.len() && is_found(#[trigger] responses[i], "news"@, result)
            &&& fields.contains_key("metadata"@) && fields["metadata"@] is Array
            &&& fields["metadata"@]->Array_0.len() == responses.len()
            &&& forall|i: int|
                0 <= i < responses.len() ==> (#[trigger] fields["metadata"@]->Array_0[i])
                    == responses[i].metadata
        }),
{
    key_literals_differ();
    let output = crate::web_search::search_output(queries, responses);
    let results = output->Object_0["results"@]->Object_0;
    let n = responses.len() as int;
    assert(results["web"@] == JsonView::Array(
        crate::web_search::gathered(responses, "web"@, n),
    ));
    assert(results["news"@] == JsonView::Array(
        crate::web_search::gathered(responses, "news"@, n),
    ));
    assert forall|i: int, result: JsonView|
        0 <= i < responses.len() && #[trigger] is_found(
            responses[i],
            "web"@,
            result,
        ) implies results["web"@]->Array_0.contains(result) by {
        found_is_gathered(responses, "web"@, i, result, n);
    }
    assert forall|i: int, result: JsonView|
        0 <= i < responses.len() && #[trigger] is_found(
            responses[i],
            "news"@,
            result,
        ) implies results["news"@]->Array_0.contains(result) by {
        found_is_gathered(responses, "news"@, i, result, n);
    }
    assert forall|result: JsonView| #[trigger]
        results["web"@]->Array_0.contains(result) implies exists|i: int|
        0 <= i < responses.len() && is_found(#[trigger] responses[i], "web"@, result) by {
        let i = gathered_is_found(responses, "web"@, result, n);
        let response = responses[i];
    }
    assert forall|result: JsonView| #[trigger]
        results["news"@]->Array_0.contains(result) implies exists|i: int|
        0 <= i < responses.len() && is_found(#[trigger] responses[i], "news"@, result) by {
        let i = gathered_is_found(responses, "news"@, result, n);
        let response = responses[i];
    }
}

proof fn key_literals_differ()
    ensures
        "query"@ != "queries"@,
        "query"@ != "results"@,
        "query"@ != "metadata"@,
        "queries"@ != "results"@,
        "queries"@ != "metadata"@,
        "results"@ != "metadata"@,
        "web"@ != "news"@,
        "type"@ != "query"@,
        "type"@ != "queries"@,
        "type"@ != "sources"@,
        "type"@ != "url"@,
        "type"@ != "title"@,
        "url"@ != "title"@,
        "query"@ != "sources"@,
        "queries"@ != "sources"@,
{
    reveal_strlit("query");
    reveal_strlit("queries");
    reveal_strlit("results");
    reveal_strlit("metadata");
    reveal_strlit("web");
    reveal_strlit("news");
    reveal_strlit("type");
    reveal_strlit("sources");
    reveal_strlit("url");
    reveal_strlit("title");
    assert("query"@.len() == 5);
    assert("queries"@.len() == 7);
    assert("queries"@[0] == 'q');
    assert("results"@.len() == 7);
    assert("results"@[0] == 'r');
    assert("metadata"@.len() == 8);
    assert("web"@.len() == 3);
    assert("news"@.len() == 4);
    assert("type"@.len() == 4);
    assert("sources"@.len() == 7);
    assert("sources"@[0] == 's');
    assert("url"@.len() == 3);
    assert("title"@.len() == 5);
}

proof fn pages_are_sources(results: Seq<JsonView>, n: int, i: int)
    requires
        0 <= i < n <= results.len(),
        crate::web_search::source_of(results[i]) is Some,
    ensures
        crate::web_search::sources_of(results, n).contains(
            crate::web_search::source_of(results[i])->0,
        ),
    decreases n,
{
    let now = crate::web_search::sources_of(results, n);
    let before = crate::web_search::sources_of(results, n - 1);
    let source = crate::web_search::source_of(results[i])->0;
    if i < n - 1 {
        pages_are_sources(results, n - 1, i);
        let k = choose|k: int| 0 <= k < before.len() && before[k] == source;
        assert(now[k] == source);
    } else {
        assert(now[now.len() - 1] == source);
    }
}

/// Whether a value is a page of a result: its address, and its title where it has one.
pub open spec fn is_page(
    result: Map<Seq<char>, JsonView>,
    url: Seq<char>,
    title: Option<Seq<char>>,
) -> bool {
    &&& result.contains_key("url"@) && result["url"@] == JsonView::Text(url)
    &&& crate::text_laws::is_tight(url)
    &&& match title {
        Some(title) => result.contains_key("title"@) && result["title"@] == JsonView::Text(title)
            && crate::text_laws::is_tight(title),
        None => !result.contains_key("title"@),
    }
}

/// Every page that an output lists, of the web or of the news, is a source of the search that
/// clients are shown, with its address and title; those of the web come first.
pub proof fn pages_are_shown(
    fields: Map<Seq<char>, JsonView>,
    results: Map<Seq<char>, JsonView>,
    section: Seq<char>,
    items: Seq<JsonView>,
    i: int,
    page: Map<Seq<char>, JsonView>,
    url: Seq<char>,
    title: Option<Seq<char>>,
)
    requires
        fields.contains_key("results"@),
        fields["results"@] == JsonView::Object(results),
        section == "web"@ || section == "news"@,
        results.contains_key(section),
        results[section] == JsonView::Array(items),
        0 <= i < items.len(),
        items[i] == JsonView::Object(page),
        is_page(page, url, title),
    ensures
        crate::web_search::output_sources(Some(JsonView::Object(fields))).contains(
            (WebSearchSourceView { url, title }),
        ),
{
    tight_stays(url);
    if title is Some {
        tight_stays(title->0);
    }
    let output = JsonView::Object(fields);
    let web = crate::web_search::section_sources(output, "web"@);
    let news = crate::web_search::section_sources(output, "news"@);
    let source = WebSearchSourceView { url, title };
    assert(crate::web_search::source_of(items[i]) == Some(source));
    pages_are_sources(items, items.len() as int, i);
    if section == "web"@ {
        let k = choose|k: int| 0 <= k < web.len() && web[k] == source;
        assert((web + news)[k] == source);
    } else {
        let k = choose|k: int| 0 <= k < news.len() && news[k] == source;
        assert((web + news)[web.len() + k] == source);
    }
}

/// What clients are shown of a search that begins or has ended: an item under the call's
/// identity, with the status, the queries and the sources. The queries are those that the
/// output says, or else those that the arguments ask for.
pub proof fn searches_are_shown(
    call: FunctionToolCallView,
    output: Option<JsonView>,
    arguments: Option<JsonView>,
    status: WebSearchCallStatus,
    fresh: Seq<char>,
    suffix: Seq<char>,
)
    requires
        call.id == "fc_"@ + suffix,
        suffix.len() > 0,
    ensures
        ({
            let ended = crate::web_search::ended_item(call, output, arguments, status, fresh);
            let begun = crate::web_search::begun_item(call, arguments, fresh);
            let did = ended->WebSearchCall_0.action.fields;
            let queries = if output is Some && crate::web_search::listed_queries(output->0)
                is Some {
                crate::web_search::listed_queries(output->0)->0
            } else {
                crate::web_search::or_empty_query(crate::web_search::asked_queries(arguments))
            };
            let sources = crate::web_search::output_sources(output);
            &&& ended is WebSearchCall && begun is WebSearchCall
            &&& ended->WebSearchCall_0.id == "ws_"@ + suffix
            &&& begun->WebSearchCall_0.id == "ws_"@ + suffix
            &&& ended->WebSearchCall_0.status == status
            &&& begun->WebSearchCall_0.status is InProgress
            &&& did.contains_key("type"@) && did["type"@] == JsonView::Text("search"@)
            &&& did.contains_key("query"@) && (queries.len() > 0 ==> did["query"@]
                == JsonView::Text(queries[0]))
            &&& did.contains_key("queries"@) && did["queries"@] is Array
            &&& did["queries"@]->Array_0.len() == queries.len()
            &&& forall|i: int|
                0 <= i < queries.len() ==> (#[trigger] did["queries"@]->Array_0[i])
                    == JsonView::Text(queries[i])
            &&& did.contains_key("sources"@) && did["sources"@] is Array
            &&& did["sources"@]->Array_0.len() == sources.len()
            &&& forall|i: int|
                0 <= i < sources.len() ==> shows_source(
                    #[trigger] did["sources"@]->Array_0[i],
                    sources[i],
                )
            &&& begun->WebSearchCall_0.action.fields["sources"@] == JsonView::Array(Seq::empty())
        }),
{
    key_literals_differ();
    crate::text_laws::shown_identities_follow_the_call(
        "ws_"@,
        call.id,
        call.call_id,
        fresh,
        suffix,
    );
    let begun = crate::web_search::begun_item(call, arguments, fresh);
    assert(crate::wire::list_json::<WebSearchSource>(Seq::empty()) =~= Seq::empty());
}

/// Whether a value shows a page: that it is one, its address, and its title where it has one.
pub open spec fn shows_source(value: JsonView, source: WebSearchSourceView) -> bool {
    let fields = value->Object_0;
    &&& value is Object
    &&& fields.contains_key("type"@) && fields["type"@] == JsonView::Text("url"@)
    &&& fields.contains_key("url"@) && fields["url"@] == JsonView::Text(source.url)
    &&& fields.contains_key("title"@) <==> source.title is Some
    &&& source.title is Some ==> fields["title"@] == JsonView::Text(source.title->0)
}

/// The queries that arguments ask for are their list, or their one query; arguments that ask
/// for none show one that is empty.
pub proof fn asked_queries_are_read(args: Map<Seq<char>, JsonView>, query: Seq<char>)
    requires
        crate::text_laws::is_tight(query),
    ensures
        args.contains_key("queries"@) && args["queries"@] == JsonView::Array(
            seq![JsonView::Text(query)],
        ) ==> crate::web_search::asked_queries(Some(JsonView::Object(args))) == Some(seq![query]),
        !args.contains_key("queries"@) && args.contains_key("query"@) && args["query"@]
            == JsonView::Text(query) ==> crate::web_search::asked_queries(
            Some(JsonView::Object(args)),
        ) == Some(seq![query]),
        !args.contains_key("queries"@) && !args.contains_key("query"@)
            ==> crate::web_search::or_empty_query(
            crate::web_search::asked_queries(Some(JsonView::Object(args))),
        ) == seq![Seq::<char>::empty()],
        crate::web_search::or_empty_query(crate::web_search::asked_queries(None)) == seq![
            Seq::<char>::empty(),
        ],
{
    tight_stays(query);
    let items = seq![JsonView::Text(query)];
    assert(crate::web_search::clean_values(items, 0) =~= Seq::empty());
    assert(crate::web_search::clean_values(items, 1) =~= seq![query]);
}

/// What answers list is told in their order, one answer after the other, with nothing told
/// twice.
pub proof fn answers_are_told_in_order(
    responses: Seq<WebSearchProviderResponseView>,
    section: Seq<char>,
    n: int,
    items: Seq<JsonView>,
)
    requires
        0 < n <= responses.len(),
        responses[n - 1].results is Object,
        responses[n - 1].results->Object_0.contains_key(section),
        responses[n - 1].results->Object_0[section] == JsonView::Array(items),
    ensures
        ({
            let before = crate::web_search::gathered(responses, section, n - 1);
            let after = crate::web_search::gathered(responses, section, n);
            &&& after.len() == before.len() + items.len()
            &&& forall|i: int| 0 <= i < before.len() ==> #[trigger] after[i] == before[i]
            &&& forall|i: int|
                0 <= i < items.len() ==> (#[trigger] items[i]) == after[before.len() + i]
        }),
        crate::web_search::gathered(responses, section, 0).len() == 0,
{
}

/// The texts of a list, as values.
pub open spec fn as_values(texts: Seq<Seq<char>>) -> Seq<JsonView> {
    Seq::new(texts.len(), |i: int| JsonView::Text(texts[i]))
}

proof fn tight_values_stay(texts: Seq<Seq<char>>, n: int)
    requires
        all_tight(texts),
        0 <= n <= texts.len(),
    ensures
        crate::web_search::clean_values(as_values(texts), n) == texts.take(n),
    decreases n,
{
    if n > 0 {
        tight_values_stay(texts, n - 1);
        tight_stays(texts[n - 1]);
        assert(as_values(texts)[n - 1] == JsonView::Text(texts[n - 1]));
        assert(texts.take(n) =~= texts.take(n - 1).push(texts[n - 1]));
    } else {
        assert(texts.take(0) =~= Seq::empty());
    }
}

/// All queries of a list are read, in their order, from arguments as from an output.
pub proof fn all_queries_are_read(fields: Map<Seq<char>, JsonView>, queries: Seq<Seq<char>>)
    requires
        queries.len() > 0,
        all_tight(queries),
        fields.contains_key("queries"@),
        fields["queries"@] == JsonView::Array(as_values(queries)),
    ensures
        crate::web_search::listed_queries(JsonView::Object(fields)) == Some(queries),
        crate::web_search::asked_queries(Some(JsonView::Object(fields))) == Some(queries),
{
    tight_values_stay(queries, queries.len() as int);
    assert(queries.take(queries.len() as int) =~= queries);
}

proof fn texts_are_listed(texts: Seq<Seq<char>>, n: int)
    requires
        0 <= n <= texts.len(),
    ensures
        crate::wire::list_of::<String>(as_values(texts), n) == Some(texts.take(n)),
    decreases n,
{
    if n > 0 {
        texts_are_listed(texts, n - 1);
        assert(as_values(texts)[n - 1] == JsonView::Text(texts[n - 1]));
        assert(texts.take(n) =~= texts.take(n - 1).push(texts[n - 1]));
    } else {
        assert(texts.take(0) =~= Seq::empty());
    }
}

/// All domains that a declaration allows or blocks are heeded, in their order.
pub proof fn all_domains_are_heeded(
    config: Map<Seq<char>, JsonView>,
    filters: Map<Seq<char>, JsonView>,
    domains: Seq<Seq<char>>,
    default_count: Option<u16>,
)
    requires
        config.contains_key("filters"@),
        config["filters"@] == JsonView::Object(filters),
    ensures
        ({
            let c = crate::web_search::config_of(JsonView::Object(config), default_count);
            let all = JsonView::Array(as_values(domains));
            &&& filters.contains_key("allowed_domains"@) && filters["allowed_domains"@] == all
                ==> c.allowed_domains == Some(domains)
            &&& filters.contains_key("blocked_domains"@) && filters["blocked_domains"@] == all
                ==> c.blocked_domains == Some(domains)
        }),
{
    texts_are_listed(domains, domains.len() as int);
    assert(domains.take(domains.len() as int) =~= domains);
}

/// The pages of the web come before those of the news, and each section keeps its order.
pub proof fn pages_keep_their_order(output: JsonView, results: Seq<JsonView>, n: int)
    requires
        0 < n <= results.len(),
    ensures
        ({
            let web = crate::web_search::section_sources(output, "web"@);
            let news = crate::web_search::section_sources(output, "news"@);
            let all = crate::web_search::output_sources(Some(output));
            &&& all.len() == web.len() + news.len()
            &&& forall|i: int| 0 <= i < web.len() ==> (#[trigger] web[i]) == all[i]
            &&& forall|i: int| 0 <= i < news.len() ==> (#[trigger] news[i]) == all[web.len() + i]
        }),
        ({
            let before = crate::web_search::sources_of(results, n - 1);
            let after = crate::web_search::sources_of(results, n);
            let source = crate::web_search::source_of(results[n - 1]);
            &&& source is Some ==> after == before.push(source->0)
            &&& source is None ==> after == before
        }),
{
}

} // verus!
