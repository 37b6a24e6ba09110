//! Web searches: what the provider is asked, and what comes of its answers.
use agentic_core::error::ToolError;
use agentic_core::items::{FunctionToolCall, MessageStatus, OutputItem, WebSearchCallStatus};
use agentic_core::json::Json;
use agentic_core::web_search::{
    clean_base_url, finish_search, output_item, parse_provider_response, read_reply, search_url,
    started_output_item, validate_count, validate_crawl_timeout, ProviderReply, WebSearchArguments,
    WebSearchConfig, WebSearchHandler, WebSearchProviderResponse,
};

fn json(text: &str) -> Json {
    Json::parse(text).expect("valid JSON")
}

fn at<'a>(value: &'a Json, path: &[&str]) -> &'a Json {
    let mut here = value;
    for key in path {
        here = match here {
            Json::Array(items) => &items[key.parse::<usize>().expect("a place")],
            other => other.get(key).expect("a field"),
        };
    }
    here
}

fn count(value: &Json) -> usize {
    match value {
        Json::Array(items) => items.len(),
        other => panic!("expected a list, got {other:?}"),
    }
}

fn no_config() -> WebSearchConfig {
    WebSearchConfig {
        default_count: None,
        allowed_domains: None,
        blocked_domains: None,
        country: None,
    }
}

/// The arguments that a text holds, or what is wrong with the text.
fn arguments(text: &str) -> Result<WebSearchArguments, String> {
    let value = Json::read(text)?;
    let text_of = |key: &str| value.get_str(key).map(str::to_owned);
    let number_of =
        |key: &str| value.get(key).map(|n| n.to_text().parse::<u16>().expect("a small number"));
    let list_of = |key: &str| match value.get(key) {
        Some(Json::Array(items)) => Some(
            items
                .iter()
                .map(|item| match item {
                    Json::Text(text) => text.clone(),
                    other => panic!("expected a text, got {other:?}"),
                })
                .collect::<Vec<String>>(),
        ),
        _ => None,
    };
    Ok(WebSearchArguments {
        query: text_of("query"),
        queries: list_of("queries"),
        count: number_of("count"),
        freshness: text_of("freshness"),
        country: text_of("country"),
        language: text_of("language"),
        safesearch: text_of("safesearch"),
        livecrawl: text_of("livecrawl"),
        livecrawl_formats: list_of("livecrawl_formats"),
        crawl_timeout: number_of("crawl_timeout"),
        include_domains: list_of("include_domains"),
        exclude_domains: list_of("exclude_domains"),
        boost_domains: list_of("boost_domains"),
    })
}

/// What a provider answers that finds one page for every query.
fn mock_answer() -> WebSearchProviderResponse {
    WebSearchProviderResponse {
        results: json(
            r#"{"web": [{"url": "https://example.com/potato", "title": "Potato"}], "news": []}"#,
        ),
        metadata: json(r#"{"provider": "mock"}"#),
    }
}

/// A whole search, with the mock provider for the real one.
fn execute(call_id: &str, tool_name: &str, text: &str) -> agentic_core::handler::ToolOutput {
    let handler = WebSearchHandler::with_api_key("key".to_owned(), "https://search.example");
    let plan = handler.plan(tool_name, &arguments(text), &no_config()).unwrap();
    let responses: Vec<WebSearchProviderResponse> =
        plan.requests.iter().map(|_| mock_answer()).collect();
    finish_search(call_id, &plan.queries, &responses)
}

#[test]
fn web_search_handler_delegates_to_provider() {
    let output = execute("call_search", "web_search", r#"{"query":" potato "}"#);
    let body = json(&output.output);
    assert_eq!(output.call_id, "call_search");
    assert_eq!(*at(&body, &["query"]), Json::text("potato"));
    assert_eq!(*at(&body, &["queries"]), json(r#"["potato"]"#));
    assert_eq!(*at(&body, &["metadata", "0", "provider"]), Json::text("mock"));
    assert_eq!(
        *at(&body, &["results", "web", "0", "url"]),
        Json::text("https://example.com/potato")
    );
}

#[test]
fn web_search_handler_fans_out_multiple_queries() {
    let output = execute("call_search", "web_search", r#"{"queries":["potato","tomato"]}"#);
    let body = json(&output.output);
    assert_eq!(*at(&body, &["query"]), Json::text("potato"));
    assert_eq!(*at(&body, &["queries"]), json(r#"["potato", "tomato"]"#));
    assert_eq!(count(at(&body, &["results", "web"])), 2);
    assert_eq!(count(at(&body, &["metadata"])), 2);
}

#[test]
fn searches_without_provider_key_or_query_are_refused() {
    let config = no_config();
    let asked = arguments(r#"{"query":"a"}"#);
    assert!(WebSearchHandler::spec_only().plan("web_search", &asked, &config).is_err());
    let handler = WebSearchHandler::from_values(None, None);
    assert!(handler.plan("web_search", &asked, &config).is_err());
    let handler = WebSearchHandler::with_api_key("key".to_owned(), "https://search.example/");
    assert_eq!(
        handler.plan("web_search", &arguments("not json"), &config).err(),
        Some(ToolError::Config(
            "web_search arguments must be valid JSON: expected ident at line 1 column 2".to_owned()
        ))
    );
    assert_eq!(
        handler.plan("web_search", &arguments(r#"{"query":"  "}"#), &config).err(),
        Some(ToolError::Config("web_search requires a non-empty query or queries".to_owned()))
    );
    assert!(handler.plan("web_search", &asked, &config).is_ok());
}

#[test]
fn counts_and_timeouts_have_limits() {
    assert_eq!(validate_count(None).unwrap(), None);
    assert_eq!(validate_count(Some(1)).unwrap(), Some(1));
    assert_eq!(validate_count(Some(100)).unwrap(), Some(100));
    assert!(matches!(validate_count(Some(0)), Err(ToolError::Execution(_) | ToolError::Config(_))));
    assert!(validate_count(Some(101)).is_err());
    assert_eq!(validate_crawl_timeout(Some(1)).unwrap(), Some(1));
    assert_eq!(validate_crawl_timeout(Some(60)).unwrap(), Some(60));
    assert!(validate_crawl_timeout(Some(0)).is_err());
    assert!(validate_crawl_timeout(Some(61)).is_err());
}

#[test]
fn queries_are_trimmed_and_the_list_comes_before_the_single_one() {
    let read = arguments(r#"{"query":"a","queries":[" b ",""]}"#);
    assert_eq!(WebSearchArguments::checked(&read).unwrap().all_queries(), ["b"]);
    let read = arguments(r#"{"query":" a "}"#);
    assert_eq!(WebSearchArguments::checked(&read).unwrap().all_queries(), ["a"]);
}

#[test]
fn a_request_names_what_was_asked() {
    let handler = WebSearchHandler::with_api_key("key".to_owned(), "https://search.example");
    let plan = handler
        .plan(
            "web_search",
            &arguments(r#"{"query":"a","count":3,"include_domains":["x.org","y.org"]}"#),
            &no_config(),
        )
        .unwrap();
    assert_eq!(plan.base_url, "https://search.example");
    assert_eq!(plan.api_key, "key");
    let params = plan.requests[0].query_params();
    assert!(params.contains(&("query".to_owned(), "a".to_owned())));
    assert!(params.contains(&("count".to_owned(), "3".to_owned())));
    assert_eq!(clean_base_url(" https://search.example// ").as_deref(), Some("https://search.example"));
    assert_eq!(clean_base_url(" / "), None);
}

#[test]
fn answers_that_are_no_objects_are_refused() {
    assert!(parse_provider_response(r#"{"results":{"web":[]},"metadata":{}}"#).is_ok());
    assert_eq!(
        parse_provider_response("").unwrap_err().message(),
        "execution failed: You.com search returned invalid JSON: EOF while parsing a value at line 1 column 0"
    );
}

#[test]
fn a_search_is_shown_with_its_queries_and_sources() {
    let call = FunctionToolCall {
        id: "fc_1".to_owned(),
        call_id: "call_search".to_owned(),
        name: "web_search".to_owned(),
        namespace: None,
        arguments: r#"{"query":"potato"}"#.to_owned(),
        status: MessageStatus::Completed,
    };
    let OutputItem::WebSearchCall(started) = started_output_item(&call) else {
        panic!("expected web_search_call");
    };
    assert_eq!(started.status, WebSearchCallStatus::InProgress);
    assert_eq!(started.action.fields.get_str("query"), Some("potato"));

    let output = execute("call_search", "web_search", r#"{"query":"potato"}"#);
    let OutputItem::WebSearchCall(done) =
        output_item(&call, &output, WebSearchCallStatus::Completed)
    else {
        panic!("expected web_search_call");
    };
    assert_eq!(done.status, WebSearchCallStatus::Completed);
    let sources = done.action.fields.get("sources").expect("sources");
    assert_eq!(*at(sources, &["0", "url"]), Json::text("https://example.com/potato"));
    assert_eq!(done.id, started.id);
}

#[test]
fn replies_that_are_no_answers_are_failures() {
    let answered = ProviderReply::Answered { body: r#"{"results":{"web":[]}}"#.to_owned() };
    let response = read_reply(&answered).unwrap();
    assert_eq!(response.results, json(r#"{"web": []}"#));
    assert_eq!(response.metadata, Json::Null);
    for (reply, message) in [
        (
            ProviderReply::Refused { status: "429 Too Many".to_owned(), body: "slow".to_owned() },
            "You.com search returned 429 Too Many: slow",
        ),
        (
            ProviderReply::Unreachable { reason: "refused".to_owned() },
            "You.com search request failed: refused",
        ),
        (
            ProviderReply::Unreadable { reason: "cut".to_owned() },
            "failed to read You.com search response: cut",
        ),
    ] {
        assert_eq!(read_reply(&reply).unwrap_err(), ToolError::Execution(message.to_owned()));
    }
    assert_eq!(search_url("https://search.example"), "https://search.example/v1/search");
}

#[test]
fn a_declaration_limits_its_searches() {
    let config = WebSearchConfig::from_declaration(
        &json(
            r#"{"filters": {"allowed_domains": ["x.org"]}, "user_location": {"country": "de"}}"#,
        ),
        Some(5),
    );
    assert_eq!(config.allowed_domains, Some(vec!["x.org".to_owned()]));
    assert_eq!(config.blocked_domains, None);
    let handler = WebSearchHandler::with_api_key("key".to_owned(), "https://search.example");
    let plan = handler.plan("web_search", &arguments(r#"{"query":"a"}"#), &config).unwrap();
    let params = plan.requests[0].query_params();
    assert!(params.contains(&("count".to_owned(), "5".to_owned())));
    assert!(params.contains(&("country".to_owned(), "DE".to_owned())));
    assert!(params.contains(&("include_domains".to_owned(), "x.org".to_owned())));
    assert!(handler
        .plan(
            "web_search",
            &arguments(r#"{"query":"a","exclude_domains":["y.org"]}"#),
            &config,
        )
        .is_err());
}
