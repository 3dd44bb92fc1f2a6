use codex_logic::local_search::output_from_response_body;
use codex_logic::local_search::search_endpoint;
use codex_logic::local_search::search_endpoint_text;
use codex_logic::local_search::search_outcome;
use codex_logic::local_search::BrokerReply;
use codex_logic::local_search::LocalSearchBackend;
use codex_logic::local_search::DEFAULT_LOCAL_SEARCH_URL;

#[test]
fn local_search_endpoint_defaults_to_search_path() {
    assert_eq!(
        search_endpoint("http://127.0.0.1:8765")
            .expect("parse endpoint")
            .as_str(),
        "http://127.0.0.1:8765/search"
    );
    assert_eq!(
        search_endpoint("http://127.0.0.1:8765/search")
            .expect("parse endpoint")
            .as_str(),
        "http://127.0.0.1:8765/search"
    );
}

#[test]
fn local_search_response_body_extracts_plain_output() {
    assert_eq!(
        output_from_response_body(r#"{"encrypted_output":null,"output":"search result"}"#)
            .expect("extract output"),
        "search result"
    );
}

#[test]
fn local_search_backend_preserves_configured_base_url() {
    let backend = LocalSearchBackend::new("http://localhost:7777");
    assert_eq!(backend.base_url(), "http://localhost:7777");
}

#[test]
fn endpoint_text_trims_whitespace_and_slashes() {
    assert_eq!(
        search_endpoint_text("  http://host:1/api///  \n"),
        "http://host:1/api/search"
    );
    assert_eq!(search_endpoint_text("\u{3000}x/search/"), "x/search");
    assert_eq!(search_endpoint_text(""), "/search");
}

#[test]
fn endpoint_parse_normalizes_and_reports_invalid_urls() {
    assert_eq!(
        search_endpoint("HTTP://EXAMPLE.com/").expect("parse endpoint"),
        "http://example.com/search"
    );
    let err = search_endpoint("not a url").expect_err("relative url");
    assert_eq!(
        err,
        "invalid local web search broker URL: relative URL without a base"
    );
}

#[test]
fn backend_from_env_values_prefers_codex_then_umbra_then_default() {
    let backend = LocalSearchBackend::from_env_values(
        Some("http://a".to_string()),
        Some("http://b".to_string()),
    );
    assert_eq!(backend.base_url(), "http://a");
    let backend = LocalSearchBackend::from_env_values(None, Some("http://b".to_string()));
    assert_eq!(backend.base_url(), "http://b");
    let backend = LocalSearchBackend::from_env_values(None, None);
    assert_eq!(backend.base_url(), DEFAULT_LOCAL_SEARCH_URL);
    assert_eq!(
        backend.search_endpoint().expect("default endpoint"),
        "http://127.0.0.1:8765/search"
    );
}

#[test]
fn response_body_errors() {
    let err = output_from_response_body("not json").expect_err("invalid json");
    assert!(err.starts_with("local web search broker returned invalid JSON: "));
    assert!(err.len() > "local web search broker returned invalid JSON: ".len());
    assert_eq!(
        output_from_response_body(r#"{"output":3}"#),
        Err("local web search broker JSON missing string field `output`".to_string())
    );
    assert_eq!(
        output_from_response_body(r#"["output"]"#),
        Err("local web search broker JSON missing string field `output`".to_string())
    );
}

#[test]
fn search_outcome_reports_transport_and_status_failures() {
    assert_eq!(
        search_outcome(BrokerReply::RequestFailed("connection refused".to_string())),
        Err("local web search broker request failed: connection refused".to_string())
    );
    assert_eq!(
        search_outcome(BrokerReply::ReadFailed("eof".to_string())),
        Err("local web search broker response read failed: eof".to_string())
    );
    let long_body: String = std::iter::repeat('é').take(600).collect();
    let err = search_outcome(BrokerReply::Received {
        success: false,
        status: "502 Bad Gateway".to_string(),
        body: long_body,
    })
    .expect_err("bad status");
    let quoted: String = std::iter::repeat('é').take(500).collect();
    assert_eq!(
        err,
        format!("local web search broker returned 502 Bad Gateway: {quoted}")
    );
    assert_eq!(
        search_outcome(BrokerReply::Received {
            success: true,
            status: "200 OK".to_string(),
            body: r#"{"output":"ok"}"#.to_string(),
        }),
        Ok("ok".to_string())
    );
}
