use codex_logic::json::parse_json;
use codex_logic::search_commands::command_action;
use codex_logic::search_commands::literal_url;
use codex_logic::search_commands::parse_lenient_search_commands;
use codex_logic::search_commands::parse_search_commands;
use codex_logic::search_commands::query_action;
use codex_logic::search_commands::search_commands_from_lenient_value;
use codex_logic::search_commands::FindOperation;
use codex_logic::search_commands::OpenOperation;
use codex_logic::search_commands::RejectedSearchCommands;
use codex_logic::search_commands::SearchCommands;
use codex_logic::search_commands::SearchQuery;
use codex_logic::search_commands::WebSearchAction;
use codex_logic::web_search_tool::WebSearchToolPresentation;

fn search_query(query: &str) -> SearchQuery {
    SearchQuery {
        q: query.to_string(),
        recency: None,
        domains: None,
    }
}

#[test]
fn command_action_reports_queries_and_navigation_detail() {
    let cases = [
        (
            r#"{"image_query":[{"q":"waterfalls"},{"q":"mountains"}]}"#,
            WebSearchAction::Search {
                query: None,
                queries: Some(vec!["waterfalls".to_string(), "mountains".to_string()]),
            },
        ),
        (
            r#"{"open":[{"ref_id":"https://example.com/docs"}]}"#,
            WebSearchAction::OpenPage {
                url: Some("https://example.com/docs".to_string()),
            },
        ),
        (
            r#"{"find":[{"ref_id":"https://example.com/docs","pattern":"install"}]}"#,
            WebSearchAction::FindInPage {
                url: Some("https://example.com/docs".to_string()),
                pattern: Some("install".to_string()),
            },
        ),
        (
            r#"{"find":[{"ref_id":"turn0search0","pattern":"install"}]}"#,
            WebSearchAction::FindInPage {
                url: None,
                pattern: Some("install".to_string()),
            },
        ),
        (
            r#"{"open":[{"ref_id":"turn0search0"}]}"#,
            WebSearchAction::Other,
        ),
    ];

    for (arguments, expected) in cases {
        let commands: SearchCommands =
            parse_search_commands(arguments).expect("valid search command arguments");
        assert_eq!(command_action(&commands), expected);
    }
}

#[test]
fn parse_search_commands_accepts_lenient_query_shapes() {
    let cases = [
        (
            r#""official OpenAI Codex documentation""#,
            SearchCommands {
                search_query: Some(vec![search_query("official OpenAI Codex documentation")]),
                ..Default::default()
            },
        ),
        (
            r#"{"search_query":"official OpenAI Codex documentation"}"#,
            SearchCommands {
                search_query: Some(vec![search_query("official OpenAI Codex documentation")]),
                ..Default::default()
            },
        ),
        (
            r#"{"search_query":["official OpenAI Codex documentation","OpenAI Codex CLI"]}"#,
            SearchCommands {
                search_query: Some(vec![
                    search_query("official OpenAI Codex documentation"),
                    search_query("OpenAI Codex CLI"),
                ]),
                ..Default::default()
            },
        ),
        (
            r#"{"image_query":"OpenAI Codex screenshot"}"#,
            SearchCommands {
                image_query: Some(vec![search_query("OpenAI Codex screenshot")]),
                ..Default::default()
            },
        ),
    ];

    for (arguments, expected) in cases {
        assert_eq!(
            parse_search_commands(arguments).expect("lenient search command arguments"),
            expected
        );
    }
}

#[test]
fn blank_arguments_hold_no_commands() {
    assert_eq!(parse_search_commands("  \n\t").unwrap(), SearchCommands::default());
    assert_eq!(parse_search_commands("").unwrap(), SearchCommands::default());
}

#[test]
fn strict_commands_decode_every_field() {
    let commands = parse_search_commands(
        r#"{"search_query":[{"q":"rust","recency":7,"domains":["rust-lang.org"]}],
            "open":[{"ref_id":"r"}],"find":[{"ref_id":"f","pattern":"p"}]}"#,
    )
    .unwrap();
    assert_eq!(
        commands,
        SearchCommands {
            search_query: Some(vec![SearchQuery {
                q: "rust".to_string(),
                recency: Some(7),
                domains: Some(vec!["rust-lang.org".to_string()]),
            }]),
            image_query: None,
            open: Some(vec![OpenOperation {
                ref_id: "r".to_string()
            }]),
            find: Some(vec![FindOperation {
                ref_id: "f".to_string(),
                pattern: "p".to_string()
            }]),
        }
    );
}

#[test]
fn lenient_shapes_of_single_query_objects_and_arrays() {
    assert_eq!(
        parse_search_commands(r#"{"q":"single","recency":1}"#).unwrap(),
        SearchCommands {
            search_query: Some(vec![SearchQuery {
                q: "single".to_string(),
                recency: Some(1),
                domains: None,
            }]),
            ..Default::default()
        }
    );
    assert_eq!(
        parse_search_commands(r#"["a", {"q":"b"}]"#).unwrap(),
        SearchCommands {
            search_query: Some(vec![search_query("a"), search_query("b")]),
            ..Default::default()
        }
    );
}

#[test]
fn unusable_arguments_are_errors() {
    assert_eq!(
        parse_search_commands("{not json"),
        Err(RejectedSearchCommands)
    );
    assert_eq!(parse_search_commands("42"), Err(RejectedSearchCommands));
    assert!(parse_search_commands(r#"{"search_query":null,"image_query":[1]}"#).is_err());
    assert!(parse_search_commands(r#"["a", 3]"#).is_err());
    assert!(parse_search_commands(r#"{"q":"x","recency":-1}"#).is_err());
    assert!(parse_search_commands(r#"{"search_query":[{"q":"x"}],"extra":1}"#).is_err());
    assert!(parse_search_commands(r#"{"search_query":"x","extra":1}"#).is_err());
    assert!(parse_lenient_search_commands("{not json").is_none());
    assert!(search_commands_from_lenient_value(&parse_json("null").unwrap()).is_none());
}

#[test]
fn query_action_shapes() {
    assert_eq!(query_action(&vec![]), None);
    assert_eq!(
        query_action(&vec![search_query("one")]),
        Some(WebSearchAction::Search {
            query: Some("one".to_string()),
            queries: None
        })
    );
}

#[test]
fn search_queries_take_precedence_over_navigation() {
    let commands = SearchCommands {
        search_query: Some(vec![]),
        image_query: Some(vec![search_query("img")]),
        open: Some(vec![OpenOperation {
            ref_id: "https://a.example".to_string(),
        }]),
        find: None,
    };
    assert_eq!(
        command_action(&commands),
        WebSearchAction::Search {
            query: Some("img".to_string()),
            queries: None
        }
    );
    assert_eq!(command_action(&SearchCommands::default()), WebSearchAction::Other);
}

#[test]
fn literal_urls_must_parse() {
    assert_eq!(
        literal_url("https://example.com/docs"),
        Some("https://example.com/docs".to_string())
    );
    assert_eq!(literal_url("turn0search0"), None);
}

#[test]
fn tool_names_follow_presentation() {
    let name = WebSearchToolPresentation::Namespace.tool_name();
    assert_eq!(name.namespace.as_deref(), Some("web"));
    assert_eq!(name.name, "run");
    let name = WebSearchToolPresentation::Function.tool_name();
    assert_eq!(name.namespace, None);
    assert_eq!(name.name, "web_search");
}
