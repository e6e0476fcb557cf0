use xint::mcp::{
    finish_package_call, join_url, startup_banner, ApiOutcome, ApiRequest, HttpMethod, MCPServer,
    PendingCall, ServerStep,
};
use xint::policy::{BudgetState, PolicyMode};

fn server(mode: PolicyMode, enforce: bool) -> MCPServer {
    MCPServer::new(mode, enforce, "costs.json".to_string(), "reliability.json".to_string())
}

fn open_budget() -> BudgetState {
    BudgetState { allowed: true, spent_cents: 0, limit_cents: 1000 }
}

fn reply_of(step: Result<ServerStep, String>) -> String {
    match step {
        Ok(ServerStep::Reply(line)) => line,
        Ok(ServerStep::ToolReply(line, _)) => line,
        Ok(ServerStep::Silent) => panic!("expected a reply, got silence"),
        Ok(ServerStep::CallApi(_, _)) => panic!("expected a reply, got an API call"),
        Err(e) => panic!("expected a reply, got an error: {}", e),
    }
}

fn tool_reply_of(step: Result<ServerStep, String>) -> (String, xint::mcp::CallRecord) {
    match step {
        Ok(ServerStep::ToolReply(line, record)) => (line, record),
        _ => panic!("expected a tool reply"),
    }
}

#[test]
fn initialize_replies_and_marks_the_server() {
    let mut s = server(PolicyMode::ReadOnly, false);
    assert!(!s.initialized);
    let line = reply_of(s.handle_message(
        "{\"jsonrpc\":\"2.0\",\"id\":0,\"method\":\"initialize\",\"params\":{}}",
        &open_budget(),
    ));
    assert_eq!(
        line,
        "{\"id\":0,\"jsonrpc\":\"2.0\",\"result\":{\"capabilities\":{\"tools\":{}},\"protocolVersion\":\"2024-11-05\",\"serverInfo\":{\"name\":\"xint\",\"version\":\"1.0.0\"}}}"
    );
    assert!(s.initialized);
}

#[test]
fn initialized_notification_is_silent() {
    let mut s = server(PolicyMode::ReadOnly, false);
    let step = s.handle_message("{\"method\":\"initialized\"}", &open_budget());
    assert!(matches!(step, Ok(ServerStep::Silent)));
}

#[test]
fn unknown_method_gets_a_method_not_found_error() {
    let mut s = server(PolicyMode::ReadOnly, false);
    let line = reply_of(s.handle_message("{\"method\":\"nope\",\"id\":7}", &open_budget()));
    assert_eq!(
        line,
        "{\"error\":{\"code\":-32601,\"message\":\"Method not found: nope\"},\"id\":7,\"jsonrpc\":\"2.0\"}"
    );
}

#[test]
fn malformed_json_is_an_error_not_a_crash() {
    let mut s = server(PolicyMode::ReadOnly, false);
    let step = s.handle_message("this is not json", &open_budget());
    match step {
        Err(e) => assert!(e.starts_with("Failed to parse JSON: ")),
        _ => panic!("expected a parse error"),
    }
    let step2 = s.handle_message("{\"id\":1}", &open_budget());
    assert_eq!(step2.err(), Some("Missing method field".to_string()));
    // the connection stays usable afterwards
    let line = s.handle_message("{\"method\":\"nope\",\"id\":8}", &open_budget());
    assert!(matches!(line, Ok(ServerStep::Reply(_))));
}

#[test]
fn tools_list_names_every_tool_exactly_once() {
    let tools = MCPServer::get_tools();
    assert_eq!(tools.len(), 23);
    let names: Vec<&str> = tools.iter().map(|t| t.name.as_str()).collect();
    for (i, a) in names.iter().enumerate() {
        for (j, b) in names.iter().enumerate() {
            if i != j {
                assert_ne!(a, b);
            }
        }
    }
    assert_eq!(names[0], "xint_search");
    assert_eq!(names[22], "xint_costs");

    let mut s = server(PolicyMode::ReadOnly, false);
    let line = reply_of(s.handle_message("{\"method\":\"tools/list\",\"id\":2}", &open_budget()));
    assert!(line.starts_with("{\"id\":2,\"jsonrpc\":\"2.0\",\"result\":{\"tools\":["));
    for name in &names {
        let needle = format!("{{\"name\":\"{}\",", name);
        assert_eq!(line.matches(&needle).count(), 1);
    }
}

#[test]
fn stub_tool_call_replies_with_exact_content() {
    let mut s = server(PolicyMode::ReadOnly, false);
    let line = reply_of(s.handle_message(
        "{\"method\":\"tools/call\",\"id\":5,\"params\":{\"name\":\"xint_search\",\"arguments\":{\"query\":\"rust\"}}}",
        &open_budget(),
    ));
    assert_eq!(
        line,
        "{\"id\":5,\"jsonrpc\":\"2.0\",\"result\":{\"content\":[{\"type\":\"text\",\"text\":\"Search: rust (limit: 15)\"}]}}"
    );
}

#[test]
fn missing_arguments_fail_with_tool_errors() {
    let mut s = server(PolicyMode::ReadOnly, false);
    let line = reply_of(s.handle_message(
        "{\"method\":\"tools/call\",\"id\":5,\"params\":{\"name\":\"xint_search\",\"arguments\":{}}}",
        &open_budget(),
    ));
    assert_eq!(
        line,
        "{\"error\":{\"code\":-32603,\"message\":\"Missing query\"},\"id\":5,\"jsonrpc\":\"2.0\"}"
    );
}

#[test]
fn unregistered_tool_is_an_error_result_and_connection_survives() {
    let mut s = server(PolicyMode::ReadOnly, false);
    let line = reply_of(s.handle_message(
        "{\"method\":\"tools/call\",\"id\":9,\"params\":{\"name\":\"xint_nothing\"}}",
        &open_budget(),
    ));
    assert_eq!(
        line,
        "{\"error\":{\"code\":-32603,\"message\":\"Unknown tool: xint_nothing\"},\"id\":9,\"jsonrpc\":\"2.0\"}"
    );
    let next = reply_of(s.handle_message("{\"method\":\"tools/list\",\"id\":10}", &open_budget()));
    assert!(next.starts_with("{\"id\":10,"));
}

#[test]
fn policy_gate_denies_stricter_tools_whatever_the_budget() {
    let mut s = server(PolicyMode::ReadOnly, true);
    let broke = BudgetState { allowed: false, spent_cents: 99999, limit_cents: 1000 };
    let line = reply_of(s.handle_message(
        "{\"method\":\"tools/call\",\"id\":1,\"params\":{\"name\":\"xint_bookmarks\"}}",
        &broke,
    ));
    assert_eq!(
        line,
        "{\"error\":{\"code\":-32603,\"message\":\"{\\\"code\\\":\\\"POLICY_DENIED\\\",\\\"message\\\":\\\"MCP tool 'xint_bookmarks' requires 'engagement' policy mode\\\",\\\"policy_mode\\\":\\\"read_only\\\",\\\"required_mode\\\":\\\"engagement\\\",\\\"tool\\\":\\\"xint_bookmarks\\\"}\"},\"id\":1,\"jsonrpc\":\"2.0\"}"
    );
    // within engagement mode the same tool passes the policy gate
    let mut s2 = server(PolicyMode::Engagement, false);
    let ok = reply_of(s2.handle_message(
        "{\"method\":\"tools/call\",\"id\":2,\"params\":{\"name\":\"xint_bookmarks\"}}",
        &open_budget(),
    ));
    assert!(ok.contains("Bookmarks: OAuth required"));
}

#[test]
fn budget_gate_reports_clamped_remaining() {
    let mut s = server(PolicyMode::ReadOnly, true);
    let over = BudgetState { allowed: false, spent_cents: 1234, limit_cents: 1000 };
    let line = reply_of(s.handle_message(
        "{\"method\":\"tools/call\",\"id\":4,\"params\":{\"name\":\"xint_search\",\"arguments\":{\"query\":\"x\"}}}",
        &over,
    ));
    assert_eq!(
        line,
        "{\"error\":{\"code\":-32603,\"message\":\"{\\\"code\\\":\\\"BUDGET_DENIED\\\",\\\"limit_usd\\\":10.00,\\\"message\\\":\\\"Daily budget exceeded ($12.34 / $10.00)\\\",\\\"remaining_usd\\\":0.00,\\\"spent_usd\\\":12.34,\\\"tool\\\":\\\"xint_search\\\"}\"},\"id\":4,\"jsonrpc\":\"2.0\"}"
    );
    // a disarmed guard lets the same call through
    let mut s2 = server(PolicyMode::ReadOnly, false);
    let ok = reply_of(s2.handle_message(
        "{\"method\":\"tools/call\",\"id\":4,\"params\":{\"name\":\"xint_search\",\"arguments\":{\"query\":\"x\"}}}",
        &over,
    ));
    assert!(ok.contains("Search: x (limit: 15)"));
}

#[test]
fn package_query_with_empty_ids_is_rejected_before_any_request() {
    let mut s = server(PolicyMode::ReadOnly, false);
    let step = s.handle_message(
        "{\"method\":\"tools/call\",\"id\":3,\"params\":{\"name\":\"xint_package_query\",\"arguments\":{\"query\":\"what\",\"package_ids\":[]}}}",
        &open_budget(),
    );
    match step {
        Ok(ServerStep::ToolReply(line, record)) => {
            assert_eq!(
                line,
                "{\"error\":{\"code\":-32603,\"message\":\"Missing package_ids\"},\"id\":3,\"jsonrpc\":\"2.0\"}"
            );
            assert_eq!(record.op, "mcp:xint_package_query");
            assert!(!record.success);
        }
        _ => panic!("the rejection must come before any network step"),
    }
}

#[test]
fn package_query_with_ids_plans_the_exact_request() {
    let mut s = server(PolicyMode::ReadOnly, false);
    let step = s.handle_message(
        "{\"method\":\"tools/call\",\"id\":3,\"params\":{\"name\":\"xint_package_query\",\"arguments\":{\"query\":\"what\",\"package_ids\":[\"pkg_1\"]}}}",
        &open_budget(),
    );
    match step {
        Ok(ServerStep::CallApi(req, pending)) => {
            assert!(matches!(req.method, HttpMethod::Post));
            assert_eq!(req.path, "/query");
            assert_eq!(
                req.body,
                Some("{\"max_claims\":10,\"package_ids\":[\"pkg_1\"],\"query\":\"what\",\"require_citations\":true}".to_string())
            );
            assert_eq!(pending.id_text, "3");
            assert_eq!(pending.name, "xint_package_query");
        }
        _ => panic!("expected an API request"),
    }
}

#[test]
fn package_search_encodes_spaces_in_the_path() {
    let mut s = server(PolicyMode::ReadOnly, false);
    let step = s.handle_message(
        "{\"method\":\"tools/call\",\"id\":6,\"params\":{\"name\":\"xint_package_search\",\"arguments\":{\"query\":\"rust agents\"}}}",
        &open_budget(),
    );
    match step {
        Ok(ServerStep::CallApi(req, _)) => {
            assert!(matches!(req.method, HttpMethod::Get));
            assert_eq!(req.path, "/packages/search?q=rust%20agents&limit=20");
            assert!(req.body.is_none());
        }
        _ => panic!("expected an API request"),
    }
}

#[test]
fn package_publish_and_refresh_build_their_paths() {
    let mut s = server(PolicyMode::Engagement, false);
    let step = s.handle_message(
        "{\"method\":\"tools/call\",\"id\":6,\"params\":{\"name\":\"xint_package_publish\",\"arguments\":{\"package_id\":\"pkg_9\",\"snapshot_version\":4}}}",
        &open_budget(),
    );
    match step {
        Ok(ServerStep::CallApi(req, _)) => {
            assert_eq!(req.path, "/packages/pkg_9/publish");
            assert_eq!(req.body, Some("{\"snapshot_version\":4}".to_string()));
        }
        _ => panic!("expected an API request"),
    }
    let step2 = s.handle_message(
        "{\"method\":\"tools/call\",\"id\":6,\"params\":{\"name\":\"xint_package_refresh\",\"arguments\":{\"package_id\":\"pkg_9\",\"reason\":\"manual\"}}}",
        &open_budget(),
    );
    match step2 {
        Ok(ServerStep::CallApi(req, _)) => {
            assert_eq!(req.path, "/packages/pkg_9/refresh");
            assert_eq!(req.body, Some("{\"reason\":\"manual\"}".to_string()));
        }
        _ => panic!("expected an API request"),
    }
}

#[test]
fn finishing_a_package_call_formats_every_failure() {
    let pending = PendingCall { id_text: "3".to_string(), name: "xint_package_status".to_string() };
    let (not_found, nf_record) = finish_package_call(
        &pending,
        ApiOutcome::Response { status: 404, body: "missing".to_string() },
    );
    assert_eq!(nf_record.op, "mcp:xint_package_status");
    assert!(!nf_record.success);
    assert_eq!(
        not_found,
        "{\"error\":{\"code\":-32603,\"message\":\"Package API 404: missing\"},\"id\":3,\"jsonrpc\":\"2.0\"}"
    );
    let (transport, t_record) = finish_package_call(&pending, ApiOutcome::SendFailed("refused".to_string()));
    assert!(!t_record.success);
    assert_eq!(
        transport,
        "{\"error\":{\"code\":-32603,\"message\":\"Package API request failed: refused\"},\"id\":3,\"jsonrpc\":\"2.0\"}"
    );
    let (unset, _) = finish_package_call(&pending, ApiOutcome::NoBaseUrl);
    assert!(unset.contains("XINT_PACKAGE_API_BASE_URL not set."));
    let (empty, empty_record) = finish_package_call(
        &pending,
        ApiOutcome::Response { status: 200, body: "  ".to_string() },
    );
    assert!(empty_record.success);
    assert_eq!(
        empty,
        "{\"id\":3,\"jsonrpc\":\"2.0\",\"result\":{\"content\":[{\"type\":\"text\",\"text\":\"{}\"}]}}"
    );
    let (bad_json, bad_record) = finish_package_call(
        &pending,
        ApiOutcome::Response { status: 200, body: "{broken".to_string() },
    );
    assert!(!bad_record.success);
    assert!(bad_json.contains("Package API JSON decode failed: "));
    let (relayed, relayed_record) = finish_package_call(
        &pending,
        ApiOutcome::Response { status: 200, body: "{\"a\":1}".to_string() },
    );
    assert!(relayed_record.success);
    assert_eq!(
        relayed,
        "{\"id\":3,\"jsonrpc\":\"2.0\",\"result\":{\"content\":[{\"type\":\"text\",\"text\":\"{\\n  \\\"a\\\": 1\\n}\"}]}}"
    );
}

#[test]
fn url_join_strips_trailing_slashes() {
    assert_eq!(join_url("http://localhost:8080/v1/", "/packages"), "http://localhost:8080/v1/packages");
    assert_eq!(join_url("http://localhost:8080/v1", "/query"), "http://localhost:8080/v1/query");
}

#[test]
fn startup_banner_is_exact() {
    assert_eq!(
        startup_banner(false, 8080, PolicyMode::ReadOnly, true),
        "Starting xint MCP server (sse: false, port: 8080, policy: read_only, budget_guard: enabled)..."
    );
    assert_eq!(
        startup_banner(true, 9000, PolicyMode::Engagement, false),
        "Starting xint MCP server (sse: true, port: 9000, policy: engagement, budget_guard: disabled)..."
    );
}

#[test]
fn package_create_defaults_its_window_to_the_last_day() {
    let mut s = server(PolicyMode::ReadOnly, false);
    let step = s.handle_message(
        "{\"method\":\"tools/call\",\"id\":6,\"params\":{\"name\":\"xint_package_create\",\"arguments\":{\"name\":\"n\",\"topic_query\":\"t\",\"sources\":[\"x_api_v2\"],\"policy\":\"private\",\"analysis_profile\":\"summary\"}}}",
        &open_budget(),
    );
    match step {
        Ok(ServerStep::CallApi(req, _)) => {
            assert_eq!(req.path, "/packages");
            let body = req.body.expect("create carries a payload");
            assert!(body.starts_with("{\"analysis_profile\":\"summary\",\"name\":\"n\",\"policy\":\"private\",\"sources\":[\"x_api_v2\"],\"time_window\":{\"from\":\""));
            assert!(body.contains("\",\"to\":\""));
            assert!(body.ends_with("\"},\"topic_query\":\"t\"}"));
        }
        _ => panic!("expected an API request"),
    }
}

#[test]
fn api_request_shape_is_preserved() {
    let req = ApiRequest { method: HttpMethod::Get, path: "/x".to_string(), body: None };
    assert!(matches!(req.method, HttpMethod::Get));
}

#[test]
fn tool_policy_and_budget_tables_are_as_declared() {
    assert!(matches!(MCPServer::tool_required_policy("xint_bookmarks"), PolicyMode::Engagement));
    assert!(matches!(MCPServer::tool_required_policy("xint_diff"), PolicyMode::Engagement));
    assert!(matches!(MCPServer::tool_required_policy("xint_package_publish"), PolicyMode::Engagement));
    assert!(matches!(MCPServer::tool_required_policy("xint_search"), PolicyMode::ReadOnly));
    assert!(matches!(MCPServer::tool_required_policy("anything"), PolicyMode::ReadOnly));
    assert!(MCPServer::tool_budget_guarded("xint_search"));
    assert!(MCPServer::tool_budget_guarded("xint_package_publish"));
    assert!(!MCPServer::tool_budget_guarded("xint_cache_clear"));
    assert!(!MCPServer::tool_budget_guarded("xint_costs"));
}

#[test]
fn gates_hand_back_their_payloads() {
    let s = server(PolicyMode::ReadOnly, true);
    assert!(s.ensure_tool_allowed("xint_search").is_ok());
    let denied = s.ensure_tool_allowed("xint_diff").unwrap_err();
    assert!(denied.contains("\"code\":\"POLICY_DENIED\""));
    let broke = BudgetState { allowed: false, spent_cents: 500, limit_cents: 400 };
    let over = s.ensure_budget_allowed("xint_search", &broke).unwrap_err();
    assert!(over.contains("\"code\":\"BUDGET_DENIED\""));
    assert!(over.contains("\"remaining_usd\":0.00"));
    assert!(s.ensure_budget_allowed("xint_cache_clear", &broke).is_ok());
    assert_eq!(s.gate_tool(&broke, "xint_diff"), Some(denied));
}

#[test]
fn tools_call_requires_params_and_a_name() {
    let mut s = server(PolicyMode::ReadOnly, false);
    let no_params = s.handle_message("{\"method\":\"tools/call\",\"id\":1}", &open_budget());
    assert_eq!(no_params.err(), Some("Missing params".to_string()));
    let no_name = s.handle_message(
        "{\"method\":\"tools/call\",\"id\":1,\"params\":{}}",
        &open_budget(),
    );
    assert_eq!(no_name.err(), Some("Missing tool name".to_string()));
}

#[test]
fn package_tools_demand_their_identifiers() {
    let mut s = server(PolicyMode::Engagement, false);
    let line = reply_of(s.handle_message(
        "{\"method\":\"tools/call\",\"id\":1,\"params\":{\"name\":\"xint_package_status\",\"arguments\":{}}}",
        &open_budget(),
    ));
    assert!(line.contains("Missing package_id"));
    let line2 = reply_of(s.handle_message(
        "{\"method\":\"tools/call\",\"id\":1,\"params\":{\"name\":\"xint_package_publish\",\"arguments\":{\"package_id\":\"p\"}}}",
        &open_budget(),
    ));
    assert!(line2.contains("Missing snapshot_version"));
    let line3 = reply_of(s.handle_message(
        "{\"method\":\"tools/call\",\"id\":1,\"params\":{\"name\":\"xint_package_refresh\",\"arguments\":{\"package_id\":\"p\"}}}",
        &open_budget(),
    ));
    assert!(line3.contains("Missing reason"));
}

#[test]
fn only_initialize_marks_the_server() {
    let mut s = server(PolicyMode::ReadOnly, false);
    let _ = s.handle_message("{\"method\":\"tools/list\",\"id\":1}", &open_budget());
    let _ = s.handle_message("{\"method\":\"initialized\"}", &open_budget());
    let _ = s.handle_message("{\"method\":\"nope\",\"id\":2}", &open_budget());
    let _ = s.handle_message("not json", &open_budget());
    assert!(!s.initialized);
    let _ = s.handle_message("{\"method\":\"initialize\",\"id\":3}", &open_budget());
    assert!(s.initialized);
}

#[test]
fn tool_calls_carry_their_reliability_record() {
    let mut s = server(PolicyMode::ReadOnly, true);
    let (line, record) = tool_reply_of(s.handle_message(
        "{\"method\":\"tools/call\",\"id\":5,\"params\":{\"name\":\"xint_search\",\"arguments\":{\"query\":\"rust\"}}}",
        &open_budget(),
    ));
    assert!(line.contains("Search: rust (limit: 15)"));
    assert_eq!(record.op, "mcp:xint_search");
    assert!(record.success);
    // a gate denial records a failure
    let (_, denied) = tool_reply_of(s.handle_message(
        "{\"method\":\"tools/call\",\"id\":6,\"params\":{\"name\":\"xint_bookmarks\"}}",
        &open_budget(),
    ));
    assert_eq!(denied.op, "mcp:xint_bookmarks");
    assert!(!denied.success);
}

#[test]
fn tool_stubs_answer_their_defaults() {
    let mut s = server(PolicyMode::ReadOnly, false);
    let line = reply_of(s.handle_message(
        "{\"method\":\"tools/call\",\"id\":1,\"params\":{\"name\":\"xint_trends\"}}",
        &open_budget(),
    ));
    assert!(line.contains("Trends for: worldwide"));
    let line2 = reply_of(s.handle_message(
        "{\"method\":\"tools/call\",\"id\":1,\"params\":{\"name\":\"xint_costs\",\"arguments\":{\"period\":\"week\"}}}",
        &open_budget(),
    ));
    assert!(line2.contains("Cost tracking for period: week"));
    let line3 = reply_of(s.handle_message(
        "{\"method\":\"tools/call\",\"id\":1,\"params\":{\"name\":\"xint_cache_clear\"}}",
        &open_budget(),
    ));
    assert!(line3.contains("Cache cleared"));
}

#[test]
fn tools_list_descriptions_and_schemas_are_declared() {
    let tools = MCPServer::get_tools();
    assert_eq!(tools[0].description, "Search recent tweets on X/Twitter with advanced filters");
    assert_eq!(tools[22].description, "Get API cost tracking information");
    let search_schema = xint::json::json_text(&tools[3].input_schema);
    assert_eq!(
        search_schema,
        "{\"properties\":{\"tweet_id\":{\"description\":\"Tweet ID or URL\",\"type\":\"string\"}},\"required\":[\"tweet_id\"],\"type\":\"object\"}"
    );
}
