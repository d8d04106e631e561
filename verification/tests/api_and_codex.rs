use desk_hud::api::{api_result, codex_api_result, compact_error_body};
use desk_hud::chat::{
    claude_source, debug_org_from_account, known_org, org_resource_url, session_cookie,
    usage_org_from_account, ClaudeSource,
};
use desk_hud::codex::{
    codex_credentials, codex_plan, codex_plan_label, codex_request_headers, codex_reset_at,
    codex_used_percent, codex_window,
};
use desk_hud::json::{Json, JsonNumber};

fn s(v: &str) -> Json {
    Json::String(v.to_string())
}

fn obj(entries: Vec<(&str, Json)>) -> Json {
    Json::Object(entries.into_iter().map(|(k, v)| (k.to_string(), v)).collect())
}

#[test]
fn compact_prefers_json_messages() {
    let doc = obj(vec![("error", obj(vec![("message", s("rate limited"))])), ("message", s("outer"))]);
    assert_eq!(compact_error_body("{...}", Some(&doc)), "rate limited");
    let doc = obj(vec![("error", s("x")), ("message", s("outer"))]);
    assert_eq!(compact_error_body("{...}", Some(&doc)), "outer");
}

#[test]
fn compact_flattens_and_cuts_text() {
    assert_eq!(compact_error_body("  bad\r\ngateway \n", None), "bad  gateway");
    let doc = obj(vec![("detail", s("no message"))]);
    assert_eq!(compact_error_body("{\"detail\":\n1}", Some(&doc)), "{\"detail\": 1}");
    let long = "é".repeat(300);
    let out = compact_error_body(&long, None);
    assert_eq!(out.chars().count(), 223);
    assert!(out.ends_with("..."));
    assert_eq!(compact_error_body(&"a".repeat(220), None), "a".repeat(220));
}

#[test]
fn api_result_errors_and_success() {
    let r = api_result("Svc", "Svc parse", 404, "404 Not Found", " oops ", None, Ok(Json::Null));
    assert_eq!(r.unwrap_err(), "Svc 404 Not Found: oops");
    let r = api_result("Svc", "Svc parse", 200, "200 OK", "x", None, Err("EOF".to_string()));
    assert_eq!(r.unwrap_err(), "Svc parse: EOF");
    let r = api_result("Svc", "Svc parse", 204, "204 No Content", "", None, Ok(s("v")));
    assert!(matches!(r, Ok(Json::String(v)) if v == "v"));
    let r = api_result("Svc", "Svc parse", 199, "199", "b", None, Ok(Json::Null));
    assert_eq!(r.unwrap_err(), "Svc 199: b");
    let r = api_result("Svc", "Svc parse", 300, "300 Multiple Choices", "b", None, Ok(Json::Null));
    assert!(r.is_err());
}

#[test]
fn codex_api_result_messages() {
    let doc = obj(vec![("message", s("expired"))]);
    let r = codex_api_result(401, "401 Unauthorized", "{}", Some(&doc), Ok(Json::Null));
    assert_eq!(r.unwrap_err(), "Codex usage API 401 Unauthorized: expired");
    let r = codex_api_result(200, "200 OK", "{", None, Err("EOF while parsing".to_string()));
    assert_eq!(r.unwrap_err(), "Codex usage JSON parse: EOF while parsing");
}

#[test]
fn source_decision() {
    match claude_source(None, None) {
        ClaudeSource::Local { local_limit } => assert_eq!(local_limit, 500),
        _ => panic!("expected local"),
    }
    match claude_source(Some(" \t"), Some(42)) {
        ClaudeSource::Local { local_limit } => assert_eq!(local_limit, 42),
        _ => panic!("expected local"),
    }
    match claude_source(Some("  sk-123 \n"), None) {
        ClaudeSource::Api { session_key, local_limit } => {
            assert_eq!(session_key, "sk-123");
            assert_eq!(local_limit, 500);
        }
        _ => panic!("expected api"),
    }
}

#[test]
fn org_steps() {
    assert_eq!(known_org(Some("o".to_string())).as_deref(), Some("o"));
    assert_eq!(known_org(Some(String::new())), None);
    assert_eq!(known_org(None), None);
    let empty = obj(vec![("memberships", Json::Array(vec![obj(vec![("uuid", s(""))])]))]);
    assert_eq!(usage_org_from_account(&empty).unwrap(), "");
    assert_eq!(debug_org_from_account(&empty).unwrap_err(), "Could not find org UUID");
    assert_eq!(usage_org_from_account(&Json::Null).unwrap_err(), "Could not find org UUID");
    let one = obj(vec![("memberships", Json::Array(vec![obj(vec![("uuid", s("u1"))])]))]);
    assert_eq!(debug_org_from_account(&one).unwrap(), "u1");
}

#[test]
fn urls_and_cookie() {
    assert_eq!(
        org_resource_url("https://example.test/api", "abc", "usage"),
        "https://example.test/api/organizations/abc/usage"
    );
    assert_eq!(session_cookie("k"), "sessionKey=k");
}

#[test]
fn codex_plan_label_known_plans() {
    assert_eq!(codex_plan_label("free"), "Free");
    assert_eq!(codex_plan_label("PLUS"), "Plus");
    assert_eq!(codex_plan_label("Pro"), "Pro");
    assert_eq!(codex_plan_label("team"), "Team");
    assert_eq!(codex_plan_label("enterprise"), "Enterprise");
    assert_eq!(codex_plan_label(""), "");
}

#[test]
fn codex_plan_label_other_plans() {
    assert_eq!(codex_plan_label("business"), "Business");
    assert_eq!(codex_plan_label("EDU"), "Edu");
    assert_eq!(codex_plan_label("édu"), "Édu");
    assert_eq!(codex_plan_label("ßeta"), "SSeta");
    assert_eq!(codex_plan_label("9x"), "9x");
}

#[test]
fn codex_plan_label_is_its_own_label() {
    for p in ["free", "PLUS", "business", "ENTERPRISE", "", "self_serve"] {
        let l = codex_plan_label(p);
        assert_eq!(codex_plan_label(&l), l);
    }
}

#[test]
fn codex_credentials_lookup() {
    let auth = obj(vec![("tokens", obj(vec![("access_token", s("t")), ("account_id", s("a"))])), ("account_id", s("b"))]);
    assert_eq!(codex_credentials(&auth).unwrap(), ("t".to_string(), "a".to_string()));
    let auth = obj(vec![("tokens", obj(vec![("access_token", s("t"))])), ("account_id", s("b"))]);
    assert_eq!(codex_credentials(&auth).unwrap(), ("t".to_string(), "b".to_string()));
    let auth = obj(vec![("tokens", obj(vec![("access_token", s("t"))]))]);
    assert_eq!(codex_credentials(&auth).unwrap(), ("t".to_string(), String::new()));
    let auth = obj(vec![("tokens", obj(vec![("account_id", s("a"))]))]);
    assert_eq!(
        codex_credentials(&auth).unwrap_err(),
        "Codex access token not found; sign in with Codex CLI again"
    );
}

#[test]
fn codex_headers() {
    let h = codex_request_headers("tok", "acct");
    let h: Vec<(&str, &str)> = h.iter().map(|(k, v)| (k.as_str(), v.as_str())).collect();
    assert_eq!(
        h,
        vec![
            ("Authorization", "Bearer tok"),
            ("User-Agent", "codex-cli"),
            ("Accept", "application/json"),
            ("ChatGPT-Account-Id", "acct"),
        ]
    );
    assert_eq!(codex_request_headers("tok", "").len(), 3);
}

#[test]
fn codex_window_fields() {
    let w = obj(vec![
        ("used_percent", Json::Number(JsonNumber { as_i64: Some(30), f64_bits: 30f64.to_bits() })),
        ("reset_at", Json::Number(JsonNumber { as_i64: Some(1_704_067_200), f64_bits: 1_704_067_200f64.to_bits() })),
    ]);
    assert_eq!(codex_used_percent(Some(&w)), Some(30f64.to_bits()));
    assert_eq!(codex_used_percent(None), None);
    assert_eq!(codex_reset_at(Some(&w), false).map(|t| t.len()), Some(5));
    assert!(codex_reset_at(Some(&w), true).unwrap().contains(", 20"));
    let w = obj(vec![("reset_at", Json::Number(JsonNumber { as_i64: None, f64_bits: 1.5f64.to_bits() }))]);
    assert_eq!(codex_reset_at(Some(&w), false), None);
    assert_eq!(codex_reset_at(None, true), None);
}

#[test]
fn codex_report_fields() {
    let usage = obj(vec![
        ("plan_type", s("plus")),
        ("rate_limit", obj(vec![("primary_window", obj(vec![("used_percent", s("x"))]))])),
    ]);
    assert!(codex_window(&usage, "primary_window").is_some());
    assert!(codex_window(&usage, "secondary_window").is_none());
    assert_eq!(codex_plan(&usage), "Plus");
    assert_eq!(codex_plan(&obj(vec![("plan_type", Json::Null)])), "");
    assert_eq!(codex_plan(&obj(vec![("plan_type", s("k12"))])), "K12");
}

#[test]
fn codex_reset_at_range_edges() {
    let at = |t: i64| obj(vec![("reset_at", Json::Number(JsonNumber { as_i64: Some(t), f64_bits: (t as f64).to_bits() }))]);
    assert!(codex_reset_at(Some(&at(8_210_266_876_799)), false).is_some());
    assert_eq!(codex_reset_at(Some(&at(8_210_266_876_800)), false), None);
    assert_eq!(codex_reset_at(Some(&at(-8_334_601_228_801)), true), None);
}
