use desk_hud::fetch::{usage_fetch_step, FetchAction, FetchEvent, FetchMode, UsageFetch};
use desk_hud::json::Json;

const BASE: &str = "https://example.test/api";

fn s(v: &str) -> Json {
    Json::String(v.to_string())
}

fn obj(entries: Vec<(&str, Json)>) -> Json {
    Json::Object(entries.into_iter().map(|(k, v)| (k.to_string(), v)).collect())
}

fn account(uuid: &str) -> Json {
    obj(vec![("memberships", Json::Array(vec![obj(vec![("uuid", s(uuid))])]))])
}

fn get(a: &FetchAction) -> &str {
    match a {
        FetchAction::Get(url) => url,
        _ => panic!("expected a request"),
    }
}

#[test]
fn widget_with_cli_org() {
    let (st, a) = usage_fetch_step(FetchMode::Widget, UsageFetch::Start, FetchEvent::CliOrg(Some("o1".into())), BASE);
    assert_eq!(get(&a), "https://example.test/api/organizations/o1/subscription_details");
    let (st, a) = usage_fetch_step(FetchMode::Widget, st, FetchEvent::Reply(Err("503".into())), BASE);
    assert_eq!(get(&a), "https://example.test/api/organizations/o1/usage");
    let (st, a) = usage_fetch_step(FetchMode::Widget, st, FetchEvent::Reply(Ok(s("u"))), BASE);
    assert!(matches!(st, UsageFetch::Done));
    match a {
        FetchAction::Report { subscription, usage } => {
            assert!(subscription.is_none());
            assert!(matches!(usage, Json::String(v) if v == "u"));
        }
        _ => panic!("expected a report"),
    }
}

#[test]
fn widget_keeps_subscription() {
    let (st, _) = usage_fetch_step(FetchMode::Widget, UsageFetch::Start, FetchEvent::CliOrg(Some("o".into())), BASE);
    let (st, _) = usage_fetch_step(FetchMode::Widget, st, FetchEvent::Reply(Ok(s("sub"))), BASE);
    let (_, a) = usage_fetch_step(FetchMode::Widget, st, FetchEvent::Reply(Ok(s("u"))), BASE);
    assert!(matches!(a, FetchAction::Report { subscription: Some(Json::String(v)), .. } if v == "sub"));
}

#[test]
fn account_is_fetched_without_cli_org() {
    for cli in [None, Some(String::new())] {
        let (st, a) = usage_fetch_step(FetchMode::Widget, UsageFetch::Start, FetchEvent::CliOrg(cli), BASE);
        assert_eq!(get(&a), "https://example.test/api/account");
        let (_, a) = usage_fetch_step(FetchMode::Widget, st, FetchEvent::Reply(Ok(account("a1"))), BASE);
        assert_eq!(get(&a), "https://example.test/api/organizations/a1/subscription_details");
    }
}

#[test]
fn empty_account_org_differs_by_mode() {
    let (st, _) = usage_fetch_step(FetchMode::Widget, UsageFetch::Start, FetchEvent::CliOrg(None), BASE);
    let (_, a) = usage_fetch_step(FetchMode::Widget, st, FetchEvent::Reply(Ok(account(""))), BASE);
    assert_eq!(get(&a), "https://example.test/api/organizations//subscription_details");
    let (st, _) = usage_fetch_step(FetchMode::Debug, UsageFetch::Start, FetchEvent::CliOrg(None), BASE);
    let (st, a) = usage_fetch_step(FetchMode::Debug, st, FetchEvent::Reply(Ok(account(""))), BASE);
    assert!(matches!(st, UsageFetch::Done));
    assert!(matches!(a, FetchAction::Fail(e) if e == "Could not find org UUID"));
}

#[test]
fn failures_end_the_fetch() {
    let (st, _) = usage_fetch_step(FetchMode::Widget, UsageFetch::Start, FetchEvent::CliOrg(None), BASE);
    let (_, a) = usage_fetch_step(FetchMode::Widget, st, FetchEvent::Reply(Err("API 401: no".into())), BASE);
    assert!(matches!(a, FetchAction::Fail(e) if e == "API 401: no"));
    let (_, a) = usage_fetch_step(FetchMode::Widget, UsageFetch::Account, FetchEvent::Reply(Ok(Json::Null)), BASE);
    assert!(matches!(a, FetchAction::Fail(e) if e == "Could not find org UUID"));
    let st = UsageFetch::Usage { org: "o".into(), subscription: None };
    let (st, a) = usage_fetch_step(FetchMode::Widget, st, FetchEvent::Reply(Err("boom".into())), BASE);
    assert!(matches!(st, UsageFetch::Done));
    assert!(matches!(a, FetchAction::Fail(e) if e == "boom"));
}

#[test]
fn debug_goes_straight_to_usage() {
    let (st, a) = usage_fetch_step(FetchMode::Debug, UsageFetch::Start, FetchEvent::CliOrg(Some("o9".into())), BASE);
    assert_eq!(get(&a), "https://example.test/api/organizations/o9/usage");
    let (_, a) = usage_fetch_step(FetchMode::Debug, st, FetchEvent::Reply(Ok(s("u"))), BASE);
    assert!(matches!(a, FetchAction::Show(Json::String(v)) if v == "u"));
}

#[test]
fn a_fetch_makes_at_most_three_requests() {
    for mode in [FetchMode::Widget, FetchMode::Debug] {
        let mut st = UsageFetch::Start;
        let mut ev = FetchEvent::CliOrg(None);
        let mut requests = 0;
        loop {
            let (next, a) = usage_fetch_step(mode, st, ev, BASE);
            match a {
                FetchAction::Get(_) => {
                    requests += 1;
                    st = next;
                    ev = FetchEvent::Reply(Ok(account("x")));
                }
                _ => break,
            }
        }
        assert!(requests <= 3);
        assert_eq!(requests, if mode == FetchMode::Widget { 3 } else { 2 });
    }
}
