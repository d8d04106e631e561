use desk_hud::chat::{
    claude_org_uuid, claude_plan_label, credentials_org_uuid, usage_resets_at, usage_utilization,
};
use desk_hud::json::{Json, JsonNumber};
use desk_hud::plan::json_has_plan;

fn s(v: &str) -> Json {
    Json::String(v.to_string())
}

fn obj(entries: Vec<(&str, Json)>) -> Json {
    Json::Object(entries.into_iter().map(|(k, v)| (k.to_string(), v)).collect())
}

fn num(v: f64) -> Json {
    Json::Number(JsonNumber { as_i64: None, f64_bits: v.to_bits() })
}

fn integer(v: i64) -> Json {
    Json::Number(JsonNumber { as_i64: Some(v), f64_bits: (v as f64).to_bits() })
}

const MAX: [&str; 3] = ["max_plan", "claude_max", "max"];
const PRO: [&str; 3] = ["pro_plan", "claude_pro", "pro"];
const BRAND: &str = "acme";

#[test]
fn string_values_name_plans() {
    assert!(json_has_plan(&s("max"), &MAX, BRAND));
    assert!(json_has_plan(&s("MAX"), &MAX, BRAND));
    assert!(json_has_plan(&s("max_plan"), &MAX, BRAND));
    assert!(json_has_plan(&s("max_plan_plan"), &MAX, BRAND));
    assert!(json_has_plan(&s("Your Max Plan"), &MAX, BRAND));
    assert!(json_has_plan(&s("Acme Max 20x"), &MAX, BRAND));
    assert!(!json_has_plan(&s("maximum"), &MAX, BRAND));
    assert!(!json_has_plan(&s("claude_maximal"), &PRO, BRAND));
    assert!(!json_has_plan(&Json::Null, &MAX, BRAND));
    assert!(!json_has_plan(&Json::Bool(true), &MAX, BRAND));
    assert!(!json_has_plan(&integer(5), &MAX, BRAND));
}

#[test]
fn arrays_and_objects_are_searched() {
    let nested = Json::Array(vec![s("free"), Json::Array(vec![obj(vec![("name", s("pro"))])])]);
    assert!(json_has_plan(&nested, &PRO, BRAND));
    assert!(!json_has_plan(&nested, &MAX, BRAND));
    // a key names the plan only when it is a plan/tier/subscription/flag key
    assert!(json_has_plan(&obj(vec![("is_max_tier", Json::Bool(false))]), &MAX, BRAND));
    assert!(json_has_plan(&obj(vec![("Flag_Max", Json::Null)]), &MAX, BRAND));
    assert!(!json_has_plan(&obj(vec![("max_tokens", integer(3))]), &MAX, BRAND));
    assert!(!json_has_plan(&obj(vec![("plan", s("free"))]), &MAX, BRAND));
}

#[test]
fn plan_label_priority() {
    let sub = obj(vec![("plans", Json::Array(vec![s("pro"), s("max")]))]);
    assert_eq!(claude_plan_label(&Json::Null, Some(&sub), &Json::Null, BRAND), "Max");
    let sub = obj(vec![("plan", s("claude_pro"))]);
    assert_eq!(claude_plan_label(&Json::Null, Some(&sub), &Json::Null, BRAND), "Pro");
    let sub = obj(vec![("subscription_team", Json::Bool(true))]);
    assert_eq!(claude_plan_label(&Json::Null, Some(&sub), &Json::Null, BRAND), "Team");
    let account = s("Acme Enterprise");
    assert_eq!(claude_plan_label(&account, None, &Json::Null, BRAND), "Enterprise");
}

#[test]
fn plan_label_from_usage_windows() {
    let usage = obj(vec![("seven_day", obj(vec![]))]);
    assert_eq!(claude_plan_label(&Json::Null, None, &usage, BRAND), "Pro");
    let usage = obj(vec![("seven_day_sonnet", obj(vec![("utilization", num(3.0))]))]);
    assert_eq!(claude_plan_label(&Json::Null, None, &usage, BRAND), "Pro");
    let usage = obj(vec![("seven_day", Json::Null)]);
    assert_eq!(claude_plan_label(&Json::Null, None, &usage, BRAND), "Free");
    assert_eq!(claude_plan_label(&Json::Null, None, &Json::Null, BRAND), "Free");
}

#[test]
fn plan_label_is_one_of_five() {
    let docs = vec![Json::Null, s("max"), s("pro"), s("team"), s("enterprise"), s("other")];
    for a in &docs {
        for u in &docs {
            let l = claude_plan_label(a, Some(u), u, BRAND);
            assert!(["Max", "Pro", "Team", "Enterprise", "Free"].contains(&l));
        }
    }
}

#[test]
fn org_uuid_from_memberships() {
    let account = obj(vec![(
        "memberships",
        Json::Array(vec![
            obj(vec![("organization", obj(vec![("name", s("x"))]))]),
            obj(vec![("organization", obj(vec![("uuid", s("org-1"))]))]),
            obj(vec![("uuid", s("org-2"))]),
        ]),
    )]);
    assert_eq!(claude_org_uuid(&account).as_deref(), Some("org-1"));
    let account = obj(vec![(
        "memberships",
        Json::Array(vec![obj(vec![
            ("organization_uuid", s("flat")),
            ("organization", obj(vec![("organization_uuid", s("nested"))])),
        ])]),
    )]);
    assert_eq!(claude_org_uuid(&account).as_deref(), Some("nested"));
    let account = obj(vec![("memberships", Json::Array(vec![obj(vec![("organization_uuid", s("flat"))])]))]);
    assert_eq!(claude_org_uuid(&account).as_deref(), Some("flat"));
    assert_eq!(claude_org_uuid(&obj(vec![("memberships", obj(vec![]))])), None);
    assert_eq!(claude_org_uuid(&Json::Null), None);
}

#[test]
fn credentials_org() {
    assert_eq!(credentials_org_uuid(&obj(vec![("organizationUuid", s("u"))])).as_deref(), Some("u"));
    assert_eq!(credentials_org_uuid(&obj(vec![("organizationUuid", integer(1))])), None);
}

#[test]
fn usage_window_fields() {
    let data = obj(vec![
        (
            "five_hour",
            obj(vec![("reset_at", s("b")), ("resets_at", s("a")), ("utilization_pct", num(42.5))]),
        ),
        ("seven_day", obj(vec![("reset_at", s("c")), ("percent_used", num(0.5)), ("utilization", s("x"))])),
    ]);
    assert_eq!(usage_resets_at(&data, "five_hour").as_deref(), Some("a"));
    assert_eq!(usage_resets_at(&data, "seven_day").as_deref(), Some("c"));
    assert_eq!(usage_resets_at(&data, "missing"), None);
    assert_eq!(usage_utilization(&data, "five_hour"), Some(42.5f64.to_bits()));
    assert_eq!(usage_utilization(&data, "seven_day"), Some(0.5f64.to_bits()));
    assert_eq!(usage_utilization(&data, "missing"), None);
}
