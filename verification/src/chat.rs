use vstd::prelude::*;
use crate::json::{
    Json, member, text_of, float_bits_of, is_object, opt, check_object, get_member, get_text,
    get_float_bits,
};
use crate::plan::{has_plan, json_has_plan, needle_views};
use crate::text::{trim, trimmed};

verus! {

broadcast use vstd::string::group_string_axioms;

/// The needles that identify the Max plan.
pub open spec fn max_needles() -> Seq<Seq<char>> {
    seq!["max_plan"@, "claude_max"@, "max"@]
}

/// The needles that identify the Pro plan.
pub open spec fn pro_needles() -> Seq<Seq<char>> {
    seq!["pro_plan"@, "claude_pro"@, "pro"@]
}

/// The needles that identify the Team plan.
pub open spec fn team_needles() -> Seq<Seq<char>> {
    seq!["team_plan"@, "claude_team"@, "team"@]
}

/// The needles that identify the Enterprise plan.
pub open spec fn enterprise_needles() -> Seq<Seq<char>> {
    seq!["enterprise_plan"@, "claude_enterprise"@, "enterprise"@]
}

/// The account or the subscription details mention the plan.
pub open spec fn mentions(
    account: Json,
    subscription: Option<Json>,
    needles: Seq<Seq<char>>,
    brand: Seq<char>,
) -> bool {
    has_plan(account, needles, brand) || (subscription matches Some(s) && has_plan(
        s,
        needles,
        brand,
    ))
}

/// The chat plan label: the first of Max, Pro, Team, Enterprise that the
/// account or subscription mentions (`brand` is the product's lower-case
/// name, as plans are written "`brand` `plan`"); otherwise "Pro" when the usage
/// report has a weekly (`seven_day` or `seven_day_sonnet`) window object;
/// otherwise "Free".
pub open spec fn plan_label(
    account: Json,
    subscription: Option<Json>,
    usage: Json,
    brand: Seq<char>,
) -> Seq<char> {
    if mentions(account, subscription, max_needles(), brand) {
        "Max"@
    } else if mentions(account, subscription, pro_needles(), brand) {
        "Pro"@
    } else if mentions(account, subscription, team_needles(), brand) {
        "Team"@
    } else if mentions(account, subscription, enterprise_needles(), brand) {
        "Enterprise"@
    } else if is_object(member(Some(usage), "seven_day"@)) || is_object(
        member(Some(usage), "seven_day_sonnet"@),
    ) {
        "Pro"@
    } else {
        "Free"@
    }
}

fn mentions_plan(account: &Json, subscription: Option<&Json>, needles: &[&str], brand: &str) -> (r:
    bool)
    ensures
        r == mentions(*account, opt(subscription), needle_views(needles@), brand@),
{
    if json_has_plan(account, needles, brand) {
        return true;
    }
    match subscription {
        Some(s) => json_has_plan(s, needles, brand),
        None => false,
    }
}

/// The chat plan label (see `plan_label`).
pub fn claude_plan_label(
    account: &Json,
    subscription: Option<&Json>,
    usage: &Json,
    brand: &str,
) -> (r: &'static str)
    ensures
        r@ == plan_label(*account, opt(subscription), *usage, brand@),
{
    let max = ["max_plan", "claude_max", "max"];
    assert(needle_views(max@) == max_needles());
    if mentions_plan(account, subscription, &max, brand) {
        return "Max";
    }
    let pro = ["pro_plan", "claude_pro", "pro"];
    assert(needle_views(pro@) == pro_needles());
    if mentions_plan(account, subscription, &pro, brand) {
        return "Pro";
    }
    let team = ["team_plan", "claude_team", "team"];
    assert(needle_views(team@) == team_needles());
    if mentions_plan(account, subscription, &team, brand) {
        return "Team";
    }
    let enterprise = ["enterprise_plan", "claude_enterprise", "enterprise"];
    assert(needle_views(enterprise@) == enterprise_needles());
    if mentions_plan(account, subscription, &enterprise, brand) {
        return "Enterprise";
    }
    if check_object(get_member(Some(usage), "seven_day")) || check_object(
        get_member(Some(usage), "seven_day_sonnet"),
    ) {
        return "Pro";
    }
    "Free"
}

} // verus!

verus! {

/// The organization UUID of one membership entry: the first string among
/// `organization.uuid`, `organization.organization_uuid`, `organization_uuid`
/// and `uuid`.
pub open spec fn membership_org(m: Json) -> Option<Seq<char>> {
    let org = member(Some(m), "organization"@);
    if text_of(member(org, "uuid"@)) is Some {
        text_of(member(org, "uuid"@))
    } else if text_of(member(org, "organization_uuid"@)) is Some {
        text_of(member(org, "organization_uuid"@))
    } else if text_of(member(Some(m), "organization_uuid"@)) is Some {
        text_of(member(Some(m), "organization_uuid"@))
    } else {
        text_of(member(Some(m), "uuid"@))
    }
}

/// The first membership (in order) that yields an organization UUID.
pub open spec fn first_membership_org(items: Seq<Json>) -> Option<Seq<char>>
    decreases items.len(),
{
    if items.len() == 0 {
        None
    } else if membership_org(items[0]) is Some {
        membership_org(items[0])
    } else {
        first_membership_org(items.drop_first())
    }
}

/// The organization UUID in an account document: from its `memberships`
/// array, the first membership that names one.
pub open spec fn account_org(data: Json) -> Option<Seq<char>> {
    match member(Some(data), "memberships"@) {
        Some(Json::Array(items)) => first_membership_org(items@),
        _ => None,
    }
}

fn membership_org_of(m: &Json) -> (r: Option<String>)
    ensures
        match r {
            Some(s) => membership_org(*m) == Some(s@),
            None => membership_org(*m) is None,
        },
{
    let org = get_member(Some(m), "organization");
    if let Some(s) = get_text(get_member(org, "uuid")) {
        return Some(s);
    }
    if let Some(s) = get_text(get_member(org, "organization_uuid")) {
        return Some(s);
    }
    if let Some(s) = get_text(get_member(Some(m), "organization_uuid")) {
        return Some(s);
    }
    get_text(get_member(Some(m), "uuid"))
}

/// The organization UUID named in an account document (see `account_org`).
pub fn claude_org_uuid(data: &Json) -> (r: Option<String>)
    ensures
        match r {
            Some(s) => account_org(*data) == Some(s@),
            None => account_org(*data) is None,
        },
{
    let memberships = get_member(Some(data), "memberships");
    let items = match memberships {
        Some(v) => match v {
            Json::Array(items) => items,
            _ => return None,
        },
        None => return None,
    };
    assert(member(Some(*data), "memberships"@) == Some(Json::Array(*items)));
    let mut i: usize = 0;
    assert(items@.skip(0) == items@);
    while i < items.len()
        invariant
            i <= items@.len(),
            account_org(*data) == first_membership_org(items@.skip(i as int)),
        decreases items.len() - i,
    {
        let ghost rest = items@.skip(i as int);
        assert(rest.drop_first() == items@.skip(i + 1));
        assert(rest[0] == items@[i as int]);
        if let Some(s) = membership_org_of(&items[i]) {
            return Some(s);
        }
        i = i + 1;
    }
    None
}

/// The reset timestamp text of a usage window: `resets_at`, else `reset_at`.
pub open spec fn window_resets_at(data: Json, key: Seq<char>) -> Option<Seq<char>> {
    let w = member(Some(data), key);
    if text_of(member(w, "resets_at"@)) is Some {
        text_of(member(w, "resets_at"@))
    } else {
        text_of(member(w, "reset_at"@))
    }
}

/// The reset timestamp text of the usage window `key` (see `window_resets_at`).
pub fn usage_resets_at(data: &Json, key: &str) -> (r: Option<String>)
    ensures
        match r {
            Some(s) => window_resets_at(*data, key@) == Some(s@),
            None => window_resets_at(*data, key@) is None,
        },
{
    let w = get_member(Some(data), key);
    if let Some(s) = get_text(get_member(w, "resets_at")) {
        return Some(s);
    }
    get_text(get_member(w, "reset_at"))
}

/// The `f64` bits of a usage window's utilization number: `utilization`,
/// else `utilization_pct`, else `percent_used`.
pub open spec fn window_utilization(data: Json, key: Seq<char>) -> Option<u64> {
    let w = member(Some(data), key);
    if float_bits_of(member(w, "utilization"@)) is Some {
        float_bits_of(member(w, "utilization"@))
    } else if float_bits_of(member(w, "utilization_pct"@)) is Some {
        float_bits_of(member(w, "utilization_pct"@))
    } else {
        float_bits_of(member(w, "percent_used"@))
    }
}

/// The `f64` bits of the utilization number of the usage window `key`
/// (see `window_utilization`); the caller turns it into a percentage.
pub fn usage_utilization(data: &Json, key: &str) -> (r: Option<u64>)
    ensures
        r == window_utilization(*data, key@),
{
    let w = get_member(Some(data), key);
    if let Some(b) = get_float_bits(get_member(w, "utilization")) {
        return Some(b);
    }
    if let Some(b) = get_float_bits(get_member(w, "utilization_pct")) {
        return Some(b);
    }
    get_float_bits(get_member(w, "percent_used"))
}

/// The organization UUID stored in the chat CLI's credentials document
/// (its `organizationUuid` string).
pub fn credentials_org_uuid(creds: &Json) -> (r: Option<String>)
    ensures
        match r {
            Some(s) => text_of(member(Some(*creds), "organizationUuid"@)) == Some(s@),
            None => text_of(member(Some(*creds), "organizationUuid"@)) is None,
        },
{
    get_text(get_member(Some(creds), "organizationUuid"))
}

} // verus!

verus! {

/// The daily message limit of the local fallback when none is configured.
pub const DEFAULT_DAILY_LIMIT: u32 = 500;

/// Where the chat usage widget takes its usage from.
pub enum ClaudeSource {
    /// The web usage API, with the trimmed session key.
    Api { session_key: String, local_limit: u32 },
    /// Today's messages counted in the local session logs.
    Local { local_limit: u32 },
}

/// The source decision: the API when a session key is configured and is not
/// blank (it is used trimmed), otherwise the local message count; the local
/// limit is the configured daily limit, or 500.
pub open spec fn source_of(session_key: Option<Seq<char>>, daily_limit: Option<u32>) -> (
    Option<Seq<char>>,
    u32,
) {
    let limit = match daily_limit {
        Some(l) => l,
        None => 500,
    };
    match session_key {
        Some(k) => if trimmed(k).len() > 0 {
            (Some(trimmed(k)), limit)
        } else {
            (None, limit)
        },
        None => (None, limit),
    }
}

/// The view of a source decision: the session key when the API is used, and the local limit.
pub open spec fn source_view(s: ClaudeSource) -> (Option<Seq<char>>, u32) {
    match s {
        ClaudeSource::Api { session_key, local_limit } => (Some(session_key@), local_limit),
        ClaudeSource::Local { local_limit } => (None, local_limit),
    }
}

/// The view of an optional borrowed string.
pub open spec fn opt_str(s: Option<&str>) -> Option<Seq<char>> {
    match s {
        Some(k) => Some(k@),
        None => None,
    }
}

/// Decides where the chat usage widget takes its usage from (see `source_of`).
pub fn claude_source(session_key: Option<&str>, daily_limit: Option<u32>) -> (r: ClaudeSource)
    ensures
        source_view(r) == source_of(opt_str(session_key), daily_limit),
{
    let local_limit = match daily_limit {
        Some(l) => l,
        None => DEFAULT_DAILY_LIMIT,
    };
    if let Some(k) = session_key {
        let key = trim(k);
        if !key.as_str().is_empty() {
            return ClaudeSource::Api { session_key: key, local_limit };
        }
    }
    ClaudeSource::Local { local_limit }
}

/// The organization UUID from the chat CLI's credentials, when it is not empty.
pub fn known_org(cli_uuid: Option<String>) -> (r: Option<String>)
    ensures
        match cli_uuid {
            Some(id) => if id@.len() > 0 {
                r == Some(id)
            } else {
                r is None
            },
            None => r is None,
        },
{
    match cli_uuid {
        Some(id) => if !id.as_str().is_empty() {
            Some(id)
        } else {
            None
        },
        None => None,
    }
}

/// The message when no organization UUID can be found.
pub open spec fn no_org_message() -> Seq<char> {
    "Could not find org UUID"@
}

/// The view of a text result.
pub open spec fn text_result(r: Result<String, String>) -> Result<Seq<char>, Seq<char>> {
    match r {
        Ok(s) => Ok(s@),
        Err(e) => Err(e@),
    }
}

/// The organization to query for usage, from the account document: its
/// membership UUID (even an empty one), or the "no org" error.
pub fn usage_org_from_account(account: &Json) -> (r: Result<String, String>)
    ensures
        text_result(r) == match account_org(*account) {
            Some(u) => Ok(u),
            None => Err(no_org_message()),
        },
{
    match claude_org_uuid(account) {
        Some(u) => Ok(u),
        None => Err(String::from_str("Could not find org UUID")),
    }
}

/// The organization for the debug dump, from the account document: its
/// membership UUID when that is present and not empty, else the "no org" error.
pub fn debug_org_from_account(account: &Json) -> (r: Result<String, String>)
    ensures
        text_result(r) == match account_org(*account) {
            Some(u) => if u.len() > 0 {
                Ok(u)
            } else {
                Err(no_org_message())
            },
            None => Err(no_org_message()),
        },
{
    match claude_org_uuid(account) {
        Some(u) => if !u.as_str().is_empty() {
            Ok(u)
        } else {
            Err(String::from_str("Could not find org UUID"))
        },
        None => Err(String::from_str("Could not find org UUID")),
    }
}

/// The URL of an organization's resource `what` under an API base URL.
pub open spec fn org_url(base: Seq<char>, org: Seq<char>, what: Seq<char>) -> Seq<char> {
    base + "/organizations/"@ + org + "/"@ + what
}

/// The URL of an organization's resource `what` under an API base URL
/// (see `org_url`), such as its `subscription_details` or its `usage`.
pub fn org_resource_url(base: &str, org: &str, what: &str) -> (r: String)
    ensures
        r@ == org_url(base@, org@, what@),
{
    let mut u = String::from_str(base);
    u.append("/organizations/");
    u.append(org);
    u.append("/");
    u.append(what);
    u
}

/// The session cookie of a web request: "sessionKey=" and the key.
pub fn session_cookie(session_key: &str) -> (r: String)
    ensures
        r@ == "sessionKey="@ + session_key@,
{
    let mut c = String::from_str("sessionKey=");
    c.append(session_key);
    c
}

} // verus!
