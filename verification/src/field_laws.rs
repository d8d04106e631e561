use vstd::prelude::*;
use crate::chat::{
    account_org, first_membership_org, membership_org, no_org_message, org_url, plan_label,
    window_resets_at, window_utilization,
};
use crate::api::{api_outcome, compact_error, compacted_body};
use crate::codex::{codex_auth, codex_headers, plan_name};
use crate::fetch::{fetch_next, ActionView, EventView, FetchMode, StateView};
use crate::json::{entry_value, float_bits_of, is_object, member, text_of, Json};
use crate::media::{action_of, b64_digit, MediaAction};
use crate::messages::is_user_message;
use crate::plan::{has_plan, key_has_plan, text_has_plan, text_names_plan};
use crate::api::one_line;
use crate::text::{contains, decimal, is_white, lower_ascii, trim_end, trim_start, trimmed};
use crate::time::{
    duration_label, instant_text, reset_pattern, resets_at_label, resets_in_label, rfc3339_instant,
    whole_seconds_between,
};

verus! {

broadcast use vstd::string::group_string_axioms;

// ---------------------------------------------------------------------------
// What the readers take from a JSON document
// ---------------------------------------------------------------------------

/// A member lookup finds the first entry with the key, and nothing when no
/// entry has it.
pub proof fn law_member_is_first_entry_with_key(entries: Seq<(String, Json)>, key: Seq<char>)
    ensures
        forall|i: int|
            0 <= i < entries.len() && (#[trigger] entries[i]).0@ == key && (forall|j: int|
                0 <= j < i ==> (#[trigger] entries[j]).0@ != key) ==> entry_value(entries, key)
                == Some(entries[i].1),
        (forall|i: int| 0 <= i < entries.len() ==> (#[trigger] entries[i]).0@ != key) ==> entry_value(
            entries,
            key,
        ) is None,
    decreases entries.len(),
{
    if entries.len() > 0 {
        let rest = entries.drop_first();
        law_member_is_first_entry_with_key(rest, key);
        assert forall|i: int|
            0 <= i < entries.len() && (#[trigger] entries[i]).0@ == key && (forall|j: int|
                0 <= j < i ==> (#[trigger] entries[j]).0@ != key) implies entry_value(entries, key)
            == Some(entries[i].1) by {
            if i > 0 {
                assert(entries[0].0@ != key);
                assert(rest[i - 1] == entries[i]);
                assert forall|j: int| 0 <= j < i - 1 implies (#[trigger] rest[j]).0@ != key by {
                    assert(rest[j] == entries[j + 1]);
                }
            }
        }
        if forall|i: int| 0 <= i < entries.len() ==> (#[trigger] entries[i]).0@ != key {
            assert(entries[0].0@ != key);
            assert forall|i: int| 0 <= i < rest.len() implies (#[trigger] rest[i]).0@ != key by {
                assert(rest[i] == entries[i + 1]);
            }
        }
    }
}

/// A usage window's utilization is its `utilization` number; failing that its
/// `utilization_pct` number; failing that its `percent_used` number; and
/// nothing when it has none of them.
pub proof fn law_usage_utilization_reads_utilization_first(data: Json, key: Seq<char>)
    ensures
        ({
            let w = member(Some(data), key);
            let a = float_bits_of(member(w, "utilization"@));
            let b = float_bits_of(member(w, "utilization_pct"@));
            let c = float_bits_of(member(w, "percent_used"@));
            &&& a matches Some(x) ==> window_utilization(data, key) == Some(x)
            &&& a is None ==> (b matches Some(x) ==> window_utilization(data, key) == Some(x))
            &&& a is None && b is None ==> window_utilization(data, key) == c
        }),
{
}

/// A usage window's reset time is its `resets_at` text, failing that its
/// `reset_at` text.
pub proof fn law_usage_resets_at_reads_resets_at_first(data: Json, key: Seq<char>)
    ensures
        ({
            let w = member(Some(data), key);
            &&& text_of(member(w, "resets_at"@)) matches Some(t) ==> window_resets_at(data, key)
                == Some(t)
            &&& text_of(member(w, "resets_at"@)) is None ==> window_resets_at(data, key) == text_of(
                member(w, "reset_at"@),
            )
        }),
{
}

/// A membership names its organization by `organization.uuid`, failing that
/// `organization.organization_uuid`, failing that `organization_uuid`,
/// failing that `uuid`.
pub proof fn law_membership_org_order(m: Json)
    ensures
        ({
            let org = member(Some(m), "organization"@);
            let a = text_of(member(org, "uuid"@));
            let b = text_of(member(org, "organization_uuid"@));
            let c = text_of(member(Some(m), "organization_uuid"@));
            let d = text_of(member(Some(m), "uuid"@));
            &&& a matches Some(u) ==> membership_org(m) == Some(u)
            &&& a is None ==> (b matches Some(u) ==> membership_org(m) == Some(u))
            &&& a is None && b is None ==> (c matches Some(u) ==> membership_org(m) == Some(u))
            &&& a is None && b is None && c is None ==> membership_org(m) == d
        }),
{
}

/// The organization of a list of memberships is that of the first membership
/// that names one; there is none when no membership names one.
proof fn lemma_first_membership_org(items: Seq<Json>)
    ensures
        first_membership_org(items) matches Some(u) ==> exists|i: int|
            0 <= i < items.len() && membership_org(#[trigger] items[i]) == Some(u) && forall|j: int|
                0 <= j < i ==> membership_org(#[trigger] items[j]) is None,
        first_membership_org(items) is None <==> forall|i: int|
            0 <= i < items.len() ==> membership_org(#[trigger] items[i]) is None,
    decreases items.len(),
{
    if items.len() > 0 {
        let rest = items.drop_first();
        lemma_first_membership_org(rest);
        if membership_org(items[0]) is None {
            if let Some(u) = first_membership_org(rest) {
                let i = choose|i: int|
                    0 <= i < rest.len() && membership_org(#[trigger] rest[i]) == Some(u) && forall|
                        j: int,
                    | 0 <= j < i ==> membership_org(#[trigger] rest[j]) is None;
                assert(items[i + 1] == rest[i]);
                assert forall|j: int| 0 <= j < i + 1 implies membership_org(
                    #[trigger] items[j],
                ) is None by {
                    if j > 0 {
                        assert(items[j] == rest[j - 1]);
                    }
                }
            }
            if forall|i: int| 0 <= i < rest.len() ==> membership_org(#[trigger] rest[i]) is None {
                assert forall|i: int| 0 <= i < items.len() implies membership_org(
                    #[trigger] items[i],
                ) is None by {
                    if i > 0 {
                        assert(items[i] == rest[i - 1]);
                    }
                }
            }
            if forall|i: int| 0 <= i < items.len() ==> membership_org(#[trigger] items[i]) is None {
                assert forall|i: int| 0 <= i < rest.len() implies membership_org(
                    #[trigger] rest[i],
                ) is None by {
                    assert(rest[i] == items[i + 1]);
                }
            }
        } else {
            assert(membership_org(items[0]) is Some);
        }
    }
}

/// The organization of an account document comes from its `memberships`
/// array: the organization of the first membership that names one; there is
/// none when no membership names one or when `memberships` is not an array.
pub proof fn law_account_org_is_first_named_membership(data: Json)
    ensures
        match member(Some(data), "memberships"@) {
            Some(Json::Array(items)) => {
                &&& account_org(data) matches Some(u) ==> exists|i: int|
                    0 <= i < items@.len() && membership_org(#[trigger] items@[i]) == Some(u)
                        && forall|j: int|
                        0 <= j < i ==> membership_org(#[trigger] items@[j]) is None
                &&& account_org(data) is None <==> forall|i: int|
                    0 <= i < items@.len() ==> membership_org(#[trigger] items@[i]) is None
            },
            _ => account_org(data) is None,
        },
{
    if let Some(Json::Array(items)) = member(Some(data), "memberships"@) {
        lemma_first_membership_org(items@);
    }
}

/// The error when no organization can be found reads "Could not find org UUID".
pub proof fn law_no_org_message_text()
    ensures
        no_org_message() == "Could not find org UUID"@,
{
}

/// An organization's resource URL is the base, "/organizations/", the
/// organization, "/" and the resource.
pub proof fn law_org_url_shape(base: Seq<char>, org: Seq<char>, what: Seq<char>)
    ensures
        org_url(base, org, what) == base + "/organizations/"@ + org + "/"@ + what,
{
}

/// The chat plan label: "Max" when the account or the subscription mentions
/// `max_plan`, `claude_max` or `max`; else "Pro" for `pro_plan`, `claude_pro`,
/// `pro`; else "Team" for `team_plan`, `claude_team`, `team`; else
/// "Enterprise" for `enterprise_plan`, `claude_enterprise`, `enterprise`; else
/// "Pro" when the usage report has a `seven_day` or `seven_day_sonnet` window
/// object; else "Free".
pub proof fn law_plan_label_order(
    account: Json,
    subscription: Option<Json>,
    usage: Json,
    brand: Seq<char>,
)
    ensures
        ({
            let says = |n: Seq<Seq<char>>|
                has_plan(account, n, brand) || (subscription matches Some(s) && has_plan(
                    s,
                    n,
                    brand,
                ));
            let max = says(seq!["max_plan"@, "claude_max"@, "max"@]);
            let pro = says(seq!["pro_plan"@, "claude_pro"@, "pro"@]);
            let team = says(seq!["team_plan"@, "claude_team"@, "team"@]);
            let ent = says(seq!["enterprise_plan"@, "claude_enterprise"@, "enterprise"@]);
            let weekly = is_object(member(Some(usage), "seven_day"@)) || is_object(
                member(Some(usage), "seven_day_sonnet"@),
            );
            let l = plan_label(account, subscription, usage, brand);
            &&& max ==> l == "Max"@
            &&& !max && pro ==> l == "Pro"@
            &&& !max && !pro && team ==> l == "Team"@
            &&& !max && !pro && !team && ent ==> l == "Enterprise"@
            &&& !max && !pro && !team && !ent && weekly ==> l == "Pro"@
            &&& !max && !pro && !team && !ent && !weekly ==> l == "Free"@
        }),
{
}

// ---------------------------------------------------------------------------
// Error bodies and API outcomes
// ---------------------------------------------------------------------------

/// The short form of an error body is the `error.message` text of its JSON
/// document; failing that its `message` text; failing that the compacted body.
pub proof fn law_compact_error_prefers_the_message(body: Seq<char>, doc: Option<Json>)
    ensures
        ({
            let nested = text_of(member(member(doc, "error"@), "message"@));
            let top = text_of(member(doc, "message"@));
            &&& nested matches Some(m) ==> compact_error(body, doc) == m
            &&& nested is None ==> (top matches Some(m) ==> compact_error(body, doc) == m)
            &&& nested is None && top is None ==> compact_error(body, doc) == compacted_body(body)
        }),
{
}

/// An API call with a status outside 200..=299 fails with "`api` `status`:
/// `short error`"; a successful one gives the parsed document, or fails with
/// "`parse_label`: `parse error`".
pub proof fn law_api_outcome_by_status(
    api: Seq<char>,
    parse_label: Seq<char>,
    code: u16,
    status: Seq<char>,
    body: Seq<char>,
    doc: Option<Json>,
    parsed: Result<Json, Seq<char>>,
)
    ensures
        ({
            let o = api_outcome(api, parse_label, code, status, body, doc, parsed);
            &&& (code < 200 || code > 299) ==> o == Err::<Json, Seq<char>>(
                api + " "@ + status + ": "@ + compact_error(body, doc),
            )
            &&& 200 <= code <= 299 ==> (parsed matches Ok(j) ==> o == Ok::<Json, Seq<char>>(j))
            &&& 200 <= code <= 299 ==> (parsed matches Err(e) ==> o == Err::<Json, Seq<char>>(
                parse_label + ": "@ + e,
            ))
        }),
{
}

// ---------------------------------------------------------------------------
// Codex sign-in, request and plan
// ---------------------------------------------------------------------------

/// The Codex credentials: without a `tokens.access_token` text the error
/// "Codex access token not found; sign in with Codex CLI again"; with one, that
/// token and the account id from `tokens.account_id`, failing that
/// `account_id`, failing that empty.
pub proof fn law_codex_auth_fields(auth: Json)
    ensures
        ({
            let tokens = member(Some(auth), "tokens"@);
            let token = text_of(member(tokens, "access_token"@));
            let a = text_of(member(tokens, "account_id"@));
            let b = text_of(member(Some(auth), "account_id"@));
            let r = codex_auth(auth);
            &&& token is None ==> r == Err::<(Seq<char>, Seq<char>), Seq<char>>(
                "Codex access token not found; sign in with Codex CLI again"@,
            )
            &&& token matches Some(t) ==> (r is Ok && r->Ok_0.0 == t)
            &&& token is Some ==> (a matches Some(x) ==> r->Ok_0.1 == x)
            &&& token is Some && a is None ==> (b matches Some(x) ==> r->Ok_0.1 == x)
            &&& token is Some && a is None && b is None ==> r->Ok_0.1 == Seq::<char>::empty()
        }),
{
}

/// The Codex request headers: bearer authorization with the token, the
/// `codex-cli` user agent, JSON accept, and the account id header exactly when
/// the account id is not empty.
pub proof fn law_codex_headers_fields(token: Seq<char>, account: Seq<char>)
    ensures
        ({
            let h = codex_headers(token, account);
            &&& h.len() == if account.len() == 0 {
                3int
            } else {
                4int
            }
            &&& h[0] == ("Authorization"@, "Bearer "@ + token)
            &&& h[1] == ("User-Agent"@, "codex-cli"@)
            &&& h[2] == ("Accept"@, "application/json"@)
            &&& account.len() > 0 ==> h[3] == ("ChatGPT-Account-Id"@, account)
        }),
{
}

/// The known Codex plans, in any ASCII case, get their proper names.
pub proof fn law_known_codex_plans_are_named(plan_type: Seq<char>)
    ensures
        ({
            let p = lower_ascii(plan_type);
            let n = plan_name(plan_type);
            &&& p == "free"@ ==> n == "Free"@
            &&& p == "plus"@ ==> n == "Plus"@
            &&& p == "pro"@ ==> n == "Pro"@
            &&& p == "team"@ ==> n == "Team"@
            &&& p == "enterprise"@ ==> n == "Enterprise"@
            &&& p.len() == 0 ==> n.len() == 0
        }),
{
    reveal_strlit("free");
    reveal_strlit("plus");
    reveal_strlit("pro");
    reveal_strlit("team");
    reveal_strlit("enterprise");
    assert("free"@.len() == 4 && "plus"@.len() == 4 && "pro"@.len() == 3 && "team"@.len() == 4);
    assert("enterprise"@.len() == 10);
    assert("plus"@[0] != "free"@[0]);
    assert("team"@[0] != "free"@[0]);
    assert("team"@[0] != "plus"@[0]);
}

// ---------------------------------------------------------------------------
// Media commands and local messages
// ---------------------------------------------------------------------------

/// The media command names are "play", "pause", "play_pause", "next" and
/// "previous"; no other name is a command.
pub proof fn law_media_action_names(name: Seq<char>)
    ensures
        name == "play"@ ==> action_of(name) == Some(MediaAction::Play),
        name == "pause"@ ==> action_of(name) == Some(MediaAction::Pause),
        name == "play_pause"@ ==> action_of(name) == Some(MediaAction::PlayPause),
        name == "next"@ ==> action_of(name) == Some(MediaAction::Next),
        name == "previous"@ ==> action_of(name) == Some(MediaAction::Previous),
        action_of(name) is Some ==> (name == "play"@ || name == "pause"@ || name == "play_pause"@
            || name == "next"@ || name == "previous"@),
{
    reveal_strlit("play");
    reveal_strlit("pause");
    reveal_strlit("play_pause");
    reveal_strlit("next");
    reveal_strlit("previous");
    assert("play"@.len() == 4 && "pause"@.len() == 5 && "play_pause"@.len() == 10);
    assert("next"@.len() == 4 && "previous"@.len() == 8);
    assert("next"@[0] != "play"@[0]);
}

/// A log line is a user message of the day exactly when it contains the date
/// stamp and `"type":"user"` and does not contain `"isSidechain":true`.
pub proof fn law_user_message_line_fields(line: Seq<char>, today: Seq<char>)
    ensures
        is_user_message(line, today) <==> (contains(line, today) && contains(
            line,
            "\"type\":\"user\""@,
        ) && !contains(line, "\"isSidechain\":true"@)),
{
}

// ---------------------------------------------------------------------------
// Plan mentions
// ---------------------------------------------------------------------------

/// A lower-cased text names a plan when it is the plan word, the word followed
/// by "_plan", or contains the word followed by " plan", or the product word,
/// a space and the plan word.
pub proof fn law_text_names_plan_forms(n: Seq<char>, needle: Seq<char>, brand: Seq<char>)
    ensures
        text_names_plan(n, needle, brand) <==> (n == needle || n == needle + "_plan"@ || contains(
            n,
            needle + " plan"@,
        ) || contains(n, brand + " "@ + needle)),
{
}

/// An object key names a plan when, lower-cased, it contains "plan", "tier",
/// "subscription" or "flag", and one of the plan words.
pub proof fn law_plan_key_forms(key: Seq<char>, needles: Seq<Seq<char>>)
    ensures
        key_has_plan(key, needles) <==> ({
            let k = lower_ascii(key);
            &&& (contains(k, "plan"@) || contains(k, "tier"@) || contains(k, "subscription"@)
                || contains(k, "flag"@))
            &&& exists|i: int| 0 <= i < needles.len() && contains(k, #[trigger] needles[i])
        }),
{
}

// ---------------------------------------------------------------------------
// The usage fetch
// ---------------------------------------------------------------------------

/// The first step: with a CLI organization that is not empty, the widget asks
/// for its subscription details and the debug view for its usage report;
/// otherwise the account document is requested.
pub proof fn law_fetch_starts_with_the_cli_org(mode: FetchMode, cli: Option<Seq<char>>, base: Seq<char>)
    ensures
        ({
            let n = fetch_next(mode, StateView::Start, EventView::CliOrg(cli), base);
            &&& cli matches Some(id) ==> (id.len() > 0 && mode == FetchMode::Widget ==> n == (
                StateView::Subscription(id),
                ActionView::Get(base + "/organizations/"@ + id + "/"@ + "subscription_details"@),
            ))
            &&& cli matches Some(id) ==> (id.len() > 0 && mode == FetchMode::Debug ==> n == (
                StateView::Usage(id, None),
                ActionView::Get(base + "/organizations/"@ + id + "/"@ + "usage"@),
            ))
            &&& (cli is None || cli->0.len() == 0) ==> n == (
                StateView::Account,
                ActionView::Get(base + "/account"@),
            )
        }),
{
}

/// After the account request: a failed request ends the fetch with its error;
/// an account without an organization (for the debug view, without a
/// non-empty one) ends it with "Could not find org UUID"; otherwise the fetch
/// goes on with the account's organization.
pub proof fn law_fetch_after_account(mode: FetchMode, reply: Result<Json, Seq<char>>, base: Seq<char>)
    ensures
        ({
            let n = fetch_next(mode, StateView::Account, EventView::Reply(reply), base);
            &&& reply matches Err(e) ==> n == (StateView::Done, ActionView::Fail(e))
            &&& reply matches Ok(me) ==> (account_org(me) is None ==> n == (
                StateView::Done,
                ActionView::Fail("Could not find org UUID"@),
            ))
            &&& reply matches Ok(me) ==> (account_org(me) matches Some(u) ==> (mode
                == FetchMode::Widget ==> n == (
                StateView::Subscription(u),
                ActionView::Get(base + "/organizations/"@ + u + "/"@ + "subscription_details"@),
            )))
            &&& reply matches Ok(me) ==> (account_org(me) matches Some(u) ==> (mode
                == FetchMode::Debug ==> n == if u.len() > 0 {
                (StateView::Usage(u, None), ActionView::Get(base + "/organizations/"@ + u + "/"@ + "usage"@))
            } else {
                (StateView::Done, ActionView::Fail("Could not find org UUID"@))
            }))
        }),
{
}

/// After the subscription request, whatever its outcome, the usage report of
/// the organization is requested; the subscription details are kept when
/// they came.
pub proof fn law_fetch_after_subscription(
    mode: FetchMode,
    org: Seq<char>,
    reply: Result<Json, Seq<char>>,
    base: Seq<char>,
)
    ensures
        fetch_next(mode, StateView::Subscription(org), EventView::Reply(reply), base) == (
            StateView::Usage(org, reply.ok()),
            ActionView::Get(base + "/organizations/"@ + org + "/"@ + "usage"@),
        ),
{
}

/// After the usage request: a failure ends the fetch with its error; a usage
/// report ends it, the widget reporting it with the subscription details and
/// the debug view showing it.
pub proof fn law_fetch_after_usage(
    mode: FetchMode,
    org: Seq<char>,
    sub: Option<Json>,
    reply: Result<Json, Seq<char>>,
    base: Seq<char>,
)
    ensures
        ({
            let n = fetch_next(mode, StateView::Usage(org, sub), EventView::Reply(reply), base);
            &&& reply matches Err(e) ==> n == (StateView::Done, ActionView::Fail(e))
            &&& reply matches Ok(u) ==> n == (StateView::Done, if mode == FetchMode::Widget {
                ActionView::Report(sub, u)
            } else {
                ActionView::Show(u)
            })
        }),
{
}

// ---------------------------------------------------------------------------
// Reset texts
// ---------------------------------------------------------------------------

/// A duration of at least an hour reads "`h`h `m`m" (whole hours, then the
/// minutes left over); a shorter one reads "`m`m".
pub proof fn law_duration_label_shape(secs: nat)
    ensures
        secs >= 3600 ==> duration_label(secs) == decimal(secs / 3600) + "h "@ + decimal(
            (secs % 3600) / 60,
        ) + "m"@,
        secs < 3600 ==> duration_label(secs) == decimal(secs / 60) + "m"@,
{
}

/// The countdown to a reset time: the whole seconds from `now` until the
/// reset as a duration when that is positive, "0m" once the reset is due
/// or past, and the text itself when it does not parse or chrono cannot
/// take the difference.
pub proof fn law_countdown_to_reset(iso: Seq<char>, now_secs: i64, now_nanos: u32)
    ensures
        ({
            let l = resets_in_label(iso, now_secs, now_nanos);
            &&& rfc3339_instant(iso) matches Some(t) ==> (whole_seconds_between(
                t.0,
                t.1,
                now_secs,
                now_nanos,
            ) matches Some(d) ==> (d > 0 ==> l == duration_label(d as nat)))
            &&& rfc3339_instant(iso) matches Some(t) ==> (whole_seconds_between(
                t.0,
                t.1,
                now_secs,
                now_nanos,
            ) matches Some(d) ==> (d <= 0 ==> l == "0m"@))
            &&& rfc3339_instant(iso) matches Some(t) ==> (whole_seconds_between(
                t.0,
                t.1,
                now_secs,
                now_nanos,
            ) is None ==> l == iso)
            &&& rfc3339_instant(iso) is None ==> l == iso
        }),
{
    reveal_strlit("m");
    reveal_strlit("0m");
    assert(decimal(0) == seq!['0']);
    assert(duration_label(0) =~= "0m"@);
}

/// The weekly reset text at an offset is chrono's "%a %H:%M" of the parsed
/// instant at that offset, and the text itself when it does not parse.
pub proof fn law_weekly_reset_text(iso: Seq<char>, offset: i32)
    ensures
        rfc3339_instant(iso) matches Some(t) ==> (instant_text(t.0, t.1, offset, "%a %H:%M"@) matches Some(
            x,
        ) ==> resets_at_label(iso, offset) == x),
        rfc3339_instant(iso) is None ==> resets_at_label(iso, offset) == iso,
{
}

/// The Codex reset pattern is "%b %d, %Y %H:%M" with the date and "%H:%M"
/// without it.
pub proof fn law_codex_reset_patterns()
    ensures
        reset_pattern(true) == "%b %d, %Y %H:%M"@,
        reset_pattern(false) == "%H:%M"@,
{
}

// ---------------------------------------------------------------------------
// Text
// ---------------------------------------------------------------------------

/// Removing leading white space drops a white prefix and stops at the first
/// character that is not white space.
proof fn lemma_trim_start_drops_white_prefix(s: Seq<char>)
    ensures
        exists|k: int|
            0 <= k <= s.len() && trim_start(s) == s.skip(k) && (forall|j: int|
                0 <= j < k ==> is_white(#[trigger] s[j])) && (k < s.len() ==> !is_white(s[k])),
    decreases s.len(),
{
    if s.len() > 0 && is_white(s[0]) {
        lemma_trim_start_drops_white_prefix(s.drop_first());
        let k = choose|k: int|
            0 <= k <= s.drop_first().len() && trim_start(s.drop_first()) == s.drop_first().skip(k)
                && (forall|j: int| 0 <= j < k ==> is_white(#[trigger] s.drop_first()[j])) && (k
                < s.drop_first().len() ==> !is_white(s.drop_first()[k]));
        assert(s.drop_first().skip(k) == s.skip(k + 1));
        assert forall|j: int| 0 <= j < k + 1 implies is_white(#[trigger] s[j]) by {
            if j > 0 {
                assert(s[j] == s.drop_first()[j - 1]);
            }
        }
        if k + 1 < s.len() {
            assert(s[k + 1] == s.drop_first()[k]);
        }
    } else {
        assert(s.skip(0) == s);
    }
}

/// Removing trailing white space keeps a prefix and drops a white suffix that
/// follows a character that is not white space.
proof fn lemma_trim_end_drops_white_suffix(s: Seq<char>)
    ensures
        exists|k: int|
            0 <= k <= s.len() && trim_end(s) == s.take(k) && (forall|j: int|
                k <= j < s.len() ==> is_white(#[trigger] s[j])) && (k > 0 ==> !is_white(s[k - 1])),
    decreases s.len(),
{
    if s.len() > 0 && is_white(s.last()) {
        lemma_trim_end_drops_white_suffix(s.drop_last());
        let k = choose|k: int|
            0 <= k <= s.drop_last().len() && trim_end(s.drop_last()) == s.drop_last().take(k)
                && (forall|j: int| k <= j < s.drop_last().len() ==> is_white(#[trigger] s.drop_last()[j]))
                && (k > 0 ==> !is_white(s.drop_last()[k - 1]));
        assert(s.drop_last().take(k) == s.take(k));
        assert forall|j: int| k <= j < s.len() implies is_white(#[trigger] s[j]) by {
            if j < s.len() - 1 {
                assert(s[j] == s.drop_last()[j]);
            }
        }
        if k > 0 {
            assert(s[k - 1] == s.drop_last()[k - 1]);
        }
    } else {
        assert(s.take(s.len() as int) == s);
    }
}

/// Trimming keeps a contiguous middle part of the text: everything cut off
/// before and after it is white space, and the part kept neither starts nor
/// ends with white space.
pub proof fn law_trim_keeps_the_middle(s: Seq<char>)
    ensures
        exists|a: int, b: int|
            {
                &&& 0 <= a <= b <= s.len()
                &&& trimmed(s) == s.subrange(a, b)
                &&& forall|j: int| 0 <= j < a ==> is_white(#[trigger] s[j])
                &&& forall|j: int| b <= j < s.len() ==> is_white(#[trigger] s[j])
                &&& a < b ==> !is_white(s[a]) && !is_white(s[b - 1])
            },
{
    lemma_trim_start_drops_white_prefix(s);
    let a = choose|k: int|
        0 <= k <= s.len() && trim_start(s) == s.skip(k) && (forall|j: int|
            0 <= j < k ==> is_white(#[trigger] s[j])) && (k < s.len() ==> !is_white(s[k]));
    let x = s.skip(a);
    lemma_trim_end_drops_white_suffix(x);
    let k = choose|k: int|
        0 <= k <= x.len() && trim_end(x) == x.take(k) && (forall|j: int|
            k <= j < x.len() ==> is_white(#[trigger] x[j])) && (k > 0 ==> !is_white(x[k - 1]));
    let b = a + k;
    assert(x.take(k) == s.subrange(a, b));
    assert forall|j: int| b <= j < s.len() implies is_white(#[trigger] s[j]) by {
        assert(s[j] == x[j - a]);
    }
    if a < b {
        assert(s[a] == x[0]);
        assert(s[b - 1] == x[k - 1]);
    }
}

/// The numeric value of a run of decimal digits.
pub open spec fn digits_value(s: Seq<char>) -> int
    decreases s.len(),
{
    if s.len() == 0 {
        0
    } else {
        digits_value(s.drop_last()) * 10 + (s.last() as int - 48)
    }
}

/// A number is written with the digits 0 to 9, without a leading zero (but
/// for zero itself), and reading those digits back gives the number.
pub proof fn law_decimal_reads_back(n: nat)
    ensures
        decimal(n).len() >= 1,
        forall|i: int| 0 <= i < decimal(n).len() ==> '0' <= #[trigger] decimal(n)[i] <= '9',
        n >= 10 ==> decimal(n)[0] != '0',
        digits_value(decimal(n)) == n,
    decreases n,
{
    if n >= 10 {
        law_decimal_reads_back(n / 10);
        let d = decimal(n / 10);
        assert(decimal(n) == d.push(((n % 10 + 48) as u32) as char));
        assert(decimal(n).drop_last() == d);
        assert forall|i: int| 0 <= i < decimal(n).len() implies '0' <= #[trigger] decimal(n)[i]
            <= '9' by {
            if i < d.len() {
                assert(decimal(n)[i] == d[i]);
            }
        }
        assert(decimal(n)[0] == d[0]);
        if n / 10 < 10 {
            assert(d[0] == ((n / 10 + 48) as u32) as char);
        }
        let c = ((n % 10 + 48) as u32) as char;
        assert(decimal(n).last() == c);
        assert(c as int == n % 10 + 48);
        assert(digits_value(decimal(n)) == digits_value(d) * 10 + (c as int - 48));
        assert(digits_value(d) == n / 10);
        assert(n == (n / 10) * 10 + n % 10);
    } else {
        let c = ((n + 48) as u32) as char;
        assert(decimal(n) == seq![c]);
        assert(decimal(n).drop_last() =~= Seq::<char>::empty());
        assert(digits_value(Seq::<char>::empty()) == 0);
        assert(c as int == n + 48);
        assert(digits_value(decimal(n)) == digits_value(decimal(n).drop_last()) * 10 + (c as int
            - 48));
    }
}

/// ASCII lower-casing keeps the length, turns each letter `A`..`Z` into the
/// letter 32 code points later (`a`..`z`) and leaves every other character.
pub proof fn law_lower_ascii_letters(s: Seq<char>)
    ensures
        lower_ascii(s).len() == s.len(),
        forall|i: int|
            0 <= i < s.len() ==> (#[trigger] lower_ascii(s)[i] == if 'A' <= s[i] <= 'Z' {
                ((s[i] as u32) + 32) as char
            } else {
                s[i]
            }),
        forall|i: int| 0 <= i < s.len() ==> !('A' <= #[trigger] lower_ascii(s)[i] <= 'Z'),
{
}

/// Putting an error body on one line keeps its length, replaces each carriage
/// return and line feed by a space, and keeps every other character.
pub proof fn law_one_line_replaces_line_breaks(s: Seq<char>)
    ensures
        one_line(s).len() == s.len(),
        forall|i: int|
            0 <= i < s.len() ==> (#[trigger] one_line(s)[i] == if s[i] == '\r' || s[i] == '\n' {
                ' '
            } else {
                s[i]
            }),
{
}

// ---------------------------------------------------------------------------
// Documents, plan mentions and thumbnails
// ---------------------------------------------------------------------------

/// Only an object has members.
pub proof fn law_only_objects_have_members(value: Option<Json>, key: Seq<char>)
    ensures
        !(value matches Some(Json::Object(_))) ==> member(value, key) is None,
{
}

/// A string mentions a plan when, ASCII lower-cased, it names one of the plan
/// words; `null`, booleans and numbers mention none.
pub proof fn law_scalar_plan_mentions(value: Json, needles: Seq<Seq<char>>, brand: Seq<char>)
    ensures
        value matches Json::String(s) ==> (has_plan(value, needles, brand) <==> exists|i: int|
            0 <= i < needles.len() && text_names_plan(lower_ascii(s@), #[trigger] needles[i], brand)),
        (value is Null || value is Bool || value is Number) ==> !has_plan(value, needles, brand),
{
    if let Json::String(s) = value {
        assert(has_plan(value, needles, brand) == text_has_plan(s@, needles, brand));
    }
}

/// The 64 base64 digits are distinct, and each is an ASCII letter, a decimal
/// digit, `+` or `/`.
pub proof fn law_base64_digits_are_distinct(v: int, w: int)
    requires
        0 <= v < 64,
        0 <= w < 64,
    ensures
        v != w ==> b64_digit(v) != b64_digit(w),
        ({
            let c = b64_digit(v);
            ('A' <= c <= 'Z') || ('a' <= c <= 'z') || ('0' <= c <= '9') || c == '+' || c == '/'
        }),
{
}

} // verus!
