use vstd::prelude::*;
use crate::json::{Json, member, text_of, int_of, float_bits_of, opt, get_member, get_text, get_int, get_float_bits};
use crate::text::{ascii_lower, chars_eq_str, chars_of, lower_ascii, lower_ascii_char, push_range};
use crate::time::{in_chrono_range, local_reset_time_text, reset_text_at};

verus! {

broadcast use vstd::string::group_string_axioms;

/// The Unicode upper-case mapping of a character, as `char::to_uppercase`
/// yields it (one or more characters).
pub uninterp spec fn unicode_upper(c: char) -> Seq<char>;

/// `char::to_uppercase`, collected into a `String`.  Claimed: the result is
/// `unicode_upper(c)`; for an ASCII letter `a`..`z` it is the matching capital,
/// and any other ASCII character maps to itself (std documents that a
/// character without an upper-case mapping yields itself).
#[verifier::external_body]
fn char_to_upper(c: char) -> (r: String)
    ensures
        r@ == unicode_upper(c),
        'a' <= c <= 'z' ==> r@ == seq![((c as u32) - 32) as char],
        (c as u32) < 128 && !('a' <= c <= 'z') ==> r@ == seq![c],
{
    c.to_uppercase().collect()
}

/// The plan types with a name of their own (after ASCII lower-casing).
pub open spec fn known_plan(p: Seq<char>) -> bool {
    ||| p == "free"@
    ||| p == "plus"@
    ||| p == "pro"@
    ||| p == "team"@
    ||| p == "enterprise"@
}

/// The display name of a Codex plan type: the known plans (compared after
/// ASCII lower-casing) get their proper names, an empty type stays empty, and
/// any other type is shown lower-cased with its first character upper-cased.
pub open spec fn plan_name(plan_type: Seq<char>) -> Seq<char> {
    let p = lower_ascii(plan_type);
    if p == "free"@ {
        "Free"@
    } else if p == "plus"@ {
        "Plus"@
    } else if p == "pro"@ {
        "Pro"@
    } else if p == "team"@ {
        "Team"@
    } else if p == "enterprise"@ {
        "Enterprise"@
    } else if p.len() == 0 {
        Seq::empty()
    } else {
        unicode_upper(p[0]) + p.drop_first()
    }
}

/// The capital of a lower-case ASCII letter.
pub open spec fn upper_ascii_char(c: char) -> char {
    ((c as u32) - 32) as char
}

/// A text of ASCII characters only.
pub open spec fn all_ascii(s: Seq<char>) -> bool {
    forall|i: int| 0 <= i < s.len() ==> (#[trigger] s[i] as u32) < 128
}

/// A text that does not start with a lower-case ASCII letter and has no
/// upper-case ASCII letter after its first character.
pub open spec fn capitalized(s: Seq<char>) -> bool {
    &&& s.len() > 0 ==> !('a' <= s[0] <= 'z')
    &&& forall|i: int| 1 <= i < s.len() ==> !('A' <= #[trigger] s[i] <= 'Z')
}

/// The display name of a Codex plan type (see `plan_name`).
pub fn codex_plan_label(plan_type: &str) -> (r: String)
    ensures
        r@ == plan_name(plan_type@),
        // Another type that starts with an ASCII letter gets the capital of
        // that letter before the rest of the lower-cased type.
        ({
            let p = lower_ascii(plan_type@);
            !known_plan(p) && p.len() > 0 && 'a' <= p[0] <= 'z' ==> r@ == seq![
                upper_ascii_char(p[0]),
            ] + p.drop_first()
        }),
        // Another type that starts with any other ASCII character is shown
        // lower-cased.
        ({
            let p = lower_ascii(plan_type@);
            !known_plan(p) && p.len() > 0 && (p[0] as u32) < 128 && !('a' <= p[0] <= 'z') ==> r@
                == p
        }),
        // An ASCII type keeps its letters up to case, and its label starts
        // with a capital and goes on in lower case.
        all_ascii(plan_type@) ==> lower_ascii(r@) == lower_ascii(plan_type@) && capitalized(r@),
        // A label whose first character is ASCII is its own label.
        lower_ascii(plan_type@).len() == 0 || (lower_ascii(plan_type@)[0] as u32) < 128
            ==> plan_name(r@) == r@,
{
    let p = ascii_lower(&chars_of(plan_type));
    proof {
        lemma_lower_ascii_idempotent(plan_type@);
        lemma_known_labels();
    }
    if chars_eq_str(&p, "free") {
        String::from_str("Free")
    } else if chars_eq_str(&p, "plus") {
        String::from_str("Plus")
    } else if chars_eq_str(&p, "pro") {
        String::from_str("Pro")
    } else if chars_eq_str(&p, "team") {
        String::from_str("Team")
    } else if chars_eq_str(&p, "enterprise") {
        String::from_str("Enterprise")
    } else if p.len() == 0 {
        String::new()
    } else {
        let mut out = char_to_upper(p[0]);
        push_range(&mut out, &p, 1, p.len());
        assert(p@.subrange(1, p@.len() as int) == p@.drop_first());
        proof {
            assert(!known_plan(p@));
            if (p@[0] as u32) < 128 {
                let u = out@;
                assert(u.len() == p@.len());
                assert(lower_ascii_char(u[0]) == p@[0]);
                assert forall|i: int| 0 <= i < u.len() implies lower_ascii(u)[i] == p@[i] by {
                    if i > 0 {
                        assert(u[i] == p@[i]);
                        assert(p@[i] == lower_ascii(plan_type@)[i]);
                        assert(lower_ascii(p@)[i] == p@[i]);
                    }
                }
                assert(lower_ascii(u) =~= p@);
                assert forall|i: int| 1 <= i < u.len() implies !('A' <= #[trigger] u[i] <= 'Z') by {
                    assert(u[i] == p@[i]);
                    assert(p@[i] == lower_ascii_char(plan_type@[i]));
                }
                if 'a' <= p@[0] <= 'z' {
                    assert(u =~= seq![upper_ascii_char(p@[0])] + p@.drop_first());
                } else {
                    assert(u =~= p@);
                }
            }
        }
        out
    }
}

/// ASCII lower-casing changes nothing the second time.
proof fn lemma_lower_ascii_idempotent(s: Seq<char>)
    ensures
        lower_ascii(lower_ascii(s)) == lower_ascii(s),
{
    assert(lower_ascii(lower_ascii(s)) =~= lower_ascii(s));
}

/// A fixed label: it lower-cases to its plan type, is capitalized, and is its
/// own label.
spec fn fixed_label(lower: Seq<char>, label: Seq<char>) -> bool {
    &&& lower_ascii(label) == lower
    &&& capitalized(label)
    &&& plan_name(label) == label
}

/// The names of the known plans, and the empty label, are fixed labels.
proof fn lemma_known_labels()
    ensures
        fixed_label("free"@, "Free"@),
        fixed_label("plus"@, "Plus"@),
        fixed_label("pro"@, "Pro"@),
        fixed_label("team"@, "Team"@),
        fixed_label("enterprise"@, "Enterprise"@),
        fixed_label(Seq::empty(), Seq::empty()),
{
    reveal_strlit("free");
    reveal_strlit("plus");
    reveal_strlit("pro");
    reveal_strlit("team");
    reveal_strlit("enterprise");
    reveal_strlit("Free");
    reveal_strlit("Plus");
    reveal_strlit("Pro");
    reveal_strlit("Team");
    reveal_strlit("Enterprise");
    assert(lower_ascii(Seq::empty()) =~= Seq::<char>::empty());
    assert(lower_ascii("Free"@) =~= "free"@);
    assert(lower_ascii("Plus"@) =~= "plus"@);
    assert(lower_ascii("Pro"@) =~= "pro"@);
    assert(lower_ascii("Team"@) =~= "team"@);
    assert(lower_ascii("Enterprise"@) =~= "enterprise"@);
    assert("plus"@[0] != "free"@[0]);
    assert("team"@[0] != "free"@[0]);
    assert("team"@[0] != "plus"@[0]);
}

/// The message when the Codex sign-in has no access token.
pub open spec fn missing_token_message() -> Seq<char> {
    "Codex access token not found; sign in with Codex CLI again"@
}

/// The Codex credentials in the CLI's auth document: the access token
/// (`tokens.access_token`, required) and the account id (`tokens.account_id`,
/// else `account_id`, else empty).
pub open spec fn codex_auth(auth: Json) -> Result<(Seq<char>, Seq<char>), Seq<char>> {
    let tokens = member(Some(auth), "tokens"@);
    match text_of(member(tokens, "access_token"@)) {
        Some(token) => {
            let account = if text_of(member(tokens, "account_id"@)) is Some {
                text_of(member(tokens, "account_id"@))->0
            } else if text_of(member(Some(auth), "account_id"@)) is Some {
                text_of(member(Some(auth), "account_id"@))->0
            } else {
                Seq::empty()
            };
            Ok((token, account))
        },
        None => Err(missing_token_message()),
    }
}

/// The view of a credentials result.
pub open spec fn credentials_view(r: Result<(String, String), String>) -> Result<(Seq<char>, Seq<char>), Seq<char>> {
    match r {
        Ok(p) => Ok((p.0@, p.1@)),
        Err(e) => Err(e@),
    }
}

/// The access token and account id from the Codex CLI auth document (see `codex_auth`).
pub fn codex_credentials(auth: &Json) -> (r: Result<(String, String), String>)
    ensures
        credentials_view(r) == codex_auth(*auth),
{
    let tokens = get_member(Some(auth), "tokens");
    let token = match get_text(get_member(tokens, "access_token")) {
        Some(t) => t,
        None => {
            return Err(String::from_str("Codex access token not found; sign in with Codex CLI again"));
        },
    };
    let account = match get_text(get_member(tokens, "account_id")) {
        Some(a) => a,
        None => match get_text(get_member(Some(auth), "account_id")) {
            Some(a) => a,
            None => String::new(),
        },
    };
    Ok((token, account))
}

/// The headers of the Codex usage request: bearer authorization, the CLI's
/// user agent, JSON accept, and the account id when there is one.
pub open spec fn codex_headers(token: Seq<char>, account: Seq<char>) -> Seq<(Seq<char>, Seq<char>)> {
    let base = seq![
        ("Authorization"@, "Bearer "@ + token),
        ("User-Agent"@, "codex-cli"@),
        ("Accept"@, "application/json"@),
    ];
    if account.len() == 0 {
        base
    } else {
        base.push(("ChatGPT-Account-Id"@, account))
    }
}

/// The view of a header list.
pub open spec fn headers_view(h: Seq<(String, String)>) -> Seq<(Seq<char>, Seq<char>)> {
    Seq::new(h.len(), |i: int| (h[i].0@, h[i].1@))
}

/// The headers of the Codex usage request (see `codex_headers`).
pub fn codex_request_headers(token: &str, account: &str) -> (r: Vec<(String, String)>)
    ensures
        headers_view(r@) == codex_headers(token@, account@),
{
    let mut auth = String::from_str("Bearer ");
    auth.append(token);
    let mut r: Vec<(String, String)> = Vec::new();
    r.push((String::from_str("Authorization"), auth));
    r.push((String::from_str("User-Agent"), String::from_str("codex-cli")));
    r.push((String::from_str("Accept"), String::from_str("application/json")));
    if !account.is_empty() {
        r.push((String::from_str("ChatGPT-Account-Id"), String::from_str(account)));
    }
    assert(headers_view(r@) == codex_headers(token@, account@));
    r
}

/// The `f64` bits of a rate-limit window's `used_percent`.
pub fn codex_used_percent(window: Option<&Json>) -> (r: Option<u64>)
    ensures
        r == float_bits_of(member(opt(window), "used_percent"@)),
{
    get_float_bits(get_member(window, "used_percent"))
}

/// The reset text of a rate-limit window in local time: its `reset_at` Unix
/// timestamp formatted as "%H:%M", or "%b %d, %Y %H:%M" with the date (see
/// `reset_text_at`); `None` exactly when there is no integer `reset_at` or
/// chrono cannot represent it.
pub fn codex_reset_at(window: Option<&Json>, include_date: bool) -> (r: Option<String>)
    ensures
        r is Some <==> (int_of(member(opt(window), "reset_at"@)) matches Some(t) && in_chrono_range(
            t as int,
        )),
        r matches Some(s) ==> exists|offset: i32|
            -86_400 < offset < 86_400 && reset_text_at(
                int_of(member(opt(window), "reset_at"@))->0,
                offset,
                include_date,
                s@,
            ),
{
    match get_int(get_member(window, "reset_at")) {
        Some(secs) => local_reset_time_text(secs, include_date),
        None => None,
    }
}

/// A rate-limit window of the usage report: `rate_limit.<which>`.
pub fn codex_window<'a>(usage: &'a Json, which: &str) -> (r: Option<&'a Json>)
    ensures
        match r {
            Some(w) => member(member(Some(*usage), "rate_limit"@), which@) == Some(*w),
            None => member(member(Some(*usage), "rate_limit"@), which@) is None,
        },
{
    get_member(get_member(Some(usage), "rate_limit"), which)
}

/// The display name of the usage report's plan: `plan_type` (empty when it
/// is not a string) through `plan_name`.
pub fn codex_plan(usage: &Json) -> (r: String)
    ensures
        r@ == plan_name(
            match text_of(member(Some(*usage), "plan_type"@)) {
                Some(t) => t,
                None => Seq::empty(),
            },
        ),
{
    match get_text(get_member(Some(usage), "plan_type")) {
        Some(t) => codex_plan_label(t.as_str()),
        None => {
            proof {
                reveal_strlit("");
                assert(""@ =~= Seq::<char>::empty());
            }
            codex_plan_label("")
        },
    }
}

} // verus!
