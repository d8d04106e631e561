use vstd::prelude::*;
use crate::api::{compacted_body, one_line};
use crate::chat::{plan_label, source_of};
use crate::json::Json;
use crate::media::base64_standard;
use crate::messages::{is_user_message, user_message_count};
use crate::plan::{any_entry_has_plan, any_item_has_plan, has_plan, key_has_plan};
use crate::text::{is_white, trim_end, trim_start, trimmed};
use crate::time::reset_text_at;

verus! {

broadcast use vstd::string::group_string_axioms;

/// The chat plan label is always one of "Max", "Pro", "Team", "Enterprise", "Free".
pub proof fn law_plan_label_is_known(
    account: Json,
    subscription: Option<Json>,
    usage: Json,
    brand: Seq<char>,
)
    ensures
        ({
            let l = plan_label(account, subscription, usage, brand);
            l == "Max"@ || l == "Pro"@ || l == "Team"@ || l == "Enterprise"@ || l == "Free"@
        }),
{
}

/// An array mentions a plan exactly when one of its items does.
pub proof fn law_array_mentions_plan_iff_an_item_does(
    items: Seq<Json>,
    needles: Seq<Seq<char>>,
    brand: Seq<char>,
)
    ensures
        any_item_has_plan(items, needles, brand) <==> exists|i: int|
            0 <= i < items.len() && has_plan(#[trigger] items[i], needles, brand),
    decreases items.len(),
{
    if items.len() > 0 {
        law_array_mentions_plan_iff_an_item_does(items.drop_first(), needles, brand);
        if any_item_has_plan(items, needles, brand) {
            if !has_plan(items[0], needles, brand) {
                let i = choose|i: int|
                    0 <= i < items.drop_first().len() && has_plan(
                        #[trigger] items.drop_first()[i],
                        needles,
                        brand,
                    );
                assert(items[i + 1] == items.drop_first()[i]);
            }
        }
        if exists|i: int| 0 <= i < items.len() && has_plan(#[trigger] items[i], needles, brand) {
            let i = choose|i: int| 0 <= i < items.len() && has_plan(#[trigger] items[i], needles, brand);
            if i > 0 {
                assert(items.drop_first()[i - 1] == items[i]);
            }
        }
    }
}

/// An object mentions a plan exactly when one of its entries does, by its key
/// or by its value.
pub proof fn law_object_mentions_plan_iff_an_entry_does(
    entries: Seq<(String, Json)>,
    needles: Seq<Seq<char>>,
    brand: Seq<char>,
)
    ensures
        any_entry_has_plan(entries, needles, brand) <==> exists|i: int|
            0 <= i < entries.len() && (key_has_plan((#[trigger] entries[i]).0@, needles)
                || has_plan(entries[i].1, needles, brand)),
    decreases entries.len(),
{
    if entries.len() > 0 {
        let rest = entries.drop_first();
        law_object_mentions_plan_iff_an_entry_does(rest, needles, brand);
        if any_entry_has_plan(entries, needles, brand) {
            if !(key_has_plan(entries[0].0@, needles) || has_plan(entries[0].1, needles, brand)) {
                let i = choose|i: int|
                    0 <= i < rest.len() && (key_has_plan((#[trigger] rest[i]).0@, needles)
                        || has_plan(rest[i].1, needles, brand));
                assert(entries[i + 1] == rest[i]);
            }
        }
        if exists|i: int|
            0 <= i < entries.len() && (key_has_plan((#[trigger] entries[i]).0@, needles)
                || has_plan(entries[i].1, needles, brand)) {
            let i = choose|i: int|
                0 <= i < entries.len() && (key_has_plan((#[trigger] entries[i]).0@, needles)
                    || has_plan(entries[i].1, needles, brand));
            if i > 0 {
                assert(rest[i - 1] == entries[i]);
            }
        }
    }
}

/// Counting the user messages of two logs together gives the sum of their counts.
pub proof fn law_user_message_count_adds_up(a: Seq<Seq<char>>, b: Seq<Seq<char>>, today: Seq<char>)
    ensures
        user_message_count(a + b, today) == user_message_count(a, today) + user_message_count(
            b,
            today,
        ),
    decreases b.len(),
{
    if b.len() == 0 {
        assert(a + b == a);
    } else {
        assert((a + b).drop_last() == a + b.drop_last());
        assert((a + b).last() == b.last());
        law_user_message_count_adds_up(a, b.drop_last(), today);
    }
}

/// One more log line adds one to the count when it records a user message of
/// the day, and nothing otherwise.
pub proof fn law_one_more_line_counts_once(lines: Seq<Seq<char>>, line: Seq<char>, today: Seq<char>)
    ensures
        user_message_count(lines.push(line), today) == user_message_count(lines, today) + if is_user_message(
            line,
            today,
        ) {
            1int
        } else {
            0int
        },
{
    assert(lines.push(line).drop_last() == lines);
}

/// At one UTC offset, the dated reset text of an instant ends with a space and
/// the undated reset text, which is "HH:MM".
pub proof fn law_dated_reset_text_ends_with_time_text(
    secs: i64,
    offset: i32,
    dated: Seq<char>,
    time: Seq<char>,
)
    requires
        reset_text_at(secs, offset, true, dated),
        reset_text_at(secs, offset, false, time),
    ensures
        time.len() == 5,
        time[2] == ':',
        dated.len() >= 6,
        dated == dated.take(dated.len() - 6) + " "@ + time,
{
    reveal_strlit(" ");
    reveal_strlit(":");
    let head = dated.take(dated.len() - 6);
    assert(dated == head + " "@ + time);
}

/// Trimming twice is trimming once.
pub proof fn law_trim_is_idempotent(s: Seq<char>)
    ensures
        trimmed(trimmed(s)) == trimmed(s),
{
    let x = trim_start(s);
    lemma_trim_start_front(s);
    lemma_trim_end_prefix(x);
    let t = trim_end(x);
    if t.len() > 0 {
        assert(t[0] == x[0]);
        assert(!is_white(t[0]));
        assert(trim_start(t) == t);
        assert(trim_end(t) == t);
    } else {
        assert(trim_start(t) == t);
    }
}

/// After removing leading white space the text is empty or starts with a
/// character that is not white space.
proof fn lemma_trim_start_front(s: Seq<char>)
    ensures
        trim_start(s).len() == 0 || !is_white(trim_start(s)[0]),
    decreases s.len(),
{
    if s.len() > 0 && is_white(s[0]) {
        lemma_trim_start_front(s.drop_first());
    }
}

/// Removing trailing white space keeps a prefix that is empty or ends with a
/// character that is not white space.
proof fn lemma_trim_end_prefix(s: Seq<char>)
    ensures
        trim_end(s).len() <= s.len(),
        trim_end(s) == s.take(trim_end(s).len() as int),
        trim_end(s).len() == 0 || !is_white(trim_end(s).last()),
    decreases s.len(),
{
    if s.len() > 0 && is_white(s.last()) {
        lemma_trim_end_prefix(s.drop_last());
        let t = trim_end(s.drop_last());
        assert(s.drop_last().take(t.len() as int) == s.take(t.len() as int));
    } else {
        assert(s.take(s.len() as int) == s);
    }
}

/// A compacted error body has at most 223 characters, and a body that is
/// already short and on one line is kept as it is (trimmed).
pub proof fn law_compacted_body_is_short(body: Seq<char>)
    ensures
        compacted_body(body).len() <= 223,
        trimmed(body).len() <= 220 && (forall|i: int|
            0 <= i < trimmed(body).len() ==> #[trigger] trimmed(body)[i] != '\r' && trimmed(body)[i]
                != '\n') ==> compacted_body(body) == trimmed(body),
{
    reveal_strlit("...");
    let t = trimmed(body);
    if t.len() <= 220 && (forall|i: int| 0 <= i < t.len() ==> #[trigger] t[i] != '\r' && t[i] != '\n') {
        assert(one_line(t) =~= t);
    }
}

/// Standard base64 turns every started group of three bytes into four characters.
pub proof fn law_base64_length(b: Seq<u8>)
    ensures
        base64_standard(b).len() == 4 * ((b.len() + 2) / 3),
    decreases b.len(),
{
    if b.len() > 2 {
        law_base64_length(b.skip(3));
    }
}

/// With no session key, or a blank one, the chat widget counts local messages;
/// with a key that is not blank it uses the web API with the trimmed key; the
/// local limit is the configured one, or 500.
pub proof fn law_blank_key_counts_local_messages(key: Option<Seq<char>>, daily_limit: Option<u32>)
    ensures
        source_of(key, daily_limit).0 is None <==> (key is None || trimmed(key->0).len() == 0),
        key is Some && trimmed(key->0).len() > 0 ==> source_of(key, daily_limit).0 == Some(
            trimmed(key->0),
        ),
        source_of(key, daily_limit).1 == match daily_limit {
            Some(l) => l,
            None => 500u32,
        },
{
}

} // verus!
