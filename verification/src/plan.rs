use vstd::prelude::*;
use crate::json::Json;
use crate::text::{
    ascii_lower, chars_eq, chars_of, contains, contains_chars, contains_str, join_chars, lower_ascii,
};

verus! {

broadcast use vstd::string::group_string_axioms;

/// The views of the needle strings.
pub open spec fn needle_views(needles: Seq<&str>) -> Seq<Seq<char>> {
    Seq::new(needles.len(), |i: int| needles[i]@)
}

/// A lower-cased text names the plan `needle`: it is the needle, the needle
/// followed by `_plan`, or it contains "`needle` plan" or the product word
/// `brand` followed by a space and the needle.
pub open spec fn text_names_plan(n: Seq<char>, needle: Seq<char>, brand: Seq<char>) -> bool {
    ||| n == needle
    ||| n == needle + "_plan"@
    ||| contains(n, needle + " plan"@)
    ||| contains(n, brand + " "@ + needle)
}

/// A JSON string value names one of the plans.
pub open spec fn text_has_plan(s: Seq<char>, needles: Seq<Seq<char>>, brand: Seq<char>) -> bool {
    exists|i: int|
        0 <= i < needles.len() && text_names_plan(lower_ascii(s), #[trigger] needles[i], brand)
}

/// An object key looks like a plan/tier/subscription/flag key.
pub open spec fn plan_like_key(k: Seq<char>) -> bool {
    ||| contains(k, "plan"@)
    ||| contains(k, "tier"@)
    ||| contains(k, "subscription"@)
    ||| contains(k, "flag"@)
}

/// An object key names one of the plans: it is plan-like and (lower-cased)
/// contains one of the needles.
pub open spec fn key_has_plan(key: Seq<char>, needles: Seq<Seq<char>>) -> bool {
    let k = lower_ascii(key);
    plan_like_key(k) && exists|i: int| 0 <= i < needles.len() && contains(k, #[trigger] needles[i])
}

/// Whether a JSON value mentions one of the plans anywhere: in a string value,
/// in any array item, or in any object entry (by its key or, recursively, its value).
pub open spec fn has_plan(value: Json, needles: Seq<Seq<char>>, brand: Seq<char>) -> bool
    decreases value, 1int,
{
    match value {
        Json::String(s) => text_has_plan(s@, needles, brand),
        Json::Array(items) => any_item_has_plan(items@, needles, brand),
        Json::Object(entries) => any_entry_has_plan(entries@, needles, brand),
        _ => false,
    }
}

/// Some item of the array mentions one of the plans.
pub open spec fn any_item_has_plan(items: Seq<Json>, needles: Seq<Seq<char>>, brand: Seq<char>) -> bool
    decreases items, 0int,
{
    if items.len() == 0 {
        false
    } else {
        has_plan(items[0], needles, brand) || any_item_has_plan(items.drop_first(), needles, brand)
    }
}

/// Some entry of the object mentions one of the plans.
pub open spec fn any_entry_has_plan(
    entries: Seq<(String, Json)>,
    needles: Seq<Seq<char>>,
    brand: Seq<char>,
) -> bool
    decreases entries, 0int,
{
    if entries.len() == 0 {
        false
    } else {
        (key_has_plan(entries[0].0@, needles) || has_plan(entries[0].1, needles, brand))
            || any_entry_has_plan(entries.drop_first(), needles, brand)
    }
}

} // verus!

verus! {

/// Whether the lower-cased text `n` names the plan `needle`.
fn names_plan(n: &Vec<char>, needle: &str, brand: &str) -> (r: bool)
    ensures
        r == text_names_plan(n@, needle@, brand@),
{
    let nd = chars_of(needle);
    if chars_eq(n, &nd) {
        return true;
    }
    let with_plan = join_chars(&nd, &chars_of("_plan"));
    if chars_eq(n, &with_plan) {
        return true;
    }
    let spaced = join_chars(&nd, &chars_of(" plan"));
    if contains_chars(n, &spaced) {
        return true;
    }
    let branded = join_chars(&join_chars(&chars_of(brand), &chars_of(" ")), &nd);
    contains_chars(n, &branded)
}

/// Whether a string value names one of the plans.
fn text_mentions_plan(s: &String, needles: &[&str], brand: &str) -> (r: bool)
    ensures
        r == text_has_plan(s@, needle_views(needles@), brand@),
{
    let n = ascii_lower(&chars_of(s.as_str()));
    let ghost nv = needle_views(needles@);
    let mut i: usize = 0;
    while i < needles.len()
        invariant
            i <= needles@.len(),
            nv == needle_views(needles@),
            n@ == lower_ascii(s@),
            forall|j: int| 0 <= j < i ==> !text_names_plan(n@, #[trigger] nv[j], brand@),
        decreases needles.len() - i,
    {
        if names_plan(&n, needles[i], brand) {
            assert(text_names_plan(lower_ascii(s@), nv[i as int], brand@));
            return true;
        }
        i = i + 1;
    }
    false
}

/// Whether an object key names one of the plans.
fn key_mentions_plan(key: &String, needles: &[&str]) -> (r: bool)
    ensures
        r == key_has_plan(key@, needle_views(needles@)),
{
    let k = ascii_lower(&chars_of(key.as_str()));
    let like = contains_str(&k, "plan") || contains_str(&k, "tier") || contains_str(
        &k,
        "subscription",
    ) || contains_str(&k, "flag");
    if !like {
        return false;
    }
    let ghost nv = needle_views(needles@);
    let mut i: usize = 0;
    while i < needles.len()
        invariant
            i <= needles@.len(),
            nv == needle_views(needles@),
            k@ == lower_ascii(key@),
            plan_like_key(k@),
            forall|j: int| 0 <= j < i ==> !contains(k@, #[trigger] nv[j]),
        decreases needles.len() - i,
    {
        if contains_str(&k, needles[i]) {
            assert(contains(k@, nv[i as int]));
            return true;
        }
        i = i + 1;
    }
    false
}

/// Whether a JSON value mentions one of the plans anywhere: in a string value
/// (lower-cased, equal to a needle or to `needle_plan`, or containing
/// "`needle` plan" or "`brand` `needle`"), in an array item, or in an object
/// entry whose lower-cased key mentions plan/tier/subscription/flag together
/// with a needle, or whose value mentions one.
pub fn json_has_plan(value: &Json, needles: &[&str], brand: &str) -> (r: bool)
    ensures
        r == has_plan(*value, needle_views(needles@), brand@),
    decreases *value,
{
    match value {
        Json::String(s) => text_mentions_plan(s, needles, brand),
        Json::Array(items) => {
            let mut i: usize = 0;
            assert(items@.skip(0) == items@);
            while i < items.len()
                invariant
                    i <= items@.len(),
                    *value == Json::Array(*items),
                    any_item_has_plan(items@, needle_views(needles@), brand@) == any_item_has_plan(
                        items@.skip(i as int),
                        needle_views(needles@),
                        brand@,
                    ),
                decreases items.len() - i,
            {
                let ghost rest = items@.skip(i as int);
                assert(rest.drop_first() == items@.skip(i + 1));
                assert(rest[0] == items@[i as int]);
                assert(decreases_to!(*value => (*value)->Array_0));
                assert(decreases_to!(*items => items@));
                assert(decreases_to!(items@ => items@[i as int]));
                if json_has_plan(&items[i], needles, brand) {
                    return true;
                }
                i = i + 1;
            }
            false
        },
        Json::Object(entries) => {
            let mut i: usize = 0;
            assert(entries@.skip(0) == entries@);
            while i < entries.len()
                invariant
                    i <= entries@.len(),
                    *value == Json::Object(*entries),
                    any_entry_has_plan(entries@, needle_views(needles@), brand@) == any_entry_has_plan(
                        entries@.skip(i as int),
                        needle_views(needles@),
                        brand@,
                    ),
                decreases entries.len() - i,
            {
                let ghost rest = entries@.skip(i as int);
                assert(rest.drop_first() == entries@.skip(i + 1));
                assert(rest[0] == entries@[i as int]);
                assert(decreases_to!(*value => (*value)->Object_0));
                assert(decreases_to!(*entries => entries@));
                assert(decreases_to!(entries@ => entries@[i as int]));
                assert(decreases_to!(entries@[i as int] => entries@[i as int].1));
                if key_mentions_plan(&entries[i].0, needles) || json_has_plan(
                    &entries[i].1,
                    needles,
                    brand,
                ) {
                    return true;
                }
                i = i + 1;
            }
            false
        },
        _ => false,
    }
}

} // verus!
