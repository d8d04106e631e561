use vstd::prelude::*;
use crate::text::{chars_of, contains, contains_str};

verus! {

broadcast use vstd::string::group_string_axioms;

/// A line of a local session log records a user message of the given day: it
/// contains the date stamp and `"type":"user"`, and not `"isSidechain":true`.
pub open spec fn is_user_message(line: Seq<char>, today: Seq<char>) -> bool {
    &&& contains(line, today)
    &&& contains(line, "\"type\":\"user\""@)
    &&& !contains(line, "\"isSidechain\":true"@)
}

/// The number of lines that record a user message of the given day.
pub open spec fn user_message_count(lines: Seq<Seq<char>>, today: Seq<char>) -> nat
    decreases lines.len(),
{
    if lines.len() == 0 {
        0
    } else {
        user_message_count(lines.drop_last(), today) + if is_user_message(lines.last(), today) {
            1nat
        } else {
            0nat
        }
    }
}

/// The views of a list of lines.
pub open spec fn line_views(lines: Seq<String>) -> Seq<Seq<char>> {
    Seq::new(lines.len(), |i: int| lines[i]@)
}

/// A prefix of a log never has more matching lines than the whole log.
pub proof fn lemma_prefix_count_at_most(lines: Seq<Seq<char>>, n: int, today: Seq<char>)
    requires
        0 <= n <= lines.len(),
    ensures
        user_message_count(lines.take(n), today) <= user_message_count(lines, today),
    decreases lines.len(),
{
    if n == lines.len() {
        assert(lines.take(n) == lines);
    } else {
        assert(lines.take(n) == lines.drop_last().take(n));
        lemma_prefix_count_at_most(lines.drop_last(), n, today);
    }
}

/// Whether a log line records a user message of the given day (see `is_user_message`).
pub fn is_user_message_line(line: &str, today: &str) -> (r: bool)
    ensures
        r == is_user_message(line@, today@),
{
    let l = chars_of(line);
    contains_str(&l, today) && contains_str(&l, "\"type\":\"user\"") && !contains_str(
        &l,
        "\"isSidechain\":true",
    )
}

/// Adds to `count` the lines of one log file that record a user message of
/// the given day.
pub fn count_user_messages(count: u32, lines: &Vec<String>, today: &str) -> (r: u32)
    requires
        count + user_message_count(line_views(lines@), today@) <= u32::MAX,
    ensures
        r == count + user_message_count(line_views(lines@), today@),
{
    let mut total = count;
    let mut i: usize = 0;
    while i < lines.len()
        invariant
            i <= lines@.len(),
            count + user_message_count(line_views(lines@), today@) <= u32::MAX,
            total == count + user_message_count(line_views(lines@).take(i as int), today@),
        decreases lines.len() - i,
    {
        let ghost prefix = line_views(lines@).take(i + 1);
        assert(prefix.drop_last() == line_views(lines@).take(i as int));
        assert(prefix.last() == lines@[i as int]@);
        proof {
            lemma_prefix_count_at_most(line_views(lines@), i + 1, today@);
        }
        if is_user_message_line(lines[i].as_str(), today) {
            total = total + 1;
        }
        i = i + 1;
    }
    assert(line_views(lines@).take(lines@.len() as int) == line_views(lines@));
    total
}

} // verus!
