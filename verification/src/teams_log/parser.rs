//! The availability that the meeting client last wrote to its log.

use vstd::prelude::*;
use vstd::string::*;

verus! {

/// The log line that reports an availability, with the availability as the
/// group `status`.
pub const STATUS_PATTERN: &'static str =
    "UserPresenceAction:.*availability: (?<status>[a-zA-Z]*)";

/// The group of the pattern that holds the availability.
pub const STATUS_GROUP: &'static str = "status";

/// The crate's compiled `Regex`.
#[verifier::external_type_specification]
#[verifier::external_body]
pub struct ExRegex(regex::Regex);

/// The regular expression that `Regex::new` compiles a pattern to; `None`
/// where the pattern is not valid.
pub uninterp spec fn compiled(pattern: Seq<char>) -> Option<regex::Regex>;

/// What the named group holds in the first match of a regular expression
/// in a line; `None` where the line has no match or the match has no such
/// group.
pub uninterp spec fn captured(expression: regex::Regex, group: Seq<char>, line: Seq<char>) -> Option<
    Seq<char>,
>;

/// Calls `Regex::new`; an error is `None`.
#[verifier::external_body]
fn compile(pattern: &str) -> (expression: Option<regex::Regex>)
    ensures
        expression == compiled(pattern@),
{
    regex::Regex::new(pattern).ok()
}

/// Calls `Regex::captures` on the line and `Captures::name` on what it
/// finds, and copies the text of the group.
#[verifier::external_body]
fn capture(expression: &regex::Regex, group: &str, line: &str) -> (text: Option<String>)
    ensures
        crate::utils::option_text(text) == captured(*expression, group@, line@),
{
    match expression.captures(line) {
        Some(found) => match found.name(group) {
            Some(part) => Some(part.as_str().to_owned()),
            None => None,
        },
        None => None,
    }
}

/// The regular expression that finds the availability in a log line.
pub fn status_expression() -> (expression: Option<regex::Regex>)
    ensures
        expression == compiled(STATUS_PATTERN@),
{
    compile(STATUS_PATTERN)
}

/// The availability that a log line reports, if it reports one.
pub open spec fn status_of(expression: regex::Regex, line: Seq<char>) -> Option<Seq<char>> {
    captured(expression, STATUS_GROUP@, line)
}

/// The availability that the last of the lines that report one reports.
pub open spec fn last_status(expression: regex::Regex, lines: Seq<String>) -> Option<Seq<char>>
    decreases lines.len(),
{
    if lines.len() == 0 {
        None
    } else {
        match status_of(expression, lines.last()@) {
            Some(status) => Some(status),
            None => last_status(expression, lines.drop_last()),
        }
    }
}

/// Reads the availability from the lines that were added to a log file,
/// and the position up to which the file has then been read: its length. A
/// file that is not there gives no availability and position zero.
pub fn get_last_state(expression: &regex::Regex, lines: Option<&Vec<String>>, length: u64) -> (state: (
    Option<String>,
    u64,
))
    ensures
        match lines {
            Some(added) => crate::utils::option_text(state.0) == last_status(*expression, added@)
                && state.1 == length,
            None => state.0 is None && state.1 == 0,
        },
{
    let added = match lines {
        Some(added) => added,
        None => {
            return (None, 0);
        },
    };
    let mut status: Option<String> = None;
    let mut index: usize = 0;
    proof {
        assert(added@.take(0) =~= Seq::empty());
    }
    while index < added.len()
        invariant
            index <= added.len(),
            crate::utils::option_text(status) == last_status(
                *expression,
                added@.take(index as int),
            ),
        decreases added.len() - index,
    {
        proof {
            let longer = added@.take(index + 1);
            assert(longer.drop_last() =~= added@.take(index as int));
            assert(longer.last() == added@[index as int]);
        }
        match capture(expression, STATUS_GROUP, added[index].as_str()) {
            Some(found) => {
                status = Some(found);
            },
            None => {},
        }
        index = index + 1;
    }
    proof {
        assert(added@.take(added.len() as int) =~= added@);
    }
    (status, length)
}

} // verus!
