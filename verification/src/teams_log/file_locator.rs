//! Which log file of the meeting client is the latest.

use vstd::prelude::*;
use vstd::string::*;
use crate::utils::starts_with;

verus! {

/// How the name of a log file of the meeting client begins.
pub const TEAMS_PREFIX: &'static str = "MSTeams_";

/// How it ends.
pub const TEAMS_SUFFIX: &'static str = ".log";

/// Whether a file name is that of a log file of the meeting client.
pub open spec fn is_teams_log(name: Seq<char>) -> bool {
    TEAMS_PREFIX@.is_prefix_of(name) && TEAMS_SUFFIX@.is_suffix_of(name)
}

/// Whether a text comes before another in the order of the dictionary,
/// character by character. The names of the log files carry their date and
/// time, so that a later file comes after an earlier one.
pub open spec fn precedes(first: Seq<char>, second: Seq<char>) -> bool
    decreases first.len(),
{
    if second.len() == 0 {
        false
    } else if first.len() == 0 {
        true
    } else if first[0] != second[0] {
        (first[0] as u32) < (second[0] as u32)
    } else {
        precedes(first.skip(1), second.skip(1))
    }
}

/// The order of the dictionary is transitive.
pub proof fn precedes_is_transitive(first: Seq<char>, second: Seq<char>, third: Seq<char>)
    requires
        precedes(first, second),
        precedes(second, third),
    ensures
        precedes(first, third),
    decreases first.len(),
{
    if first.len() > 0 && first[0] == second[0] && second[0] == third[0] {
        precedes_is_transitive(first.skip(1), second.skip(1), third.skip(1));
    }
}

/// No text comes before itself, and of two texts not both come before the
/// other.
pub proof fn precedes_is_strict(first: Seq<char>, second: Seq<char>)
    ensures
        !(precedes(first, second) && precedes(second, first)),
        !precedes(first, first),
    decreases first.len(),
{
    if first.len() > 0 {
        precedes_is_strict(first.skip(1), first.skip(1));
        if second.len() > 0 {
            precedes_is_strict(first.skip(1), second.skip(1));
        }
    }
}

/// Whether a text ends with a suffix.
pub fn ends_with(text: &str, suffix: &str) -> (found: bool)
    ensures
        found == suffix@.is_suffix_of(text@),
{
    let length = suffix.unicode_len();
    let total = text.unicode_len();
    if total < length {
        return false;
    }
    let offset = total - length;
    let mut index: usize = 0;
    while index < length
        invariant
            index <= length,
            length == suffix@.len(),
            total == text@.len(),
            offset == total - length,
            forall|position: int|
                0 <= position < index ==> text@[offset + position] == suffix@[position],
        decreases length - index,
    {
        if text.get_char(offset + index) != suffix.get_char(index) {
            proof {
                if suffix@.is_suffix_of(text@) {
                    assert(text@.subrange(offset as int, total as int)[index as int]
                        == suffix@[index as int]);
                }
            }
            return false;
        }
        index = index + 1;
    }
    proof {
        assert(text@.subrange(offset as int, total as int) =~= suffix@);
    }
    true
}

/// Whether a text comes before another in the order of the dictionary.
pub fn comes_before(first: &str, second: &str) -> (before: bool)
    ensures
        before == precedes(first@, second@),
{
    let first_length = first.unicode_len();
    let second_length = second.unicode_len();
    let mut index: usize = 0;
    proof {
        assert(first@.skip(0) =~= first@);
        assert(second@.skip(0) =~= second@);
    }
    loop
        invariant
            index <= first_length,
            index <= second_length,
            first_length == first@.len(),
            second_length == second@.len(),
            precedes(first@, second@) == precedes(
                first@.skip(index as int),
                second@.skip(index as int),
            ),
        decreases first_length - index,
    {
        if index >= second_length {
            return false;
        }
        if index >= first_length {
            return true;
        }
        let left = first.get_char(index);
        let right = second.get_char(index);
        proof {
            assert(first@.skip(index as int).skip(1) =~= first@.skip(index + 1));
            assert(second@.skip(index as int).skip(1) =~= second@.skip(index + 1));
        }
        if left != right {
            return (left as u32) < (right as u32);
        }
        index = index + 1;
    }
}

/// Whether a file name is that of a log file of the meeting client.
pub fn names_teams_log(name: &str) -> (found: bool)
    ensures
        found == is_teams_log(name@),
{
    starts_with(name, TEAMS_PREFIX) && ends_with(name, TEAMS_SUFFIX)
}

/// Whether `latest` is the latest log file among `names`: it is one of
/// them, a log file of the meeting client, and none of their log files
/// comes after it.
pub open spec fn is_latest(names: Seq<String>, latest: Seq<char>) -> bool {
    &&& is_teams_log(latest)
    &&& exists|index: int| 0 <= index < names.len() && (#[trigger] names[index])@ == latest
    &&& forall|index: int|
        0 <= index < names.len() && is_teams_log((#[trigger] names[index])@) ==> !precedes(
            latest,
            names[index]@,
        )
}

/// Finds the latest log file of the meeting client among the names of the
/// files of a directory; `None` where the directory holds none.
pub fn locate_latest_log(names: &Vec<String>) -> (latest: Option<String>)
    ensures
        match latest {
            Some(name) => is_latest(names@, name@),
            None => forall|index: int|
                0 <= index < names.len() ==> !is_teams_log((#[trigger] names[index])@),
        },
{
    let mut best: Option<usize> = None;
    let mut index: usize = 0;
    while index < names.len()
        invariant
            index <= names.len(),
            match best {
                Some(chosen) => chosen < index && is_teams_log(names[chosen as int]@)
                    && forall|earlier: int|
                    0 <= earlier < index && is_teams_log((#[trigger] names[earlier])@)
                        ==> !precedes(names[chosen as int]@, names[earlier]@),
                None => forall|earlier: int|
                    0 <= earlier < index ==> !is_teams_log((#[trigger] names[earlier])@),
            },
        decreases names.len() - index,
    {
        if names_teams_log(names[index].as_str()) {
            match best {
                Some(chosen) => {
                    if comes_before(names[chosen].as_str(), names[index].as_str()) {
                        proof {
                            let newer = names[index as int]@;
                            let older = names[chosen as int]@;
                            precedes_is_strict(newer, newer);
                            assert forall|earlier: int|
                                0 <= earlier < index && is_teams_log(
                                    (#[trigger] names[earlier])@,
                                ) implies !precedes(newer, names[earlier]@) by {
                                if precedes(newer, names[earlier]@) {
                                    precedes_is_transitive(older, newer, names[earlier]@);
                                }
                            }
                        }
                        best = Some(index);
                    }
                },
                None => {
                    proof {
                        precedes_is_strict(names[index as int]@, names[index as int]@);
                    }
                    best = Some(index);
                },
            }
        }
        index = index + 1;
    }
    match best {
        Some(chosen) => Some(names[chosen].clone()),
        None => None,
    }
}

} // verus!
