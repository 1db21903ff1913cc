//! The settings file as the `ini` crate holds it, and the decimal numbers
//! in it.
//!
//! Reading and writing the file is the caller's part. This module reads the
//! entries out of a loaded file and puts values into one; the file itself
//! is the crate's `Ini`, into which nothing here looks.

use vstd::prelude::*;

verus! {

/// The crate's `Ini`: a settings file in memory.
#[verifier::external_type_specification]
#[verifier::external_body]
pub struct ExIni(ini::Ini);

/// A section, `None` for the general one, a key and a value.
pub type Entry = (Option<Seq<char>>, Seq<char>, Seq<char>);

/// The entries of a file as its iterators yield them: section after
/// section, and within each its properties in their order.
pub uninterp spec fn entries(file: ini::Ini) -> Seq<Entry>;

/// The value that a file gives a key of a section: what `Ini::get_from`
/// finds, for each section and key for which it finds something.
pub uninterp spec fn values(file: ini::Ini) -> Map<(Option<Seq<char>>, Seq<char>), Seq<char>>;

/// The number that `str::parse` reads from a text, if it reads one that
/// fits into 32 bits.
pub uninterp spec fn number(text: Seq<char>) -> Option<u32>;

/// The number that `str::parse` reads from a text, if it reads one that
/// fits into 16 bits.
pub uninterp spec fn short_number(text: Seq<char>) -> Option<u16>;

/// The decimal text that `to_string` writes for a number.
pub uninterp spec fn decimal(value: u32) -> Seq<char>;

/// No value at all.
pub open spec fn no_values() -> Map<(Option<Seq<char>>, Seq<char>), Seq<char>> {
    Map::empty()
}

/// The entries of a list of triples of strings.
pub open spec fn entries_view(list: Seq<(Option<String>, String, String)>) -> Seq<Entry> {
    list.map_values(
        |entry: (Option<String>, String, String)|
            (crate::utils::option_text(entry.0), entry.1@, entry.2@),
    )
}

/// Calls `Ini::new`: a file that gives no key a value.
#[verifier::external_body]
pub(crate) fn new_file() -> (file: ini::Ini)
    ensures
        values(file) == no_values(),
{
    ini::Ini::new()
}

/// Calls `SectionSetter::set` on the named section, as
/// `with_section(..).set(..)` does: the key gets the value, in place of any
/// it had.
#[verifier::external_body]
pub(crate) fn set_value(file: &mut ini::Ini, section: &str, key: &str, value: &str)
    ensures
        values(*final(file)) == values(*old(file)).insert((Some(section@), key@), value@),
{
    file.with_section(Some(section)).set(key, value);
}

/// Walks `Ini::iter` and, for each section, `Properties::iter`, and copies
/// what they yield.
#[verifier::external_body]
pub(crate) fn read_entries(file: &ini::Ini) -> (list: Vec<(Option<String>, String, String)>)
    ensures
        entries_view(list@) == entries(*file),
{
    let mut list = Vec::new();
    for (section, properties) in file.iter() {
        for (key, value) in properties.iter() {
            list.push((section.map(String::from), key.to_string(), value.to_string()));
        }
    }
    list
}

/// Calls `str::parse` for a 32-bit number; an error is `None`.
#[verifier::external_body]
pub(crate) fn parse_number(text: &str) -> (parsed: Option<u32>)
    ensures
        parsed == number(text@),
{
    text.parse::<u32>().ok()
}

/// Calls `str::parse` for a 16-bit number; an error is `None`.
#[verifier::external_body]
pub(crate) fn parse_short_number(text: &str) -> (parsed: Option<u16>)
    ensures
        parsed == short_number(text@),
{
    text.parse::<u16>().ok()
}

/// Calls `to_string` on a 32-bit number.
#[verifier::external_body]
pub(crate) fn write_number(value: u32) -> (text: String)
    ensures
        text@ == decimal(value),
{
    value.to_string()
}

} // verus!
