//! The closed set of color names a board document may use, matched
//! case-insensitively; unknown names leave an attribute at its default.

use vstd::prelude::*;
use crate::doc::DocValue;
use crate::strutil::{eq_ignore_ascii_case, str_eq_ignore_ascii_case};

verus! {

/// A terminal color a board or part can name.
#[derive(Clone, Copy, PartialEq, Eq, Structural, Debug)]
pub enum Color {
    Reset,
    Black,
    Red,
    Green,
    Yellow,
    Blue,
    Magenta,
    Cyan,
    Gray,
    DarkGray,
    LightRed,
    LightGreen,
    LightYellow,
    LightBlue,
    LightMagenta,
    LightCyan,
    White,
}

/// The color that the name `s` denotes, up to ASCII case, if any.
pub open spec fn spec_color_of(s: Seq<char>) -> Option<Color> {
    if eq_ignore_ascii_case(s, "reset"@) {
        Some(Color::Reset)
    } else if eq_ignore_ascii_case(s, "black"@) {
        Some(Color::Black)
    } else if eq_ignore_ascii_case(s, "red"@) {
        Some(Color::Red)
    } else if eq_ignore_ascii_case(s, "green"@) {
        Some(Color::Green)
    } else if eq_ignore_ascii_case(s, "yellow"@) {
        Some(Color::Yellow)
    } else if eq_ignore_ascii_case(s, "blue"@) {
        Some(Color::Blue)
    } else if eq_ignore_ascii_case(s, "magenta"@) {
        Some(Color::Magenta)
    } else if eq_ignore_ascii_case(s, "cyan"@) {
        Some(Color::Cyan)
    } else if eq_ignore_ascii_case(s, "gray"@) {
        Some(Color::Gray)
    } else if eq_ignore_ascii_case(s, "darkgray"@) {
        Some(Color::DarkGray)
    } else if eq_ignore_ascii_case(s, "lightred"@) {
        Some(Color::LightRed)
    } else if eq_ignore_ascii_case(s, "lightgreen"@) {
        Some(Color::LightGreen)
    } else if eq_ignore_ascii_case(s, "lightyellow"@) {
        Some(Color::LightYellow)
    } else if eq_ignore_ascii_case(s, "lightblue"@) {
        Some(Color::LightBlue)
    } else if eq_ignore_ascii_case(s, "lightmagenta"@) {
        Some(Color::LightMagenta)
    } else if eq_ignore_ascii_case(s, "lightcyan"@) {
        Some(Color::LightCyan)
    } else if eq_ignore_ascii_case(s, "white"@) {
        Some(Color::White)
    } else {
        None
    }
}

/// Resolve a color name, case-insensitively.
pub fn color_from_name(s: &str) -> (r: Option<Color>)
    ensures
        r == spec_color_of(s@),
{
    if str_eq_ignore_ascii_case(s, "reset") {
        Some(Color::Reset)
    } else if str_eq_ignore_ascii_case(s, "black") {
        Some(Color::Black)
    } else if str_eq_ignore_ascii_case(s, "red") {
        Some(Color::Red)
    } else if str_eq_ignore_ascii_case(s, "green") {
        Some(Color::Green)
    } else if str_eq_ignore_ascii_case(s, "yellow") {
        Some(Color::Yellow)
    } else if str_eq_ignore_ascii_case(s, "blue") {
        Some(Color::Blue)
    } else if str_eq_ignore_ascii_case(s, "magenta") {
        Some(Color::Magenta)
    } else if str_eq_ignore_ascii_case(s, "cyan") {
        Some(Color::Cyan)
    } else if str_eq_ignore_ascii_case(s, "gray") {
        Some(Color::Gray)
    } else if str_eq_ignore_ascii_case(s, "darkgray") {
        Some(Color::DarkGray)
    } else if str_eq_ignore_ascii_case(s, "lightred") {
        Some(Color::LightRed)
    } else if str_eq_ignore_ascii_case(s, "lightgreen") {
        Some(Color::LightGreen)
    } else if str_eq_ignore_ascii_case(s, "lightyellow") {
        Some(Color::LightYellow)
    } else if str_eq_ignore_ascii_case(s, "lightblue") {
        Some(Color::LightBlue)
    } else if str_eq_ignore_ascii_case(s, "lightmagenta") {
        Some(Color::LightMagenta)
    } else if str_eq_ignore_ascii_case(s, "lightcyan") {
        Some(Color::LightCyan)
    } else if str_eq_ignore_ascii_case(s, "white") {
        Some(Color::White)
    } else {
        None
    }
}

/// The last entry of `entries` under `key` whose value is a string
/// naming a color, if any: an unknown name leaves the attribute as it
/// was.
pub open spec fn lookup_color(entries: Seq<(String, DocValue)>, key: Seq<char>) -> Option<Color>
    decreases entries.len(),
{
    if entries.len() == 0 {
        None
    } else if entries.last().0@ == key && entries.last().1 is Str && spec_color_of(
        entries.last().1->Str_0@,
    ) is Some {
        spec_color_of(entries.last().1->Str_0@)
    } else {
        lookup_color(entries.drop_last(), key)
    }
}

/// Find the last usable color value under `key`.
pub fn get_color(entries: &Vec<(String, DocValue)>, key: &str) -> (r: Option<Color>)
    ensures
        r == lookup_color(entries@, key@),
{
    let mut i: usize = entries.len();
    proof {
        assert(entries@.take(i as int) =~= entries@);
    }
    while i > 0
        invariant
            i <= entries@.len(),
            lookup_color(entries@, key@) == lookup_color(entries@.take(i as int), key@),
        decreases i,
    {
        i = i - 1;
        proof {
            assert(entries@.take(i as int + 1).last() == entries@[i as int]);
            assert(entries@.take(i as int + 1).drop_last() =~= entries@.take(i as int));
        }
        if crate::strutil::str_eq(entries[i].0.as_str(), key) {
            match &entries[i].1 {
                DocValue::Str(s) => {
                    match color_from_name(s.as_str()) {
                        Some(c) => {
                            return Some(c);
                        },
                        None => {},
                    }
                },
                _ => {},
            }
        }
    }
    proof {
        assert(entries@.take(0) =~= Seq::<(String, DocValue)>::empty());
    }
    None
}

} // verus!
