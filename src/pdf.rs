use crate::text::{str_eq, strip_suffix};
use vstd::prelude::*;

verus! {

/// Page size of the PDF.
#[derive(PartialEq, Eq, Structural, Clone, Copy, Debug)]
pub enum PageSize {
    A3,
    A4,
    A5,
    A6,
}

/// Page orientation of the PDF.
#[derive(PartialEq, Eq, Structural, Clone, Copy, Debug)]
pub enum Orientation {
    Portrait,
    Landscape,
}

/// Margin used where none, or an unreadable one, is given.
pub const DEFAULT_MARGIN_MM: u32 = 10;

impl PageSize {
    /// The page size a name gives; A4 for no name or any other name.
    pub fn parse(wrapped: Option<&str>) -> (r: PageSize)
        ensures
            r == (match wrapped {
                Some(size) => if size@ == "A3"@ {
                    PageSize::A3
                } else if size@ == "A5"@ {
                    PageSize::A5
                } else if size@ == "A6"@ {
                    PageSize::A6
                } else {
                    PageSize::A4
                },
                None => PageSize::A4,
            }),
    {
        match wrapped {
            Some(size) => if str_eq(size, "A3") {
                PageSize::A3
            } else if str_eq(size, "A5") {
                PageSize::A5
            } else if str_eq(size, "A6") {
                PageSize::A6
            } else {
                PageSize::A4
            },
            None => PageSize::A4,
        }
    }
}

impl Orientation {
    /// Landscape where named, else portrait.
    pub fn parse(wrapped: Option<&str>) -> (r: Orientation)
        ensures
            r == (match wrapped {
                Some(o) => if o@ == "landscape"@ {
                    Orientation::Landscape
                } else {
                    Orientation::Portrait
                },
                None => Orientation::Portrait,
            }),
    {
        match wrapped {
            Some(o) => if str_eq(o, "landscape") {
                Orientation::Landscape
            } else {
                Orientation::Portrait
            },
            None => Orientation::Portrait,
        }
    }
}

pub open spec fn is_digit(c: char) -> bool {
    '0' <= c <= '9'
}

/// The value of a string of decimal digits.
pub open spec fn digits_value(s: Seq<char>) -> nat
    decreases s.len(),
{
    if s.len() == 0 {
        0
    } else {
        digits_value(s.drop_last()) * 10 + (s.last() as nat - '0' as nat) as nat
    }
}

/// An unsigned decimal: an optional `+` and then one digit or more.
pub open spec fn unsigned_digits(s: Seq<char>) -> Seq<char> {
    if s.len() > 0 && s[0] == '+' {
        s.drop_first()
    } else {
        s
    }
}

/// What `str::parse::<u32>` reads from `s`.
pub open spec fn parsed_u32(s: Seq<char>) -> Option<u32> {
    let d = unsigned_digits(s);
    if d.len() > 0 && (forall|i: int| 0 <= i < d.len() ==> is_digit(#[trigger] d[i]))
        && digits_value(d) <= u32::MAX {
        Some(digits_value(d) as u32)
    } else {
        None
    }
}

/// Relies on `<u32 as FromStr>::from_str`: an optional `+` sign followed by
/// decimal digits only, with an error on an empty string, any other
/// character, or a value above `u32::MAX`.
#[verifier::external_body]
fn parse_u32(s: &str) -> (r: Option<u32>)
    ensures
        r == parsed_u32(s@),
{
    s.parse::<u32>().ok()
}

/// A page margin in millimetres, and whether a given margin was unreadable.
pub struct Margin {
    pub millimeters: u32,
    pub rejected: bool,
}

impl Margin {
    /// The margin given, or the default where none or an unreadable one is given.
    pub fn parse(margin: Option<&str>) -> (r: Margin)
        ensures
            r.rejected == (margin matches Some(m) && parsed_u32(m@) is None),
            r.millimeters == (match margin {
                Some(m) => match parsed_u32(m@) {
                    Some(v) => v,
                    None => DEFAULT_MARGIN_MM,
                },
                None => DEFAULT_MARGIN_MM,
            }),
    {
        match margin {
            Some(m) => match parse_u32(m) {
                Some(v) => Margin { millimeters: v, rejected: false },
                None => Margin { millimeters: DEFAULT_MARGIN_MM, rejected: true },
            },
            None => Margin { millimeters: DEFAULT_MARGIN_MM, rejected: false },
        }
    }
}

/// The PDF's title: the one given, else the input path without its `.md`
/// suffix; `None` where neither is there.
pub fn pdf_title(title: Option<&str>, input: &str) -> (r: Option<String>)
    ensures
        title matches Some(t) ==> r matches Some(s) && s@ == t@,
        title is None ==> (r is Some <==> crate::text::has_suffix(input@, ".md"@)),
        title is None && r is Some ==> r->Some_0@ == input@.subrange(
            0,
            input@.len() - ".md"@.len(),
        ),
{
    match title {
        Some(t) => Some(String::from_str(t)),
        None => strip_suffix(input, ".md"),
    }
}

/// Left margin that leaves room to punch a printed page.
pub const PRINT_LEFT_MARGIN: &'static str = "12cm";

} // verus!
