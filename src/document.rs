use crate::style::{theme_stylesheet, Stylesheet, Themes};
use crate::text::{decimal, decimal_spec, has_prefix, starts_with, str_eq};
use chrono::{Locale, NaiveDate};
use vstd::prelude::*;

verus! {

/// Language of the static text around a document.
#[derive(PartialEq, Eq, Structural, Clone, Copy, Debug)]
pub enum Languages {
    EN,
    DE,
}

/// Creative Commons 4.0 licenses a document can be attributed under.
#[derive(PartialEq, Eq, Structural, Clone, Copy, Debug)]
pub enum CC4Licenses {
    BY,
    ByNc,
    BySa,
    ByNcSa,
    NONE,
}

impl Languages {
    /// German where asked for, else English.
    pub fn parse(german: bool) -> (r: Languages)
        ensures
            r == (if german {
                Languages::DE
            } else {
                Languages::EN
            }),
    {
        if german {
            Languages::DE
        } else {
            Languages::EN
        }
    }
}

/// The short name of a license.
pub open spec fn license_name(l: CC4Licenses) -> Seq<char> {
    match l {
        CC4Licenses::BY => "CC-BY"@,
        CC4Licenses::ByNc => "CC-BY-NC"@,
        CC4Licenses::BySa => "CC-BY-SA"@,
        CC4Licenses::ByNcSa => "CC-BY-NC-SA"@,
        CC4Licenses::NONE => Seq::empty(),
    }
}

/// The attribution line of a license, or nothing for no license.
pub open spec fn license_line(l: CC4Licenses, language: Languages) -> Seq<char> {
    if l == CC4Licenses::NONE {
        Seq::empty()
    } else {
        (match language {
            Languages::DE => "- Lizenziert unter "@,
            Languages::EN => "- Licensed under "@,
        }) + license_name(l) + " 4.0"@
    }
}

impl CC4Licenses {
    /// The license a short name gives; no license for any other name.
    pub fn parse(license: Option<&str>) -> (r: CC4Licenses)
        ensures
            r == (match license {
                Some(l) => if l@ == "CC-BY-NC"@ {
                    CC4Licenses::ByNc
                } else if l@ == "CC-BY-SA"@ {
                    CC4Licenses::BySa
                } else if l@ == "CC-BY"@ {
                    CC4Licenses::BY
                } else if l@ == "CC-BY-NC-SA"@ {
                    CC4Licenses::ByNcSa
                } else {
                    CC4Licenses::NONE
                },
                None => CC4Licenses::NONE,
            }),
    {
        match license {
            Some(l) => if str_eq(l, "CC-BY-NC") {
                CC4Licenses::ByNc
            } else if str_eq(l, "CC-BY-SA") {
                CC4Licenses::BySa
            } else if str_eq(l, "CC-BY") {
                CC4Licenses::BY
            } else if str_eq(l, "CC-BY-NC-SA") {
                CC4Licenses::ByNcSa
            } else {
                CC4Licenses::NONE
            },
            None => CC4Licenses::NONE,
        }
    }

    fn short_name(&self) -> (r: &'static str)
        ensures
            r@ == license_name(*self),
    {
        proof {
            reveal_strlit("");
        }
        match self {
            CC4Licenses::BY => "CC-BY",
            CC4Licenses::ByNc => "CC-BY-NC",
            CC4Licenses::BySa => "CC-BY-SA",
            CC4Licenses::ByNcSa => "CC-BY-NC-SA",
            CC4Licenses::NONE => "",
        }
    }

    /// The attribution line in `language`, empty for no license.
    pub fn display(&self, language: &Languages) -> (r: String)
        ensures
            r@ == license_line(*self, *language),
    {
        if *self == CC4Licenses::NONE {
            return String::new();
        }
        let lead = match language {
            Languages::DE => String::from_str("- Lizenziert unter "),
            Languages::EN => String::from_str("- Licensed under "),
        };
        let line = lead.concat(self.short_name()).concat(" 4.0");
        line
    }
}

/// The head of a document: shared layout, theme and language stylesheets.
pub struct Header {
    pub css: &'static str,
    pub theme: String,
    pub local: String,
}

/// The footer of a document: date, author, and attribution.
pub struct Footer {
    pub date: String,
    pub name: String,
    pub text: String,
    pub license: String,
}

/// A document body with its head.
pub struct Document {
    pub header: Header,
    pub content: String,
}

impl Header {
    pub fn new(style: Stylesheet, theme: String, language: &Languages) -> (r: Header)
        ensures
            r.css == style.main,
            r.theme == theme,
            r.local@ == (match language {
                Languages::DE => style.de@,
                Languages::EN => style.en@,
            }),
    {
        Header { css: style.main, local: style.local(language), theme }
    }
}

/// The words before the author's name in the footer.
pub open spec fn created_by(language: Languages) -> Seq<char> {
    match language {
        Languages::EN => "Created by"@,
        Languages::DE => "Erstellt von"@,
    }
}

impl Footer {
    /// A footer for `name` on an already formatted `date`.
    pub fn new(name: String, date: String, language: &Languages, license: &CC4Licenses) -> (r:
        Footer)
        ensures
            r.name == name,
            r.date == date,
            r.text@ == created_by(*language),
            r.license@ == license_line(*license, *language),
    {
        let text = match language {
            Languages::EN => String::from_str("Created by"),
            Languages::DE => String::from_str("Erstellt von"),
        };
        Footer { name, date, text, license: license.display(language) }
    }
}

impl Document {
    /// A document with the head that the stylesheets, theme name and language give.
    pub fn build(style: Stylesheet, content: String, theme: &str, language: &Languages) -> (r:
        Document)
        ensures
            r.content == content,
            r.header.css == style.main,
            r.header.theme@ == theme_stylesheet(theme@),
            r.header.local@ == (match language {
                Languages::DE => style.de@,
                Languages::EN => style.en@,
            }),
    {
        Document { header: Header::new(style, Themes::parse(theme), language), content }
    }
}

/// A calendar date: year, month from 1, day of the month from 1.
pub struct CalendarDate {
    pub year: i32,
    pub month: u32,
    pub day: u32,
}

pub open spec fn is_leap_year(y: int) -> bool {
    (y % 4 == 0 && y % 100 != 0) || y % 400 == 0
}

pub open spec fn days_in_month(y: int, m: int) -> int {
    if m == 2 {
        if is_leap_year(y) {
            29
        } else {
            28
        }
    } else if m == 4 || m == 6 || m == 9 || m == 11 {
        30
    } else {
        31
    }
}

/// A date that exists, in the range of years that chrono represents.
pub open spec fn valid_date(y: int, m: int, d: int) -> bool {
    &&& -262143 <= y <= 262142
    &&& 1 <= m <= 12
    &&& 1 <= d <= days_in_month(y, m)
}

/// A date as `%b %e, %Y`, the English footer form.
pub uninterp spec fn english_date(year: int, month: int, day: int) -> Seq<char>;

/// A date as `%a, %e %b %Y` with German names, the German footer form.
pub uninterp spec fn german_date(year: int, month: int, day: int) -> Seq<char>;

/// Relies on chrono's NaiveDate::format with `%b %e, %Y`; `from_ymd_opt`
/// gives `None` for a date that does not exist or lies outside chrono's range.
#[verifier::external_body]
fn format_english(year: i32, month: u32, day: u32) -> (r: Option<String>)
    ensures
        r is Some <==> valid_date(year as int, month as int, day as int),
        r matches Some(s) ==> s@ == english_date(year as int, month as int, day as int),
{
    NaiveDate::from_ymd_opt(year, month, day).map(|d| d.format("%b %e, %Y").to_string())
}

/// Relies on chrono's NaiveDate::format_localized with `%a, %e %b %Y` and
/// the de_DE locale; `from_ymd_opt` as above.
#[verifier::external_body]
fn format_german(year: i32, month: u32, day: u32) -> (r: Option<String>)
    ensures
        r is Some <==> valid_date(year as int, month as int, day as int),
        r matches Some(s) ==> s@ == german_date(year as int, month as int, day as int),
{
    NaiveDate::from_ymd_opt(year, month, day).map(
        |d| d.format_localized("%a, %e %b %Y", Locale::de_DE).to_string(),
    )
}

/// The footer's date in `language`; `None` for a date that does not exist.
pub fn footer_date(date: &CalendarDate, language: &Languages) -> (r: Option<String>)
    ensures
        r is Some <==> valid_date(date.year as int, date.month as int, date.day as int),
        r matches Some(s) ==> s@ == (match language {
            Languages::EN => english_date(date.year as int, date.month as int, date.day as int),
            Languages::DE => german_date(date.year as int, date.month as int, date.day as int),
        }),
{
    match language {
        Languages::EN => format_english(date.year, date.month, date.day),
        Languages::DE => format_german(date.year, date.month, date.day),
    }
}

/// Where the first footer artifact is written.
pub const FOOTER_PATH: &'static str = "./.footer.html";

/// Where the first document artifact is written.
pub const DOCUMENT_PATH: &'static str = "./.document.html";

/// The path of a temporary artifact: `./.{stem}.html` on the first attempt,
/// `./.{stem}-{attempt}.html` after it.
pub open spec fn artifact_path_spec(stem: Seq<char>, attempt: nat) -> Seq<char> {
    if attempt == 0 {
        "./."@ + stem + ".html"@
    } else {
        "./."@ + stem + "-"@ + decimal_spec(attempt) + ".html"@
    }
}

pub fn artifact_path(stem: &str, attempt: u64) -> (r: String)
    ensures
        r@ == artifact_path_spec(stem@, attempt as nat),
{
    let lead = String::from_str("./.").concat(stem);
    if attempt == 0 {
        lead.concat(".html")
    } else {
        let number = decimal(attempt);
        lead.concat("-").concat(number.as_str()).concat(".html")
    }
}

/// The footer path to try on the given attempt, counting from 0.
pub fn footer_path(attempt: u64) -> (r: String)
    ensures
        r@ == artifact_path_spec("footer"@, attempt as nat),
{
    artifact_path("footer", attempt)
}

/// The document path to try on the given attempt, counting from 0.
pub fn document_path(attempt: u64) -> (r: String)
    ensures
        r@ == artifact_path_spec("document"@, attempt as nat),
{
    artifact_path("document", attempt)
}

/// Whether a directory entry is a leftover artifact: a file whose path
/// begins with `./.document`, or any entry whose path begins with `./.footer`.
pub fn is_artifact(path: &str, is_file: bool) -> (r: bool)
    ensures
        r == ((is_file && has_prefix(path@, "./.document"@)) || has_prefix(path@, "./.footer"@)),
{
    (is_file && starts_with(path, "./.document")) || starts_with(path, "./.footer")
}

/// `c` as it stands in escaped text.
pub open spec fn text_entity(c: char) -> Seq<char> {
    if c == '<' {
        "&lt;"@
    } else if c == '>' {
        "&gt;"@
    } else if c == '"' {
        "&quot;"@
    } else if c == '\'' {
        "&apos;"@
    } else if c == '`' {
        "&grave;"@
    } else if c == '/' {
        "&#47;"@
    } else if c == '&' {
        "&amp;"@
    } else if c == '=' {
        "&#61;"@
    } else if c == ' ' {
        "&#32;"@
    } else if c == '\t' {
        "&#9;"@
    } else if c == '\n' {
        "&#10;"@
    } else if c == '\x0c' {
        "&#12;"@
    } else if c == '\r' {
        "&#13;"@
    } else if c == '\0' {
        "&#65533;"@
    } else {
        seq![c]
    }
}

/// `s` with every character replaced by its escaped form.
pub open spec fn escaped_text(s: Seq<char>) -> Seq<char>
    decreases s.len(),
{
    if s.len() == 0 {
        Seq::empty()
    } else {
        escaped_text(s.drop_last()) + text_entity(s.last())
    }
}

/// Relies on ammonia::clean_text: each character that HTML text or an
/// attribute could read as markup becomes its character reference.
#[verifier::external_body]
fn clean_text(s: &str) -> (r: String)
    ensures
        r@ == escaped_text(s@),
{
    ammonia::clean_text(s)
}

/// An author's name made safe to stand in the footer's markup.
pub fn footer_name(name: &str) -> (r: String)
    ensures
        r@ == escaped_text(name@),
{
    clean_text(name)
}

} // verus!
