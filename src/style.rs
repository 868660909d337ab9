use crate::document::Languages;
use crate::text::str_eq;
use vstd::prelude::*;

verus! {

/// Layout rules shared by every document.
pub const MAIN_STYLESHEET: &'static str = "body { font-family: sans-serif; line-height: 1.5; margin: 0 auto; }\npre { padding: 0.5em; overflow-x: auto; }\ntable { border-collapse: collapse; }\nth, td { border: 1px solid #ccc; padding: 0.25em 0.5em; }\n.form-check { display: inline-block; margin-right: 0.5em; }\n";

/// Typographic rules for English text.
pub const EN_STYLESHEET: &'static str = ":root { --quote-open: '\\201C'; --quote-close: '\\201D'; }\nq { quotes: '\\201C' '\\201D' '\\2018' '\\2019'; }\n";

/// Typographic rules for German text.
pub const DE_STYLESHEET: &'static str = ":root { --quote-open: '\\201E'; --quote-close: '\\201C'; }\nq { quotes: '\\201E' '\\201C' '\\201A' '\\2018'; }\n";

/// The light theme, the default.
pub const LIGHT_THEME: &'static str = "body { color: #1d1d1d; background: #ffffff; }\na { color: #0b5ed7; }\n";

/// The lime theme.
pub const LIME_THEME: &'static str = "body { color: #1d2b12; background: #f6fbef; }\na { color: #4d7c0f; }\nh1, h2, h3 { color: #3f6212; }\n";

/// The night theme.
pub const NIGHT_THEME: &'static str = "body { color: #e6e6e6; background: #1b1d23; }\na { color: #7fb4ff; }\n";

/// The stylesheets of a document: one per language, and the shared layout.
pub struct Stylesheet {
    pub en: String,
    pub de: String,
    pub main: &'static str,
}

/// The colour themes.
pub struct Themes;

/// The stylesheet of a theme name: `lime` and `night` by name, the light
/// theme for any other name.
pub open spec fn theme_stylesheet(theme: Seq<char>) -> Seq<char> {
    if theme == "lime"@ {
        LIME_THEME@
    } else if theme == "night"@ {
        NIGHT_THEME@
    } else {
        LIGHT_THEME@
    }
}

impl Themes {
    /// The theme's stylesheet: `lime` and `night` by name, the light theme
    /// for any other name.
    pub fn parse(theme: &str) -> (r: String)
        ensures
            r@ == theme_stylesheet(theme@),
    {
        if str_eq(theme, "lime") {
            String::from_str(LIME_THEME)
        } else if str_eq(theme, "night") {
            String::from_str(NIGHT_THEME)
        } else {
            String::from_str(LIGHT_THEME)
        }
    }
}

impl Stylesheet {
    /// The built-in stylesheets.
    pub fn default() -> (r: Stylesheet)
        ensures
            r.en@ == EN_STYLESHEET@,
            r.de@ == DE_STYLESHEET@,
            r.main == MAIN_STYLESHEET,
    {
        Stylesheet {
            en: String::from_str(EN_STYLESHEET),
            de: String::from_str(DE_STYLESHEET),
            main: MAIN_STYLESHEET,
        }
    }

    /// A custom stylesheet, used for every language, with the shared layout.
    pub fn from_custom(css: String) -> (r: Stylesheet)
        ensures
            r.en@ == css@,
            r.de@ == css@,
            r.main == MAIN_STYLESHEET,
    {
        Stylesheet { main: MAIN_STYLESHEET, en: css.clone(), de: css }
    }

    /// The stylesheet for `language`.
    pub fn local(&self, language: &Languages) -> (r: String)
        ensures
            r@ == (match language {
                Languages::DE => self.de@,
                Languages::EN => self.en@,
            }),
    {
        match language {
            Languages::DE => self.de.clone(),
            Languages::EN => self.en.clone(),
        }
    }
}

} // verus!
