use mdpdf::document::{
    document_path, footer_date, footer_name, footer_path, is_artifact, CC4Licenses, CalendarDate, Document,
    Footer, Header, Languages, DOCUMENT_PATH, FOOTER_PATH,
};
use mdpdf::pdf::{pdf_title, Margin, Orientation, PageSize, DEFAULT_MARGIN_MM};
use mdpdf::style::{Stylesheet, Themes, DE_STYLESHEET, EN_STYLESHEET, LIGHT_THEME, LIME_THEME, MAIN_STYLESHEET, NIGHT_THEME};
use mdpdf::text::{decimal, split_on_commas, starts_with, str_eq, strip_suffix};

#[test]
fn languages_from_flag() {
    assert_eq!(Languages::parse(true), Languages::DE);
    assert_eq!(Languages::parse(false), Languages::EN);
}

#[test]
fn licenses_by_name() {
    assert_eq!(CC4Licenses::parse(Some("CC-BY")), CC4Licenses::BY);
    assert_eq!(CC4Licenses::parse(Some("CC-BY-NC")), CC4Licenses::ByNc);
    assert_eq!(CC4Licenses::parse(Some("CC-BY-SA")), CC4Licenses::BySa);
    assert_eq!(CC4Licenses::parse(Some("CC-BY-NC-SA")), CC4Licenses::ByNcSa);
    assert_eq!(CC4Licenses::parse(Some("MIT")), CC4Licenses::NONE);
    assert_eq!(CC4Licenses::parse(None), CC4Licenses::NONE);
}

#[test]
fn license_lines() {
    assert_eq!(CC4Licenses::BY.display(&Languages::EN), "- Licensed under CC-BY 4.0");
    assert_eq!(CC4Licenses::ByNcSa.display(&Languages::DE), "- Lizenziert unter CC-BY-NC-SA 4.0");
    assert_eq!(CC4Licenses::BySa.display(&Languages::EN), "- Licensed under CC-BY-SA 4.0");
    assert_eq!(CC4Licenses::NONE.display(&Languages::DE), "");
}

#[test]
fn footer_fields() {
    let f = Footer::new("Ada".to_string(), "Nov 28, 2014".to_string(), &Languages::EN, &CC4Licenses::ByNc);
    assert_eq!(f.name, "Ada");
    assert_eq!(f.date, "Nov 28, 2014");
    assert_eq!(f.text, "Created by");
    assert_eq!(f.license, "- Licensed under CC-BY-NC 4.0");
    let g = Footer::new("Ada".to_string(), "x".to_string(), &Languages::DE, &CC4Licenses::NONE);
    assert_eq!(g.text, "Erstellt von");
    assert_eq!(g.license, "");
}

#[test]
fn footer_dates() {
    let d = CalendarDate { year: 2014, month: 11, day: 28 };
    assert_eq!(footer_date(&d, &Languages::EN), Some("Nov 28, 2014".to_string()));
    let de = footer_date(&d, &Languages::DE).expect("valid date");
    assert!(de.starts_with("Fr"));
    assert!(de.ends_with("2014"));
    let early = CalendarDate { year: 2021, month: 3, day: 5 };
    assert_eq!(footer_date(&early, &Languages::EN), Some("Mar  5, 2021".to_string()));
    let bad = CalendarDate { year: 2021, month: 2, day: 29 };
    assert_eq!(footer_date(&bad, &Languages::EN), None);
    let leap = CalendarDate { year: 2020, month: 2, day: 29 };
    assert!(footer_date(&leap, &Languages::DE).is_some());
}

#[test]
fn header_and_document() {
    let h = Header::new(Stylesheet::default(), "t".to_string(), &Languages::DE);
    assert_eq!(h.css, MAIN_STYLESHEET);
    assert_eq!(h.local, DE_STYLESHEET);
    assert_eq!(h.theme, "t");
    let d = Document::build(Stylesheet::default(), "<p>x</p>".to_string(), "night", &Languages::EN);
    assert_eq!(d.content, "<p>x</p>");
    assert_eq!(d.header.theme, NIGHT_THEME);
    assert_eq!(d.header.local, EN_STYLESHEET);
}

#[test]
fn stylesheets_and_themes() {
    let s = Stylesheet::default();
    assert_eq!(s.en, EN_STYLESHEET);
    assert_eq!(s.de, DE_STYLESHEET);
    assert_eq!(s.main, MAIN_STYLESHEET);
    assert_eq!(s.local(&Languages::EN), EN_STYLESHEET);
    let c = Stylesheet::from_custom("p{}".to_string());
    assert_eq!(c.local(&Languages::DE), "p{}");
    assert_eq!(c.local(&Languages::EN), "p{}");
    assert_eq!(Themes::parse("lime"), LIME_THEME);
    assert_eq!(Themes::parse("night"), NIGHT_THEME);
    assert_eq!(Themes::parse("light"), LIGHT_THEME);
    assert_eq!(Themes::parse("other"), LIGHT_THEME);
}

#[test]
fn artifact_paths() {
    assert_eq!(footer_path(0), FOOTER_PATH);
    assert_eq!(footer_path(1), "./.footer-1.html");
    assert_eq!(footer_path(27), "./.footer-27.html");
    assert_eq!(document_path(0), DOCUMENT_PATH);
    assert_eq!(document_path(3), "./.document-3.html");
}

#[test]
fn artifacts_recognised() {
    assert!(is_artifact("./.document.html", true));
    assert!(!is_artifact("./.document.html", false));
    assert!(is_artifact("./.footer-2.html", false));
    assert!(is_artifact("./.footer.html", true));
    assert!(!is_artifact("./notes.md", true));
    assert!(!is_artifact("./.doc", true));
}

#[test]
fn names_escaped() {
    assert_eq!(footer_name("Ada"), "Ada");
    assert_eq!(footer_name("a<b"), "a&lt;b");
    assert_eq!(footer_name("Jane Doe"), "Jane&#32;Doe");
    assert_eq!(footer_name("\"x\"&"), "&quot;x&quot;&amp;");
}

#[test]
fn page_sizes_and_orientation() {
    assert_eq!(PageSize::parse(Some("A3")), PageSize::A3);
    assert_eq!(PageSize::parse(Some("A4")), PageSize::A4);
    assert_eq!(PageSize::parse(Some("A5")), PageSize::A5);
    assert_eq!(PageSize::parse(Some("A6")), PageSize::A6);
    assert_eq!(PageSize::parse(Some("B5")), PageSize::A4);
    assert_eq!(PageSize::parse(None), PageSize::A4);
    assert_eq!(Orientation::parse(Some("landscape")), Orientation::Landscape);
    assert_eq!(Orientation::parse(Some("portrait")), Orientation::Portrait);
    assert_eq!(Orientation::parse(Some("diagonal")), Orientation::Portrait);
    assert_eq!(Orientation::parse(None), Orientation::Portrait);
}

#[test]
fn margins() {
    let m = Margin::parse(Some("15"));
    assert_eq!((m.millimeters, m.rejected), (15, false));
    let plus = Margin::parse(Some("+7"));
    assert_eq!((plus.millimeters, plus.rejected), (7, false));
    let bad = Margin::parse(Some("1cm"));
    assert_eq!((bad.millimeters, bad.rejected), (DEFAULT_MARGIN_MM, true));
    let neg = Margin::parse(Some("-1"));
    assert!(neg.rejected);
    let big = Margin::parse(Some("4294967296"));
    assert!(big.rejected);
    let none = Margin::parse(None);
    assert_eq!((none.millimeters, none.rejected), (10, false));
}

#[test]
fn titles() {
    assert_eq!(pdf_title(Some("Report"), "notes.md"), Some("Report".to_string()));
    assert_eq!(pdf_title(None, "notes.md"), Some("notes".to_string()));
    assert_eq!(pdf_title(None, "dir/a.b.md"), Some("dir/a.b".to_string()));
    assert_eq!(pdf_title(None, "notes.txt"), None);
}

#[test]
fn text_helpers() {
    assert_eq!(decimal(0), "0");
    assert_eq!(decimal(1234), "1234");
    assert_eq!(decimal(u64::MAX), "18446744073709551615");
    assert_eq!(split_on_commas("a,,b"), vec!["a".to_string(), "".to_string(), "b".to_string()]);
    assert_eq!(split_on_commas(""), vec!["".to_string()]);
    assert_eq!(split_on_commas("ä,ö"), vec!["ä".to_string(), "ö".to_string()]);
    assert!(str_eq("abc", "abc"));
    assert!(!str_eq("abc", "abd"));
    assert!(!str_eq("ab", "abc"));
    assert!(starts_with("./.footer-1", "./.footer"));
    assert!(!starts_with("./.foo", "./.footer"));
    assert_eq!(strip_suffix("a.md", ".md"), Some("a".to_string()));
    assert_eq!(strip_suffix("md", ".md"), None);
}
