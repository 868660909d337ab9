use mdpdf::events::{checkbox_html, transduce, CodeAccumulator, MdEvent, Planned, CHECKBOX, CHECKBOX_TOGGLED};
use mdpdf::highlight::{parse_html, render_markup, resolve_highlights, Highlighter};
use mdpdf::markdown::option_bits;
use mdpdf::markdown::{build_options, ExtensionConfig};
use mdpdf::sanitize::{sanitize, try_sanitize, AllowList, SanitizationPolicy};
use pulldown_cmark::Event;

fn text(s: &str) -> MdEvent {
    MdEvent::Text(s.to_string())
}

fn html_of(e: &MdEvent) -> Option<String> {
    match e {
        MdEvent::Html(h) => Some(h.clone()),
        _ => None,
    }
}

#[test]
fn pass_through_without_code_or_markers() {
    let input = vec![
        text("hello"),
        MdEvent::Other(Event::SoftBreak),
        MdEvent::Html("<b>x</b>".to_string()),
        text("world"),
    ];
    let out = transduce(input);
    assert_eq!(out.len(), 4);
    assert!(matches!(&out[0], Planned::Event(MdEvent::Text(s)) if s == "hello"));
    assert!(matches!(&out[1], Planned::Event(MdEvent::Other(Event::SoftBreak))));
    assert!(matches!(&out[2], Planned::Event(MdEvent::Html(s)) if s == "<b>x</b>"));
    assert!(matches!(&out[3], Planned::Event(MdEvent::Text(s)) if s == "world"));
}

#[test]
fn code_block_split_into_pieces_is_highlighted_once() {
    let input = vec![
        MdEvent::FencedStart("python".to_string()),
        text("print("),
        text("1)"),
        text("\n"),
        MdEvent::CodeBlockEnd,
    ];
    let out = transduce(input);
    assert_eq!(out.len(), 3);
    assert!(matches!(&out[0], Planned::Event(MdEvent::FencedStart(t)) if t == "python"));
    assert!(matches!(&out[1], Planned::Highlight { source, language } if source == "print(1)\n" && language == "python"));
    assert!(matches!(&out[2], Planned::Event(MdEvent::CodeBlockEnd)));
    let requests = out.iter().filter(|p| matches!(p, Planned::Highlight { .. })).count();
    assert_eq!(requests, 1);
}

#[test]
fn two_blocks_give_two_requests_and_text_between_passes() {
    let input = vec![
        MdEvent::FencedStart("rs".to_string()),
        text("a"),
        MdEvent::CodeBlockEnd,
        text("between"),
        MdEvent::FencedStart("".to_string()),
        text("b"),
        text("c"),
        MdEvent::CodeBlockEnd,
    ];
    let out = transduce(input);
    assert_eq!(out.len(), 7);
    assert!(matches!(&out[1], Planned::Highlight { source, language } if source == "a" && language == "rs"));
    assert!(matches!(&out[3], Planned::Event(MdEvent::Text(s)) if s == "between"));
    assert!(matches!(&out[5], Planned::Highlight { source, language } if source == "bc" && language.is_empty()));
}

#[test]
fn checkbox_markers_become_fixed_fragments() {
    let out = transduce(vec![MdEvent::TaskListMarker(true), MdEvent::TaskListMarker(false), MdEvent::TaskListMarker(true)]);
    assert_eq!(out.len(), 3);
    assert!(matches!(&out[0], Planned::Event(MdEvent::Html(h)) if h == CHECKBOX_TOGGLED));
    assert!(matches!(&out[1], Planned::Event(MdEvent::Html(h)) if h == CHECKBOX));
    assert!(matches!(&out[2], Planned::Event(MdEvent::Html(h)) if h == CHECKBOX_TOGGLED));
    assert_eq!(checkbox_html(true), CHECKBOX_TOGGLED);
    assert_eq!(checkbox_html(false), CHECKBOX);
}

#[test]
fn marker_inside_open_block_is_still_replaced() {
    let out = transduce(vec![
        MdEvent::FencedStart("x".to_string()),
        MdEvent::TaskListMarker(false),
        text("t"),
        MdEvent::CodeBlockEnd,
    ]);
    assert_eq!(out.len(), 4);
    assert!(matches!(&out[1], Planned::Event(MdEvent::Html(h)) if h == CHECKBOX));
    assert!(matches!(&out[2], Planned::Highlight { source, .. } if source == "t"));
}

#[test]
fn end_without_open_block_passes_unchanged() {
    let out = transduce(vec![MdEvent::CodeBlockEnd, text("y")]);
    assert_eq!(out.len(), 2);
    assert!(matches!(&out[0], Planned::Event(MdEvent::CodeBlockEnd)));
    assert!(matches!(&out[1], Planned::Event(MdEvent::Text(s)) if s == "y"));
}

#[test]
fn unterminated_block_emits_nothing_for_its_text() {
    let out = transduce(vec![MdEvent::FencedStart("x".to_string()), text("lost")]);
    assert_eq!(out.len(), 1);
}

#[test]
fn accumulator_step_gathers_text() {
    let mut acc = CodeAccumulator::new();
    let mut out = Vec::new();
    acc.step(MdEvent::FencedStart("py".to_string()), &mut out);
    acc.step(text("ab"), &mut out);
    acc.step(text("cd"), &mut out);
    assert!(acc.buffering);
    assert_eq!(acc.code, "abcd");
    assert_eq!(acc.language, "py");
    assert_eq!(out.len(), 1);
    acc.step(MdEvent::CodeBlockEnd, &mut out);
    assert!(!acc.buffering);
    assert_eq!(acc.code, "");
    assert_eq!(out.len(), 3);
}

#[test]
fn resolve_replaces_requests_only() {
    let hl = Highlighter::new();
    let plan = vec![
        Planned::Event(text("a")),
        Planned::Highlight { source: "x < y\n".to_string(), language: "rs".to_string() },
    ];
    let out = resolve_highlights(plan, &hl);
    assert_eq!(out.len(), 2);
    assert!(matches!(&out[0], MdEvent::Text(s) if s == "a"));
    let h = html_of(&out[1]).expect("highlighted markup");
    assert_eq!(h, hl.highlight("x < y\n", "rs"));
    assert!(h.starts_with("<pre"));
    assert!(h.contains("&lt;"));
}

#[test]
fn highlighter_marks_up_python() {
    let hl = Highlighter::new();
    let h = hl.highlight("print(1)\n", "python");
    assert!(h.starts_with("<pre style="));
    assert!(h.contains("print"));
    assert!(h.contains("<span"));
}

#[test]
fn highlighter_falls_back_to_plain_text() {
    let hl = Highlighter::new();
    let known = hl.highlight("fn main() {}\n", "rs");
    let unknown = hl.highlight("fn main() {}\n", "no-such-language");
    let empty = hl.highlight("fn main() {}\n", "");
    assert!(known.starts_with("<pre"));
    assert!(unknown.contains("fn main()"));
    assert_eq!(unknown, empty);
    assert_ne!(known, unknown);
    assert_eq!(hl.highlight("a", "rs"), hl.highlight("a", "rs"));
    assert!(!hl.highlight("", "rs").is_empty());
}

#[test]
fn scenario_fenced_python_block() {
    let out = parse_html("```python\nprint(1)\n```\n".to_string(), ExtensionConfig::all(), false);
    assert_eq!(out.matches("<pre style=").count(), 1);
    assert!(out.contains("<span style="));
    assert!(out.contains("print"));
    assert!(out.contains("</code></pre>"));
}

#[test]
fn scenario_unchecked_task() {
    let raw = parse_html("- [ ] task\n".to_string(), ExtensionConfig::all(), true);
    assert!(raw.contains(CHECKBOX));
    assert!(!raw.contains(CHECKBOX_TOGGLED));
    let clean = parse_html("- [ ] task\n".to_string(), ExtensionConfig::all(), false);
    assert!(clean.contains("class=\"form-check\""));
    assert!(clean.contains("class=\"form-check-input\""));
    assert!(clean.contains("type=\"checkbox\""));
    assert!(!clean.contains("checked"));
}

#[test]
fn scenario_checked_task() {
    let raw = parse_html("- [x] task\n".to_string(), ExtensionConfig::all(), true);
    assert!(raw.contains(CHECKBOX_TOGGLED));
    let clean = parse_html("- [x] task\n".to_string(), ExtensionConfig::all(), false);
    assert!(clean.contains("class=\"form-check-input\""));
    assert!(clean.contains("checked"));
}

#[test]
fn scenario_script_removed_unless_bypassed() {
    let doc = "<script>alert(1)</script>\n\ntext\n".to_string();
    let clean = parse_html(doc.clone(), ExtensionConfig::all(), false);
    assert!(!clean.contains("<script"));
    assert!(!clean.contains("alert(1)"));
    let raw = parse_html(doc, ExtensionConfig::all(), true);
    assert!(raw.contains("<script>alert(1)</script>"));
}

#[test]
fn tasklist_markers_need_the_extension() {
    let mut options = ExtensionConfig::all();
    options.tasklists = false;
    let raw = parse_html("- [ ] task\n".to_string(), options, true);
    assert!(!raw.contains(CHECKBOX));
    assert!(raw.contains("[ ] task"));
}

#[test]
fn bypass_returns_input() {
    let html = "<script>x</script><p onclick=\"y\">z</p>";
    let policy = SanitizationPolicy::standard(true);
    assert_eq!(sanitize(html, &policy), html);
}

#[test]
fn sanitizing_twice_is_sanitizing_once() {
    let html = "<div class='form-check' onclick='x'><input class='form-check-input other' type='checkbox' checked><script>y</script></div><p style='color:red'>t</p>";
    let policy = SanitizationPolicy::standard(false);
    let once = sanitize(html, &policy);
    let twice = sanitize(&once, &policy);
    assert_eq!(once, twice);
    assert!(!once.contains("onclick"));
    assert!(!once.contains("other"));
    assert!(once.contains("style=\"color:red\""));
}

#[test]
fn narrow_policy_strips_input_elements() {
    let policy = SanitizationPolicy {
        bypass: false,
        allow: AllowList { tags: vec![], generic_attributes: vec!["style".to_string()], classes: vec![] },
    };
    let out = sanitize(CHECKBOX, &policy);
    assert!(!out.contains("<input"));
    assert!(out.contains("<div"));
}

#[test]
fn rejected_allow_lists() {
    let script = SanitizationPolicy {
        bypass: false,
        allow: AllowList { tags: vec!["script".to_string()], generic_attributes: vec![], classes: vec![] },
    };
    assert!(!script.allow.is_accepted());
    assert!(try_sanitize("<p>a</p>", &script).is_none());
    let rel = AllowList { tags: vec![], generic_attributes: vec!["rel".to_string()], classes: vec![] };
    assert!(!rel.is_accepted());
    let standard = SanitizationPolicy::standard(false);
    assert!(standard.allow.is_accepted());
    assert_eq!(try_sanitize("<p>a</p>", &standard), Some("<p>a</p>".to_string()));
    let bypass = SanitizationPolicy { bypass: true, allow: script.allow };
    assert_eq!(try_sanitize("<script>", &bypass), Some("<script>".to_string()));
}

#[test]
fn render_markup_with_narrow_policy() {
    let policy = SanitizationPolicy::standard(false);
    let out = render_markup("# Title\n\nSome *text*.\n", &ExtensionConfig::all(), &policy);
    assert_eq!(out, "<h1>Title</h1>\n<p>Some <em>text</em>.</p>\n");
}

#[test]
fn extension_lists() {
    let all = build_options(None);
    assert!(all.strikethrough && all.tables && all.tasklists && all.footnotes && all.smart_punctuation);
    let some = build_options(Some("table,tasklist"));
    assert!(some.tables && some.tasklists);
    assert!(!some.strikethrough && !some.footnotes && !some.smart_punctuation);
    let none = build_options(Some(""));
    assert!(!none.strikethrough && !none.tables && !none.tasklists && !none.footnotes && !none.smart_punctuation);
    let spaced = build_options(Some("table, tasklist"));
    assert!(spaced.tables && !spaced.tasklists);
    let rest = ExtensionConfig::from_list("footnotes,smart-punctuation,strikethrough");
    assert!(rest.footnotes && rest.smart_punctuation && rest.strikethrough && !rest.tables);
}

#[test]
fn multi_line_block_highlighted_once() {
    let out = parse_html("```rust\nfn a() {}\nfn b() {}\nfn c() {}\n```\n".to_string(), ExtensionConfig::all(), false);
    assert_eq!(out.matches("<pre style=").count(), 1);
    assert_eq!(out.matches("<pre").count(), 2);
    for name in ["a", "b", "c"] {
        assert!(out.contains(&format!(">{}<", name)) || out.contains(&format!("{}()", name)));
    }
}

#[test]
fn unknown_language_still_highlighted_as_plain_text() {
    let out = parse_html("```no-such-language\nx < y\n```\n".to_string(), ExtensionConfig::all(), false);
    assert_eq!(out.matches("<pre style=").count(), 1);
    assert!(out.contains("x &lt; y"));
}

#[test]
fn option_flags_match_the_parser() {
    assert_eq!(option_bits(&ExtensionConfig::all()), 62);
    let tables_only = ExtensionConfig::from_list("table");
    assert_eq!(option_bits(&tables_only), 2);
    assert_eq!(option_bits(&ExtensionConfig::from_list("")), 0);
}

#[test]
fn bypass_output_is_render_of_transduced_events() {
    let raw = parse_html("- [ ] task\n".to_string(), ExtensionConfig::all(), true);
    assert_eq!(raw.matches(CHECKBOX).count(), 1);
    assert!(!raw.contains("disabled"));
    let raw_x = parse_html("- [x] task\n".to_string(), ExtensionConfig::all(), true);
    assert_eq!(raw_x.matches(CHECKBOX_TOGGLED).count(), 1);
    assert!(!raw_x.contains(CHECKBOX));
}
