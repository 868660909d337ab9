use crate::events::{event_views, EventView, MdEvent};
use crate::text::{contains_entry, split_commas};
use pulldown_cmark::{html, CodeBlockKind, Event, Options, Parser, Tag, TagEnd};
use vstd::prelude::*;

verus! {

/// The CommonMark extensions handed to the parser.
pub struct ExtensionConfig {
    pub strikethrough: bool,
    pub tables: bool,
    pub tasklists: bool,
    pub footnotes: bool,
    pub smart_punctuation: bool,
}

/// Whether the comma-separated `list` names `name` as one of its entries.
pub open spec fn lists(list: Seq<char>, name: Seq<char>) -> bool {
    split_commas(list).contains(name)
}

impl ExtensionConfig {
    /// Every extension switched on.
    pub fn all() -> (r: ExtensionConfig)
        ensures
            r.strikethrough && r.tables && r.tasklists && r.footnotes && r.smart_punctuation,
    {
        ExtensionConfig {
            strikethrough: true,
            tables: true,
            tasklists: true,
            footnotes: true,
            smart_punctuation: true,
        }
    }

    /// The extensions that a comma-separated list names.
    pub fn from_list(list: &str) -> (r: ExtensionConfig)
        ensures
            r.strikethrough == lists(list@, "strikethrough"@),
            r.tables == lists(list@, "table"@),
            r.tasklists == lists(list@, "tasklist"@),
            r.footnotes == lists(list@, "footnotes"@),
            r.smart_punctuation == lists(list@, "smart-punctuation"@),
    {
        let entries = crate::text::split_on_commas(list);
        ExtensionConfig {
            strikethrough: contains_entry(&entries, "strikethrough"),
            tables: contains_entry(&entries, "table"),
            tasklists: contains_entry(&entries, "tasklist"),
            footnotes: contains_entry(&entries, "footnotes"),
            smart_punctuation: contains_entry(&entries, "smart-punctuation"),
        }
    }
}

/// The parser's extensions: the listed ones where a list is given, else all.
pub fn build_options(extensions: Option<&str>) -> (r: ExtensionConfig)
    ensures
        extensions is None ==> r.strikethrough && r.tables && r.tasklists && r.footnotes
            && r.smart_punctuation,
        extensions matches Some(list) ==> {
            &&& r.strikethrough == lists(list@, "strikethrough"@)
            &&& r.tables == lists(list@, "table"@)
            &&& r.tasklists == lists(list@, "tasklist"@)
            &&& r.footnotes == lists(list@, "footnotes"@)
            &&& r.smart_punctuation == lists(list@, "smart-punctuation"@)
        },
{
    match extensions {
        Some(list) => ExtensionConfig::from_list(list),
        None => ExtensionConfig::all(),
    }
}

/// The parser's flag value of each extension: tables `1 << 1`, footnotes
/// `1 << 2`, strikethrough `1 << 3`, task lists `1 << 4`, smart punctuation
/// `1 << 5`.
pub open spec fn option_bits_spec(config: ExtensionConfig) -> u32 {
    ((if config.tables { 2int } else { 0int }) + (if config.footnotes { 4int } else { 0int })
        + (if config.strikethrough { 8int } else { 0int }) + (if config.tasklists { 16int } else {
        0int
    }) + (if config.smart_punctuation { 32int } else { 0int })) as u32
}

/// The parser's option flags for a configuration.
pub fn option_bits(config: &ExtensionConfig) -> (r: u32)
    ensures
        r == option_bits_spec(*config),
{
    let mut bits: u32 = 0;
    if config.tables {
        bits = bits + 2;
    }
    if config.footnotes {
        bits = bits + 4;
    }
    if config.strikethrough {
        bits = bits + 8;
    }
    if config.tasklists {
        bits = bits + 16;
    }
    if config.smart_punctuation {
        bits = bits + 32;
    }
    bits
}

/// The events the parser gives for `text` under the option flags `options`.
pub uninterp spec fn parsed_events(text: Seq<char>, options: u32) -> Seq<EventView>;

/// The HTML the renderer writes for an event sequence.
pub uninterp spec fn rendered_html(events: Seq<EventView>) -> Seq<char>;

/// Relies on pulldown_cmark::Parser::new_ext, with `Options::from_bits_truncate`:
/// the structural events of `text`, each made owned by `into_static`; fenced
/// code starts, code block ends, text, raw HTML blocks and task-list markers
/// are moved into their own variants.
#[verifier::external_body]
pub(crate) fn parse_events(text: &str, options: u32) -> (r: Vec<MdEvent>)
    ensures
        event_views(r@) == parsed_events(text@, options),
{
    Parser::new_ext(text, Options::from_bits_truncate(options)).map(|e| match e {
        Event::Start(Tag::CodeBlock(CodeBlockKind::Fenced(t))) => MdEvent::FencedStart(t.to_string()),
        Event::End(TagEnd::CodeBlock) => MdEvent::CodeBlockEnd,
        Event::Text(s) => MdEvent::Text(s.to_string()),
        Event::Html(s) => MdEvent::Html(s.to_string()),
        Event::TaskListMarker(b) => MdEvent::TaskListMarker(b),
        other => MdEvent::Other(other.into_static()),
    }).collect()
}

/// Relies on pulldown_cmark::html::push_html: the HTML of an event sequence,
/// each event moved back into the parser's own type.
#[verifier::external_body]
pub(crate) fn render_html(events: Vec<MdEvent>) -> (r: String)
    ensures
        r@ == rendered_html(event_views(events@)),
{
    let mut out = String::new();
    html::push_html(&mut out, events.into_iter().map(|e| match e {
        MdEvent::FencedStart(t) => Event::Start(Tag::CodeBlock(CodeBlockKind::Fenced(t.into()))),
        MdEvent::CodeBlockEnd => Event::End(TagEnd::CodeBlock),
        MdEvent::Text(s) => Event::Text(s.into()),
        MdEvent::Html(s) => Event::Html(s.into()),
        MdEvent::TaskListMarker(b) => Event::TaskListMarker(b),
        MdEvent::Other(e) => e,
    }));
    out
}

} // verus!
