use crate::events::{
    checkbox_spec, concat_all, event_views, is_rewritten, lemma_checkbox_fixed, lemma_pass_through,
    lemma_single_highlight, planned_views, run, text_events, transduce, transduce_spec, EventView,
    MdEvent, Planned, PlannedView,
};
use crate::markdown::{
    option_bits, option_bits_spec, parse_events, parsed_events, render_html, rendered_html,
    ExtensionConfig,
};
use crate::sanitize::{
    accepted, sanitize, sanitize_spec, standard_allow_list, AllowListView, SanitizationPolicy,
};
use syntect::highlighting::{Theme, ThemeSet};
use syntect::parsing::SyntaxSet;
use vstd::prelude::*;

verus! {

#[verifier::external_type_specification]
#[verifier::external_body]
pub struct ExSyntaxSet(SyntaxSet);

#[verifier::external_type_specification]
#[verifier::external_body]
pub struct ExTheme(Theme);

/// Colour theme of the highlighted code.
pub const THEME_NAME: &'static str = "base16-ocean.dark";

/// Grammar used where the language token names none.
pub const PLAIN_TEXT: &'static str = "Plain Text";

/// The name of the bundled grammar that syntect's token lookup picks for
/// `token`, if any.
pub uninterp spec fn token_grammar(token: Seq<char>) -> Option<Seq<char>>;

/// Whether the bundled grammars hold one of that name.
pub uninterp spec fn has_grammar(name: Seq<char>) -> bool;

/// `source` as syntect's HTML, highlighted by the bundled grammar of that
/// name in the fixed theme.
pub uninterp spec fn highlighted_in(source: Seq<char>, grammar: Seq<char>) -> Seq<char>;

/// Relies on syntect's SyntaxSet::load_defaults_newlines: the bundled
/// grammars, compiled for lines that keep their newline.
#[verifier::external_body]
fn bundled_syntaxes() -> SyntaxSet {
    SyntaxSet::load_defaults_newlines()
}

/// Relies on syntect's ThemeSet::load_defaults, whose documentation lists
/// `base16-ocean.dark` among the keys of its map: the bundled theme of the
/// given name, if there is one.
#[verifier::external_body]
fn bundled_theme(name: &str) -> (r: Option<Theme>)
    ensures
        name@ == THEME_NAME@ ==> r is Some,
{
    ThemeSet::load_defaults().themes.remove(name)
}

/// Syntax highlighting with the bundled grammars and the fixed theme. Its
/// fields are only ever set by `new`.
pub struct Highlighter {
    syntaxes: SyntaxSet,
    theme: Theme,
}

/// Relies on syntect's SyntaxSet::find_syntax_by_token: the name of the
/// bundled grammar that the token's file extension or name picks; a grammar
/// found there is found again by its name.
#[verifier::external_body]
fn grammar_for_token(hl: &Highlighter, token: &str) -> (r: Option<String>)
    ensures
        r is Some <==> token_grammar(token@) is Some,
        r matches Some(g) ==> token_grammar(token@) == Some(g@) && has_grammar(g@),
{
    hl.syntaxes.find_syntax_by_token(token).map(|s| s.name.clone())
}

/// Relies on syntect's SyntaxSet::find_syntax_by_name, to pick the bundled
/// grammar of that name (every bundled set has `Plain Text`), and on
/// syntect::html::highlighted_html_for_string, which writes `source` in that
/// grammar and the theme as one `pre` element; its output always holds at
/// least that element.
#[verifier::external_body]
fn highlight_with(hl: &Highlighter, source: &str, grammar: &str) -> (r: Option<String>)
    ensures
        r is Some <==> has_grammar(grammar@),
        grammar@ == PLAIN_TEXT@ ==> r is Some,
        r matches Some(h) ==> h@ == highlighted_in(source@, grammar@) && h@.len() > 0,
{
    hl.syntaxes.find_syntax_by_name(grammar).map(
        |s| syntect::html::highlighted_html_for_string(source, &hl.syntaxes, s, &hl.theme),
    )
}

/// The grammar for a language token: the one the token picks, else plain text.
pub open spec fn chosen_grammar(language: Seq<char>) -> Seq<char> {
    match token_grammar(language) {
        Some(g) => g,
        None => PLAIN_TEXT@,
    }
}

/// What highlighting `source` for the language token `language` gives.
pub open spec fn highlight_spec(source: Seq<char>, language: Seq<char>) -> Seq<char> {
    highlighted_in(source, chosen_grammar(language))
}

impl Highlighter {
    /// The bundled grammars with the fixed theme.
    pub fn new() -> (r: Highlighter) {
        match bundled_theme(THEME_NAME) {
            Some(theme) => Highlighter { syntaxes: bundled_syntaxes(), theme },
            None => vstd::pervasive::unreached(),
        }
    }

    /// `source` highlighted by the grammar that `language` names, or by the
    /// plain-text grammar where it names none.
    pub fn highlight(&self, source: &str, language: &str) -> (r: String)
        ensures
            r@ == highlight_spec(source@, language@),
            r@.len() > 0,
    {
        let grammar = match grammar_for_token(self, language) {
            Some(g) => g,
            None => String::from_str(PLAIN_TEXT),
        };
        match highlight_with(self, source, grammar.as_str()) {
            Some(h) => h,
            None => vstd::pervasive::unreached(),
        }
    }
}

/// What a planned item becomes: an event unchanged, a highlight request the
/// highlighted markup of its whole text.
pub open spec fn resolve_view(p: PlannedView) -> EventView {
    match p {
        PlannedView::Event(e) => e,
        PlannedView::Highlight { source, language } => EventView::Html(
            highlight_spec(source, language),
        ),
    }
}

pub open spec fn resolved_events(plan: Seq<PlannedView>) -> Seq<EventView> {
    plan.map_values(|p: PlannedView| resolve_view(p))
}

/// Replaces each highlight request by the highlighter's markup.
pub fn resolve_highlights(plan: Vec<Planned>, highlighter: &Highlighter) -> (r: Vec<MdEvent>)
    ensures
        event_views(r@) == resolved_events(planned_views(plan@)),
{
    let ghost all = plan@;
    let mut out: Vec<MdEvent> = Vec::new();
    for p in it: plan.into_iter()
        invariant
            it.seq() == all,
            out@.len() == it.index(),
            forall|j: int| 0 <= j < it.index() ==> (#[trigger] out@[j])@ == resolve_view(all[j]@),
    {
        let ghost i = it.index() as int;
        let ghost pv = p@;
        let e = match p {
            Planned::Event(e) => e,
            Planned::Highlight { source, language } => MdEvent::Html(
                highlighter.highlight(source.as_str(), language.as_str()),
            ),
        };
        assert(e@ == resolve_view(pv));
        out.push(e);
        assert(all[i] == p);
    }
    assert(event_views(out@) =~= resolved_events(planned_views(all)));
    out
}

/// The HTML a markdown document turns into: parsed, transduced, highlighted,
/// rendered, then sanitized.
pub open spec fn markup_spec(
    markdown: Seq<char>,
    options: ExtensionConfig,
    bypass: bool,
    allow: AllowListView,
) -> Seq<char> {
    sanitize_spec(
        rendered_html(
            resolved_events(transduce_spec(parsed_events(markdown, option_bits_spec(options)))),
        ),
        bypass,
        allow,
    )
}

/// The sanitized HTML of a markdown document: fenced code highlighted,
/// task-list markers replaced by the fixed checkbox fragments, the rendered
/// markup then sanitized under `policy`.
pub fn render_markup(markdown: &str, options: &ExtensionConfig, policy: &SanitizationPolicy) -> (r:
    String)
    requires
        policy.bypass || accepted(policy.allow@),
    ensures
        r@ == markup_spec(markdown@, *options, policy.bypass, policy.allow@),
{
    let events = parse_events(markdown, option_bits(options));
    let plan = transduce(events);
    let highlighter = Highlighter::new();
    let resolved = resolve_highlights(plan, &highlighter);
    let html = render_html(resolved);
    sanitize(html.as_str(), policy)
}

/// The HTML of a markdown document under the standard allow-list, or
/// unsanitized where `bypass` is set.
pub fn parse_html(markdown: String, options: ExtensionConfig, bypass: bool) -> (r: String)
    ensures
        r@ == markup_spec(markdown@, options, bypass, standard_allow_list()),
{
    let policy = SanitizationPolicy::standard(bypass);
    render_markup(markdown.as_str(), &options, &policy)
}

/// Pass-through identity for the whole pipeline: where the parser gives no
/// fenced code start and no task-list marker, the output is the (sanitized)
/// rendering of the parser's events themselves.
pub proof fn lemma_markup_pass_through(
    markdown: Seq<char>,
    options: ExtensionConfig,
    bypass: bool,
    allow: AllowListView,
)
    requires
        ({
            let events = parsed_events(markdown, option_bits_spec(options));
            forall|i: int| 0 <= i < events.len() ==> !is_rewritten(#[trigger] events[i])
        }),
    ensures
        markup_spec(markdown, options, bypass, allow) == sanitize_spec(
            rendered_html(parsed_events(markdown, option_bits_spec(options))),
            bypass,
            allow,
        ),
{
    let events = parsed_events(markdown, option_bits_spec(options));
    lemma_pass_through(events);
    assert(resolved_events(transduce_spec(events)) =~= events);
}

/// Bypass identity for the whole pipeline: with the bypass set the output is
/// the rendered markup itself, whatever the allow-list.
pub proof fn lemma_markup_bypass(markdown: Seq<char>, options: ExtensionConfig, allow: AllowListView)
    ensures
        markup_spec(markdown, options, true, allow) == rendered_html(
            resolved_events(transduce_spec(parsed_events(markdown, option_bits_spec(options)))),
        ),
{
}

/// Single highlight per block, carried to the rendered events: after any
/// prefix outside a fenced block, a fenced block whose text arrives in any
/// number of pieces becomes its start, one HTML event holding the
/// highlighting of the whole concatenated text, and its end.
pub proof fn lemma_block_rendered_once(pre: Seq<EventView>, language: Seq<char>, pieces: Seq<Seq<char>>)
    requires
        !run(pre).0.0,
    ensures
        resolved_events(
            transduce_spec(
                pre + (seq![EventView::FencedStart(language)] + text_events(pieces) + seq![
                    EventView::CodeBlockEnd,
                ]),
            ),
        ) == resolved_events(transduce_spec(pre)) + seq![
            EventView::FencedStart(language),
            EventView::Html(highlight_spec(concat_all(pieces), language)),
            EventView::CodeBlockEnd,
        ],
{
    lemma_single_highlight(pre, language, pieces);
    let block = seq![EventView::FencedStart(language)] + text_events(pieces) + seq![
        EventView::CodeBlockEnd,
    ];
    let tail = seq![
        PlannedView::Event(EventView::FencedStart(language)),
        PlannedView::Highlight { source: concat_all(pieces), language },
        PlannedView::Event(EventView::CodeBlockEnd),
    ];
    assert(resolved_events(transduce_spec(pre) + tail) =~= resolved_events(transduce_spec(pre))
        + resolved_events(tail));
    assert(resolved_events(tail) =~= seq![
        EventView::FencedStart(language),
        EventView::Html(highlight_spec(concat_all(pieces), language)),
        EventView::CodeBlockEnd,
    ]);
}

/// Checkbox determinism, carried to the rendered events: after any prefix, a
/// task-list marker becomes exactly the fixed fragment its flag chooses.
pub proof fn lemma_marker_rendered_fixed(pre: Seq<EventView>, checked: bool)
    ensures
        resolved_events(transduce_spec(pre.push(EventView::TaskListMarker(checked)))) == resolved_events(
            transduce_spec(pre),
        ).push(EventView::Html(checkbox_spec(checked))),
{
    lemma_checkbox_fixed(pre, checked);
    assert(resolved_events(
        transduce_spec(pre).push(PlannedView::Event(EventView::Html(checkbox_spec(checked)))),
    ) =~= resolved_events(transduce_spec(pre)).push(EventView::Html(checkbox_spec(checked))));
}

} // verus!
