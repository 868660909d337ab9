use vstd::prelude::*;

verus! {

#[verifier::external_type_specification]
#[verifier::external_body]
pub struct ExParserEvent<'a>(pulldown_cmark::Event<'a>);

/// A structural markdown event, as far as the transducer needs to read it.
/// Every parser event the transducer passes through untouched stays in `Other`.
pub enum MdEvent {
    /// Start of a fenced code block, with its language token.
    FencedStart(String),
    /// End of a code block.
    CodeBlockEnd,
    /// A text node.
    Text(String),
    /// A raw HTML node.
    Html(String),
    /// A task-list marker, `true` when checked.
    TaskListMarker(bool),
    /// Any other parser event.
    Other(pulldown_cmark::Event<'static>),
}

/// The mathematical value of an [`MdEvent`]: strings become character sequences.
pub ghost enum EventView {
    FencedStart(Seq<char>),
    CodeBlockEnd,
    Text(Seq<char>),
    Html(Seq<char>),
    TaskListMarker(bool),
    Other(pulldown_cmark::Event<'static>),
}

impl View for MdEvent {
    type V = EventView;

    open spec fn view(&self) -> EventView {
        match self {
            MdEvent::FencedStart(t) => EventView::FencedStart(t@),
            MdEvent::CodeBlockEnd => EventView::CodeBlockEnd,
            MdEvent::Text(s) => EventView::Text(s@),
            MdEvent::Html(s) => EventView::Html(s@),
            MdEvent::TaskListMarker(b) => EventView::TaskListMarker(*b),
            MdEvent::Other(e) => EventView::Other(*e),
        }
    }
}

/// What the transducer emits: an event to render, or a request to replace a
/// whole fenced code block's text by highlighted markup.
pub enum Planned {
    Event(MdEvent),
    Highlight { source: String, language: String },
}

pub ghost enum PlannedView {
    Event(EventView),
    Highlight { source: Seq<char>, language: Seq<char> },
}

impl View for Planned {
    type V = PlannedView;

    open spec fn view(&self) -> PlannedView {
        match self {
            Planned::Event(e) => PlannedView::Event(e@),
            Planned::Highlight { source, language } => PlannedView::Highlight {
                source: source@,
                language: language@,
            },
        }
    }
}

pub open spec fn event_views(s: Seq<MdEvent>) -> Seq<EventView> {
    s.map_values(|e: MdEvent| e@)
}

pub open spec fn planned_views(s: Seq<Planned>) -> Seq<PlannedView> {
    s.map_values(|p: Planned| p@)
}

/// Fragment that stands for an unchecked task-list marker.
pub const CHECKBOX: &'static str = "<div class='form-check'><input class='form-check-input' type='checkbox' value=''></div>";

/// Fragment that stands for a checked task-list marker.
pub const CHECKBOX_TOGGLED: &'static str = "<div class='form-check'><input class='form-check-input' type='checkbox' value='' checked></div>";

pub open spec fn checkbox_spec(checked: bool) -> Seq<char> {
    if checked {
        CHECKBOX_TOGGLED@
    } else {
        CHECKBOX@
    }
}

/// The fixed fragment for a task-list marker.
pub fn checkbox_html(checked: bool) -> (r: String)
    ensures
        r@ == checkbox_spec(checked),
{
    if checked {
        String::from_str(CHECKBOX_TOGGLED)
    } else {
        String::from_str(CHECKBOX)
    }
}

/// State of the transducer: whether a fenced block is open, its language
/// token, and the text gathered from it so far.
pub type AccView = (bool, Seq<char>, Seq<char>);

pub open spec fn idle() -> AccView {
    (false, Seq::empty(), Seq::empty())
}

/// One transition of the transducer: the next state and what it emits.
pub open spec fn step_spec(s: AccView, e: EventView) -> (AccView, Seq<PlannedView>) {
    match e {
        EventView::FencedStart(t) => ((true, t, s.2), seq![PlannedView::Event(e)]),
        EventView::CodeBlockEnd => if s.0 {
            (
                idle(),
                seq![
                    PlannedView::Highlight { source: s.2, language: s.1 },
                    PlannedView::Event(e),
                ],
            )
        } else {
            (s, seq![PlannedView::Event(e)])
        },
        EventView::Text(x) => if s.0 {
            ((true, s.1, s.2 + x), Seq::empty())
        } else {
            (s, seq![PlannedView::Event(e)])
        },
        EventView::TaskListMarker(b) => (
            s,
            seq![PlannedView::Event(EventView::Html(checkbox_spec(b)))],
        ),
        _ => (s, seq![PlannedView::Event(e)]),
    }
}

/// The state reached and everything emitted after a whole event sequence.
pub open spec fn run(events: Seq<EventView>) -> (AccView, Seq<PlannedView>)
    decreases events.len(),
{
    if events.len() == 0 {
        (idle(), Seq::empty())
    } else {
        let prev = run(events.drop_last());
        let next = step_spec(prev.0, events.last());
        (next.0, prev.1 + next.1)
    }
}

/// What the transducer emits for a whole event sequence.
pub open spec fn transduce_spec(events: Seq<EventView>) -> Seq<PlannedView> {
    run(events).1
}

/// Accumulator for the fenced code block being read.
pub struct CodeAccumulator {
    pub buffering: bool,
    pub language: String,
    pub code: String,
}

impl View for CodeAccumulator {
    type V = AccView;

    open spec fn view(&self) -> AccView {
        (self.buffering, self.language@, self.code@)
    }
}

impl CodeAccumulator {
    pub fn new() -> (r: CodeAccumulator)
        ensures
            r@ == idle(),
    {
        CodeAccumulator { buffering: false, language: String::new(), code: String::new() }
    }

    /// Feeds one event, appending what it emits to `out`.
    pub fn step(&mut self, e: MdEvent, out: &mut Vec<Planned>)
        ensures
            final(self)@ == step_spec(old(self)@, e@).0,
            planned_views(final(out)@) == planned_views(old(out)@) + step_spec(old(self)@, e@).1,
    {
        let ghost ev = e@;
        let ghost out0 = old(out)@;
        match e {
            MdEvent::FencedStart(t) => {
                self.language = t.clone();
                self.buffering = true;
                out.push(Planned::Event(MdEvent::FencedStart(t)));
            },
            MdEvent::CodeBlockEnd => {
                if self.buffering {
                    let mut source = String::new();
                    let mut language = String::new();
                    std::mem::swap(&mut source, &mut self.code);
                    std::mem::swap(&mut language, &mut self.language);
                    self.buffering = false;
                    out.push(Planned::Highlight { source, language });
                }
                out.push(Planned::Event(MdEvent::CodeBlockEnd));
            },
            MdEvent::Text(s) => {
                if self.buffering {
                    self.code.append(s.as_str());
                } else {
                    out.push(Planned::Event(MdEvent::Text(s)));
                }
            },
            MdEvent::TaskListMarker(b) => {
                out.push(Planned::Event(MdEvent::Html(checkbox_html(b))));
            },
            other => {
                out.push(Planned::Event(other));
            },
        }
        assert(planned_views(out@) =~= planned_views(out0) + step_spec(old(self)@, ev).1);
    }
}

proof fn lemma_run_push(events: Seq<EventView>, e: EventView)
    ensures
        run(events.push(e)) == ({
            let next = step_spec(run(events).0, e);
            (next.0, run(events).1 + next.1)
        }),
{
    assert(events.push(e).drop_last() =~= events);
}

/// Runs the transducer over a whole event sequence, in one forward pass.
pub fn transduce(events: Vec<MdEvent>) -> (r: Vec<Planned>)
    ensures
        planned_views(r@) == transduce_spec(event_views(events@)),
{
    let ghost all = events@;
    let mut acc = CodeAccumulator::new();
    let mut out: Vec<Planned> = Vec::new();
    for e in it: events.into_iter()
        invariant
            it.seq() == all,
            acc@ == run(event_views(all.take(it.index() as int))).0,
            planned_views(out@) == run(event_views(all.take(it.index() as int))).1,
    {
        let ghost i = it.index() as int;
        proof {
            assert(all[i] == e);
            assert(event_views(all.take(i + 1)) =~= event_views(all.take(i)).push(e@));
            lemma_run_push(event_views(all.take(i)), e@);
        }
        acc.step(e, &mut out);
    }
    proof {
        assert(all.take(all.len() as int) =~= all);
    }
    out
}

/// An event that opens a fenced block or is a task-list marker: outside a
/// fenced block, the only events the transducer changes or acts on.
pub open spec fn is_rewritten(e: EventView) -> bool {
    e is FencedStart || e is TaskListMarker
}

/// Concatenation of text pieces, in order.
pub open spec fn concat_all(pieces: Seq<Seq<char>>) -> Seq<char>
    decreases pieces.len(),
{
    if pieces.len() == 0 {
        Seq::empty()
    } else {
        concat_all(pieces.drop_last()) + pieces.last()
    }
}

pub open spec fn text_events(pieces: Seq<Seq<char>>) -> Seq<EventView> {
    pieces.map_values(|p: Seq<char>| EventView::Text(p))
}

/// Pass-through identity: a sequence without fenced code and without
/// task-list markers comes out unchanged, event for event, and leaves the
/// transducer idle.
pub proof fn lemma_pass_through(events: Seq<EventView>)
    requires
        forall|i: int| 0 <= i < events.len() ==> !is_rewritten(#[trigger] events[i]),
    ensures
        run(events).0 == idle(),
        transduce_spec(events) == events.map_values(|e: EventView| PlannedView::Event(e)),
    decreases events.len(),
{
    if events.len() > 0 {
        let init = events.drop_last();
        assert forall|i: int| 0 <= i < init.len() implies !is_rewritten(#[trigger] init[i]) by {
            assert(init[i] == events[i]);
        }
        lemma_pass_through(init);
        assert(!is_rewritten(events[events.len() - 1]));
        assert(events.map_values(|e: EventView| PlannedView::Event(e)) =~= init.map_values(
            |e: EventView| PlannedView::Event(e),
        ).push(PlannedView::Event(events.last())));
    }
}

/// Outside a fenced block the accumulator holds no text and no token: what
/// it gathered is flushed, in full, at the block's end.
pub proof fn lemma_idle_is_empty(events: Seq<EventView>)
    ensures
        !run(events).0.0 ==> run(events).0 == idle(),
    decreases events.len(),
{
    if events.len() > 0 {
        lemma_idle_is_empty(events.drop_last());
    }
}

/// Text pieces read inside an open fenced block are gathered, in order, and
/// nothing is emitted for them.
proof fn lemma_gather_text(pre: Seq<EventView>, pieces: Seq<Seq<char>>)
    requires
        run(pre).0.0,
    ensures
        run(pre + text_events(pieces)) == ((true, run(pre).0.1, run(pre).0.2 + concat_all(pieces)), run(pre).1),
    decreases pieces.len(),
{
    if pieces.len() == 0 {
        assert(pre + text_events(pieces) =~= pre);
        assert(run(pre).0.2 + concat_all(pieces) =~= run(pre).0.2);
    } else {
        let init = pieces.drop_last();
        lemma_gather_text(pre, init);
        assert(pre + text_events(pieces) =~= (pre + text_events(init)).push(EventView::Text(pieces.last())));
        lemma_run_push(pre + text_events(init), EventView::Text(pieces.last()));
        assert(run(pre).0.2 + concat_all(init) + pieces.last() =~= run(pre).0.2 + concat_all(pieces));
        assert(run(pre).1 + Seq::<PlannedView>::empty() =~= run(pre).1);
    }
}

/// Single highlight per block: after any prefix outside a fenced block, a
/// fenced block whose text arrives in any number of pieces emits its
/// start, exactly one highlight request for the whole concatenated text with
/// the block's language token, and its end; the transducer is idle again.
pub proof fn lemma_single_highlight(
    pre: Seq<EventView>,
    language: Seq<char>,
    pieces: Seq<Seq<char>>,
)
    requires
        !run(pre).0.0,
    ensures
        ({
            let block = seq![EventView::FencedStart(language)] + text_events(pieces) + seq![
                EventView::CodeBlockEnd,
            ];
            &&& run(pre + block).0 == idle()
            &&& transduce_spec(pre + block) == transduce_spec(pre) + seq![
                PlannedView::Event(EventView::FencedStart(language)),
                PlannedView::Highlight { source: concat_all(pieces), language },
                PlannedView::Event(EventView::CodeBlockEnd),
            ]
        }),
{
    lemma_idle_is_empty(pre);
    let start = pre.push(EventView::FencedStart(language));
    lemma_run_push(pre, EventView::FencedStart(language));
    lemma_gather_text(start, pieces);
    let body = start + text_events(pieces);
    lemma_run_push(body, EventView::CodeBlockEnd);
    let block = seq![EventView::FencedStart(language)] + text_events(pieces) + seq![
        EventView::CodeBlockEnd,
    ];
    assert(pre + block =~= body.push(EventView::CodeBlockEnd));
    assert(Seq::<char>::empty() + concat_all(pieces) =~= concat_all(pieces));
    assert(transduce_spec(pre + block) =~= transduce_spec(pre) + seq![
        PlannedView::Event(EventView::FencedStart(language)),
        PlannedView::Highlight { source: concat_all(pieces), language },
        PlannedView::Event(EventView::CodeBlockEnd),
    ]);
}

/// Checkbox determinism: in every state and after every prefix, a task-list
/// marker emits exactly the fixed fragment chosen by its checked flag, and
/// leaves the state as it was.
pub proof fn lemma_checkbox_fixed(pre: Seq<EventView>, checked: bool)
    ensures
        run(pre.push(EventView::TaskListMarker(checked))).0 == run(pre).0,
        transduce_spec(pre.push(EventView::TaskListMarker(checked))) == transduce_spec(pre).push(
            PlannedView::Event(EventView::Html(checkbox_spec(checked))),
        ),
        checkbox_spec(true) == CHECKBOX_TOGGLED@,
        checkbox_spec(false) == CHECKBOX@,
{
    lemma_run_push(pre, EventView::TaskListMarker(checked));
    assert(transduce_spec(pre) + seq![PlannedView::Event(EventView::Html(checkbox_spec(checked)))]
        =~= transduce_spec(pre).push(PlannedView::Event(EventView::Html(checkbox_spec(checked)))));
}

} // verus!
