//! Markdown → styled lines.
//!
//! The markdown parser (pulldown-cmark) turns the source into a stream of
//! events; this module walks that stream, turning headings, emphasis, code,
//! lists, quotes and links into styled lines. Some blocks (e.g. tables) are
//! flattened to text. The walk is a state machine whose steps are stated as
//! spec functions over `MdState`.
use vstd::prelude::*;
use pulldown_cmark::{Event, Options, Parser, Tag, TagEnd};
use crate::i18n::opt_string_view;
use crate::text::{
    owned, push_str, repeat_seq, repeat_str, split_char, split_seq, u64_to_string, decimal,
};
use crate::theme::{
    fg_style, line_view, lines_view, plain_style, span_view, spans_view, style_fg, style_plain, Modifiers,
    TextLine, TextSpan, TextStyle, Theme,
};

verus! {

/// Opening tags the renderer distinguishes.
pub enum MdTag {
    Paragraph,
    /// Heading of the given level (1..=6).
    Heading(usize),
    BlockQuote,
    CodeBlock,
    /// A list; `Some(n)` for an ordered list starting at `n`.
    List(Option<u64>),
    Item,
    Emphasis,
    Strong,
    Strikethrough,
    /// A link to the given destination.
    Link(String),
    Image,
    Other,
}

/// Closing tags the renderer distinguishes.
#[derive(Clone, Copy, PartialEq, Eq, Debug, Structural)]
pub enum MdTagEnd {
    Paragraph,
    Heading,
    BlockQuote,
    CodeBlock,
    List,
    Item,
    Emphasis,
    Strong,
    Strikethrough,
    Link,
    Other,
}

/// One parser event.
pub enum MdEvent {
    Start(MdTag),
    End(MdTagEnd),
    Text(String),
    Code(String),
    SoftBreak,
    HardBreak,
    Rule,
    TaskListMarker(bool),
    Other,
}

// ─── parsing (pulldown-cmark) ────────────────────────────────────────────────

/// `pulldown_cmark::Event`, carried through the event conversion.
#[verifier::external_type_specification]
#[verifier::external_body]
pub struct ExMdEvent<'a>(Event<'a>);

/// `pulldown_cmark::Tag`, carried through the event conversion.
#[verifier::external_type_specification]
#[verifier::external_body]
pub struct ExMdTag<'a>(Tag<'a>);

/// `pulldown_cmark::TagEnd`, carried through the event conversion.
#[verifier::external_type_specification]
#[verifier::external_body]
pub struct ExMdTagEnd(TagEnd);

/// What the markdown parser yields for a source text (as this module's events).
pub uninterp spec fn spec_md_events(src: Seq<char>) -> Seq<MdEvent>;

/// `pulldown_cmark::Parser::new_ext` with strikethrough, tables and task lists
/// enabled, each event converted to `MdEvent`. The contract only names the
/// result: the same source gives the same events.
#[verifier::external_body]
fn md_events(src: &str) -> (r: Vec<MdEvent>)
    ensures
        r@ == spec_md_events(src@),
{
    let opts = Options::ENABLE_STRIKETHROUGH | Options::ENABLE_TABLES | Options::ENABLE_TASKLISTS;
    Parser::new_ext(src, opts).map(md_event_of).collect()
}

/// `pulldown_cmark::Event` → `MdEvent`, variant for variant.
#[verifier::external_body]
fn md_event_of(e: Event) -> MdEvent {
    match e {
        Event::Start(t) => MdEvent::Start(md_tag_of(t)),
        Event::End(t) => MdEvent::End(md_tag_end_of(t)),
        Event::Text(s) => MdEvent::Text(s.into_string()),
        Event::Code(s) => MdEvent::Code(s.into_string()),
        Event::SoftBreak => MdEvent::SoftBreak,
        Event::HardBreak => MdEvent::HardBreak,
        Event::Rule => MdEvent::Rule,
        Event::TaskListMarker(done) => MdEvent::TaskListMarker(done),
        _ => MdEvent::Other,
    }
}

/// `pulldown_cmark::Tag` → `MdTag`, variant for variant.
#[verifier::external_body]
fn md_tag_of(t: Tag) -> MdTag {
    match t {
        Tag::Paragraph => MdTag::Paragraph,
        Tag::Heading { level, .. } => MdTag::Heading(level as usize),
        Tag::BlockQuote(_) => MdTag::BlockQuote,
        Tag::CodeBlock(_) => MdTag::CodeBlock,
        Tag::List(start) => MdTag::List(start),
        Tag::Item => MdTag::Item,
        Tag::Emphasis => MdTag::Emphasis,
        Tag::Strong => MdTag::Strong,
        Tag::Strikethrough => MdTag::Strikethrough,
        Tag::Link { dest_url, .. } => MdTag::Link(dest_url.into_string()),
        Tag::Image { .. } => MdTag::Image,
        _ => MdTag::Other,
    }
}

/// `pulldown_cmark::TagEnd` → `MdTagEnd`, variant for variant.
#[verifier::external_body]
fn md_tag_end_of(t: TagEnd) -> MdTagEnd {
    match t {
        TagEnd::Paragraph => MdTagEnd::Paragraph,
        TagEnd::Heading(_) => MdTagEnd::Heading,
        TagEnd::BlockQuote(_) => MdTagEnd::BlockQuote,
        TagEnd::CodeBlock => MdTagEnd::CodeBlock,
        TagEnd::List(_) => MdTagEnd::List,
        TagEnd::Item => MdTagEnd::Item,
        TagEnd::Emphasis => MdTagEnd::Emphasis,
        TagEnd::Strong => MdTagEnd::Strong,
        TagEnd::Strikethrough => MdTagEnd::Strikethrough,
        TagEnd::Link => MdTagEnd::Link,
        _ => MdTagEnd::Other,
    }
}

// ─── the rendering state machine (spec) ──────────────────────────────────────

pub type SpanV = (Seq<char>, TextStyle);

pub type LineV = (Seq<SpanV>, TextStyle);

/// Renderer state: finished lines, the spans of the line being built, and
/// nesting depths (tracked as counters, not stacks).
pub struct MdState {
    pub lines: Seq<LineV>,
    pub cur: Seq<SpanV>,
    pub bold: nat,
    pub italic: nat,
    pub strike: nat,
    pub heading: bool,
    pub quote: nat,
    pub in_code: bool,
    /// `None` = bullet list, `Some(n)` = next number of an ordered list.
    pub list: Seq<Option<u64>>,
    pub link: Option<Seq<char>>,
}

pub open spec fn md_init() -> MdState {
    MdState {
        lines: Seq::empty(),
        cur: Seq::empty(),
        bold: 0,
        italic: 0,
        strike: 0,
        heading: false,
        quote: 0,
        in_code: false,
        list: Seq::empty(),
        link: None,
    }
}

pub open spec fn with_mods(s: TextStyle, bold: bool, italic: bool) -> TextStyle {
    TextStyle {
        mods: Modifiers { bold: s.mods.bold || bold, italic: s.mods.italic || italic, ..s.mods },
        ..s
    }
}

/// Appends a span to the line being built.
pub open spec fn md_push(s: MdState, span: SpanV) -> MdState {
    MdState { cur: s.cur.push(span), ..s }
}

/// Commits the line being built (with the quote prefix), if it has spans.
pub open spec fn md_flush(s: MdState, t: Theme) -> MdState {
    if s.cur.len() == 0 {
        s
    } else {
        let prefix: Seq<SpanV> = if s.quote > 0 {
            seq![(repeat_seq("▌ "@, s.quote), fg_style(t.muted))]
        } else {
            Seq::empty()
        };
        MdState { lines: s.lines.push((prefix + s.cur, plain_style())), cur: Seq::empty(), ..s }
    }
}

/// Adds one blank line (consecutive blank lines are collapsed).
pub open spec fn md_blank(s: MdState) -> MdState {
    if s.lines.len() > 0 && s.lines.last().0.len() == 0 {
        s
    } else {
        MdState { lines: s.lines.push((Seq::empty(), plain_style())), ..s }
    }
}

/// Style of inline text from the heading/bold/italic/strike state.
pub open spec fn inline_style_spec(s: MdState, t: Theme) -> TextStyle {
    TextStyle {
        fg: if s.heading {
            Some(t.accent)
        } else {
            None
        },
        bg: None,
        mods: Modifiers {
            bold: s.heading || s.bold > 0,
            italic: s.italic > 0,
            crossed_out: s.strike > 0,
            underlined: false,
        },
    }
}

/// Code block text: one gray line per piece between newlines.
pub open spec fn md_code_pieces(s: MdState, pieces: Seq<Seq<char>>, first: bool, t: Theme) -> MdState
    decreases pieces.len(),
{
    if pieces.len() == 0 {
        s
    } else {
        let s1 = if first {
            s
        } else {
            md_flush(s, t)
        };
        md_code_pieces(
            md_push(s1, ("  "@ + pieces[0], fg_style(t.code))),
            pieces.drop_first(),
            false,
            t,
        )
    }
}

pub open spec fn md_text(s: MdState, text: Seq<char>, t: Theme) -> MdState {
    if s.in_code {
        md_code_pieces(s, split_seq(text, '\n'), true, t)
    } else {
        let st = inline_style_spec(s, t);
        let st2 = if s.link is Some {
            TextStyle { fg: Some(t.link), mods: Modifiers { underlined: true, ..st.mods }, ..st }
        } else {
            st
        };
        md_push(s, (text, st2))
    }
}

/// The marker of a new list item and the list stack after it.
pub open spec fn item_marker(list: Seq<Option<u64>>) -> (Seq<char>, Seq<Option<u64>>) {
    if list.len() > 0 && list.last() is Some {
        let n = list.last()->0;
        (decimal(n as nat) + ". "@, list.update(list.len() - 1, Some(n.wrapping_add(1))))
    } else {
        ("• "@, list)
    }
}

pub open spec fn md_start(s: MdState, tag: MdTag, t: Theme) -> MdState {
    match tag {
        MdTag::Paragraph => s,
        MdTag::Heading(level) => {
            let f = md_flush(s, t);
            md_push(
                MdState { heading: true, ..f },
                (repeat_seq("#"@, level as nat) + " "@, with_mods(fg_style(t.accent), true, false)),
            )
        },
        MdTag::BlockQuote => {
            let f = md_flush(s, t);
            MdState { quote: f.quote + 1, ..f }
        },
        MdTag::CodeBlock => {
            let f = md_flush(s, t);
            MdState { in_code: true, ..f }
        },
        MdTag::List(start) => MdState { list: s.list.push(start), ..s },
        MdTag::Item => {
            let f = md_flush(s, t);
            let depth: nat = if f.list.len() >= 1 {
                (f.list.len() - 1) as nat
            } else {
                0
            };
            let (marker, list) = item_marker(f.list);
            md_push(
                MdState { list: list, ..f },
                (repeat_seq("  "@, depth) + marker, fg_style(t.warning)),
            )
        },
        MdTag::Emphasis => MdState { italic: s.italic + 1, ..s },
        MdTag::Strong => MdState { bold: s.bold + 1, ..s },
        MdTag::Strikethrough => MdState { strike: s.strike + 1, ..s },
        MdTag::Link(dest) => MdState { link: Some(dest@), ..s },
        MdTag::Image => md_push(s, ("🖼 "@, plain_style())),
        MdTag::Other => s,
    }
}

pub open spec fn dec(n: nat) -> nat {
    if n > 0 {
        (n - 1) as nat
    } else {
        0
    }
}

pub open spec fn md_end(s: MdState, tag: MdTagEnd, t: Theme) -> MdState {
    match tag {
        MdTagEnd::Paragraph => md_blank(md_flush(s, t)),
        MdTagEnd::Heading => md_blank(MdState { heading: false, ..md_flush(s, t) }),
        MdTagEnd::BlockQuote => MdState { quote: dec(s.quote), ..s },
        MdTagEnd::CodeBlock => md_blank(MdState { in_code: false, ..s }),
        MdTagEnd::List => md_blank(
            MdState {
                list: if s.list.len() > 0 {
                    s.list.drop_last()
                } else {
                    s.list
                },
                ..s
            },
        ),
        MdTagEnd::Item => md_flush(s, t),
        MdTagEnd::Emphasis => MdState { italic: dec(s.italic), ..s },
        MdTagEnd::Strong => MdState { bold: dec(s.bold), ..s },
        MdTagEnd::Strikethrough => MdState { strike: dec(s.strike), ..s },
        MdTagEnd::Link => match s.link {
            Some(url) => md_push(
                MdState { link: None, ..s },
                (" ("@ + url + ")"@, fg_style(t.muted)),
            ),
            None => s,
        },
        MdTagEnd::Other => s,
    }
}

pub open spec fn md_step(s: MdState, ev: MdEvent, t: Theme) -> MdState {
    match ev {
        MdEvent::Start(tag) => md_start(s, tag, t),
        MdEvent::End(tag) => md_end(s, tag, t),
        MdEvent::Text(text) => md_text(s, text@, t),
        MdEvent::Code(text) => md_push(s, (" "@ + text@ + " "@, fg_style(t.code))),
        MdEvent::SoftBreak => md_push(s, (" "@, plain_style())),
        MdEvent::HardBreak => md_flush(s, t),
        MdEvent::Rule => md_blank(
            MdState {
                lines: md_flush(s, t).lines.push(
                    (seq![(repeat_seq("─"@, 48), plain_style())], fg_style(t.muted)),
                ),
                ..md_flush(s, t)
            },
        ),
        MdEvent::TaskListMarker(done) => md_push(
            s,
            (
                if done {
                    "[✓] "@
                } else {
                    "[ ] "@
                },
                fg_style(t.accent),
            ),
        ),
        MdEvent::Other => s,
    }
}

/// The state after walking all of `evs` from `s`.
pub open spec fn md_run(s: MdState, evs: Seq<MdEvent>, t: Theme) -> MdState
    decreases evs.len(),
{
    if evs.len() == 0 {
        s
    } else {
        md_step(md_run(s, evs.drop_last(), t), evs.last(), t)
    }
}

/// Lines without the trailing blank lines.
pub open spec fn drop_trailing_blank(lines: Seq<LineV>) -> Seq<LineV>
    decreases lines.len(),
{
    if lines.len() > 0 && lines.last().0.len() == 0 {
        drop_trailing_blank(lines.drop_last())
    } else {
        lines
    }
}

/// The lines rendered for an event stream.
pub open spec fn render_spec(evs: Seq<MdEvent>, t: Theme) -> Seq<LineV> {
    drop_trailing_blank(md_flush(md_run(md_init(), evs, t), t).lines)
}

// ─── the rendering state machine (exec) ──────────────────────────────────────

struct Renderer {
    t: Theme,
    lines: Vec<TextLine>,
    cur: Vec<TextSpan>,
    bold: usize,
    italic: usize,
    strike: usize,
    heading: bool,
    quote: usize,
    in_code: bool,
    list: Vec<Option<u64>>,
    link_dest: Option<String>,
}


impl Renderer {
    spec fn view(&self) -> MdState {
        MdState {
            lines: lines_view(self.lines@),
            cur: spans_view(self.cur@),
            bold: self.bold as nat,
            italic: self.italic as nat,
            strike: self.strike as nat,
            heading: self.heading,
            quote: self.quote as nat,
            in_code: self.in_code,
            list: self.list@,
            link: opt_string_view(self.link_dest),
        }
    }

    /// Every depth counter is at most `n` (events walked so far).
    spec fn bounded(&self, n: nat) -> bool {
        &&& self.bold <= n
        &&& self.italic <= n
        &&& self.strike <= n
        &&& self.quote <= n
        &&& self.list@.len() <= n
    }

    fn push(&mut self, text: String, style: TextStyle)
        ensures
            final(self).view() == md_push(old(self).view(), (text@, style)),
            final(self).t == old(self).t,
            final(self).bounded_same(old(self)),
    {
        let ghost before = spans_view(self.cur@);
        self.cur.push(TextSpan { text, style });
        assert(spans_view(self.cur@) =~= before.push((text@, style)));
    }

    spec fn bounded_same(&self, other: &Self) -> bool {
        &&& self.bold == other.bold
        &&& self.italic == other.italic
        &&& self.strike == other.strike
        &&& self.quote == other.quote
        &&& self.list@.len() == other.list@.len()
    }

    /// Commit the current span buffer as one line (applying the quote prefix).
    fn flush(&mut self)
        ensures
            final(self).view() == md_flush(old(self).view(), old(self).t),
            final(self).t == old(self).t,
            final(self).bounded_same(old(self)),
    {
        if self.cur.len() == 0 {
            return;
        }
        let ghost old_view = self.view();
        let ghost cv = spans_view(self.cur@);
        let mut spans: Vec<TextSpan> = Vec::new();
        if self.quote > 0 {
            let sp = TextSpan { text: repeat_str("▌ ", self.quote), style: style_fg(self.t.muted) };
            spans.push(sp);
            assert(spans_view(spans@) =~= seq![(repeat_seq("▌ "@, self.quote as nat), fg_style(self.t.muted))]);
        } else {
            assert(spans_view(spans@) =~= Seq::<SpanV>::empty());
        }
        let ghost pv = spans_view(spans@);
        spans.append(&mut self.cur);
        assert(spans_view(spans@) =~= pv + cv);
        let ghost lv = lines_view(self.lines@);
        let line = TextLine { spans, style: style_plain() };
        self.lines.push(line);
        assert(lines_view(self.lines@) =~= lv.push(line_view(line)));
        assert(spans_view(self.cur@) =~= Seq::<SpanV>::empty());
        assert(self.view() =~= md_flush(old_view, self.t));
    }

    /// Add a single blank line (consecutive blank lines are collapsed).
    fn blank(&mut self)
        ensures
            final(self).view() == md_blank(old(self).view()),
            final(self).t == old(self).t,
            final(self).bounded_same(old(self)),
    {
        let n = self.lines.len();
        if n > 0 && self.lines[n - 1].spans.len() == 0 {
            return;
        }
        let ghost lv = lines_view(self.lines@);
        let line = TextLine { spans: Vec::new(), style: style_plain() };
        self.lines.push(line);
        assert(line_view(line).0 =~= Seq::<SpanV>::empty());
        assert(lines_view(self.lines@) =~= lv.push((Seq::empty(), plain_style())));
    }

    fn text(&mut self, text: &str)
        ensures
            final(self).view() == md_text(old(self).view(), text@, old(self).t),
            final(self).t == old(self).t,
            final(self).bounded_same(old(self)),
    {
        if self.in_code {
            let pieces = split_char(text, '\n');
            let ghost pv = pieces.deep_view();
            let ghost start = self.view();
            let mut i: usize = 0;
            assert(pv.skip(0) =~= pv);
            while i < pieces.len()
                invariant
                    i <= pieces@.len(),
                    pv == pieces.deep_view(),
                    self.t == old(self).t,
                    self.bounded_same(old(self)),
                    md_code_pieces(start, pv, true, self.t) == md_code_pieces(
                        self.view(),
                        pv.skip(i as int),
                        i == 0,
                        self.t,
                    ),
                decreases pieces@.len() - i,
            {
                if i > 0 {
                    self.flush();
                }
                let mut s = owned("  ");
                push_str(&mut s, pieces[i].as_str());
                let st = style_fg(self.t.code);
                self.push(s, st);
                assert(pv.skip(i as int).drop_first() =~= pv.skip(i + 1));
                assert(pv.skip(i as int)[0] == pieces@[i as int]@);
                i += 1;
            }
            assert(pv.skip(i as int) =~= Seq::<Seq<char>>::empty());
            return;
        }
        let mut st = self.inline_style();
        if self.link_dest.is_some() {
            st = TextStyle {
                fg: Some(self.t.link),
                mods: Modifiers { underlined: true, ..st.mods },
                ..st
            };
        }
        self.push(owned(text), st);
    }

    fn inline_style(&self) -> (s: TextStyle)
        ensures
            s == inline_style_spec(self.view(), self.t),
    {
        TextStyle {
            fg: if self.heading {
                Some(self.t.accent)
            } else {
                None
            },
            bg: None,
            mods: Modifiers {
                bold: self.heading || self.bold > 0,
                italic: self.italic > 0,
                crossed_out: self.strike > 0,
                underlined: false,
            },
        }
    }

    fn start(&mut self, tag: MdTag, Ghost(n): Ghost<nat>)
        requires
            old(self).bounded(n),
            n < usize::MAX,
        ensures
            final(self).view() == md_start(old(self).view(), tag, old(self).t),
            final(self).t == old(self).t,
            final(self).bounded(n + 1),
    {
        let ghost v0 = self.view();
        let ghost tg = tag;
        match tag {
            MdTag::Paragraph => {},
            MdTag::Heading(level) => {
                self.flush();
                self.heading = true;
                let mut s = repeat_str("#", level);
                push_str(&mut s, " ");
                let mut st = style_fg(self.t.accent);
                st.mods.bold = true;
                assert(st == with_mods(fg_style(self.t.accent), true, false));
                self.push(s, st);
                assert(self.view() =~= md_start(v0, tg, self.t));
            },
            MdTag::BlockQuote => {
                self.flush();
                self.quote = self.quote + 1;
            },
            MdTag::CodeBlock => {
                self.flush();
                self.in_code = true;
            },
            MdTag::List(start) => {
                self.list.push(start);
            },
            MdTag::Item => {
                self.flush();
                let ghost f = self.view();
                let len = self.list.len();
                let depth = if len >= 1 {
                    len - 1
                } else {
                    0
                };
                let mut s = repeat_str("  ", depth);
                let ghost l0 = self.list@;
                let ghost mk = item_marker(l0);
                let last = if len > 0 {
                    self.list[len - 1]
                } else {
                    None
                };
                match last {
                    Some(k) => {
                        push_str(&mut s, u64_to_string(k).as_str());
                        push_str(&mut s, ". ");
                        self.list.set(len - 1, Some(k.wrapping_add(1)));
                        assert(l0.last() == Some(k));
                        assert(self.list@ =~= mk.1);
                    },
                    None => {
                        push_str(&mut s, "• ");
                        assert(self.list@ =~= mk.1);
                    },
                }
                assert(s@ =~= repeat_seq("  "@, depth as nat) + mk.0);
                let st = style_fg(self.t.warning);
                let ghost f2 = self.view();
                assert(f2 =~= MdState { list: mk.1, ..f });
                self.push(s, st);
                assert(self.view() =~= md_start(v0, tg, self.t));
            },
            MdTag::Emphasis => self.italic = self.italic + 1,
            MdTag::Strong => self.bold = self.bold + 1,
            MdTag::Strikethrough => self.strike = self.strike + 1,
            MdTag::Link(dest) => self.link_dest = Some(dest),
            MdTag::Image => self.push(owned("🖼 "), style_plain()),
            MdTag::Other => {},
        }
        assert(self.view() =~= md_start(v0, tg, self.t));
    }

    fn end(&mut self, tag: MdTagEnd)
        ensures
            final(self).view() == md_end(old(self).view(), tag, old(self).t),
            final(self).t == old(self).t,
            final(self).bold <= old(self).bold,
            final(self).italic <= old(self).italic,
            final(self).strike <= old(self).strike,
            final(self).quote <= old(self).quote,
            final(self).list@.len() <= old(self).list@.len(),
    {
        match tag {
            MdTagEnd::Paragraph => {
                self.flush();
                self.blank();
            },
            MdTagEnd::Heading => {
                self.flush();
                self.heading = false;
                self.blank();
            },
            MdTagEnd::BlockQuote => self.quote = self.quote.saturating_sub(1),
            MdTagEnd::CodeBlock => {
                self.in_code = false;
                self.blank();
            },
            MdTagEnd::List => {
                let ghost l0 = self.list@;
                self.list.pop();
                proof {
                    if l0.len() > 0 {
                        assert(self.list@ =~= l0.drop_last());
                    }
                }
                self.blank();
            },
            MdTagEnd::Item => self.flush(),
            MdTagEnd::Emphasis => self.italic = self.italic.saturating_sub(1),
            MdTagEnd::Strong => self.bold = self.bold.saturating_sub(1),
            MdTagEnd::Strikethrough => self.strike = self.strike.saturating_sub(1),
            MdTagEnd::Link => {
                if let Some(url) = self.link_dest.take() {
                    let mut s = owned(" (");
                    push_str(&mut s, url.as_str());
                    push_str(&mut s, ")");
                    let st = style_fg(self.t.muted);
                    self.push(s, st);
                }
            },
            MdTagEnd::Other => {},
        }
    }

    fn handle(&mut self, ev: MdEvent, Ghost(n): Ghost<nat>)
        requires
            old(self).bounded(n),
            n < usize::MAX,
        ensures
            final(self).view() == md_step(old(self).view(), ev, old(self).t),
            final(self).t == old(self).t,
            final(self).bounded(n + 1),
    {
        match ev {
            MdEvent::Start(tag) => self.start(tag, Ghost(n)),
            MdEvent::End(tag) => self.end(tag),
            MdEvent::Text(t) => self.text(t.as_str()),
            MdEvent::Code(t) => {
                let mut s = owned(" ");
                push_str(&mut s, t.as_str());
                push_str(&mut s, " ");
                let st = style_fg(self.t.code);
                self.push(s, st);
            },
            MdEvent::SoftBreak => self.push(owned(" "), style_plain()),
            MdEvent::HardBreak => self.flush(),
            MdEvent::Rule => {
                self.flush();
                let ghost lv = lines_view(self.lines@);
                let mut spans: Vec<TextSpan> = Vec::new();
                spans.push(TextSpan { text: repeat_str("─", 48), style: style_plain() });
                let line = TextLine { spans, style: style_fg(self.t.muted) };
                self.lines.push(line);
                assert(lines_view(self.lines@) =~= lv.push(line_view(line)));
                assert(line_view(line).0 =~= seq![(repeat_seq("─"@, 48), plain_style())]);
                self.blank();
            },
            MdEvent::TaskListMarker(done) => {
                let m = if done {
                    "[✓] "
                } else {
                    "[ ] "
                };
                let st = style_fg(self.t.accent);
                self.push(owned(m), st);
            },
            MdEvent::Other => {},
        }
    }

    fn finish(&mut self) -> (r: Vec<TextLine>)
        ensures
            lines_view(r@) == drop_trailing_blank(md_flush(old(self).view(), old(self).t).lines),
    {
        self.flush();
        let ghost full = lines_view(self.lines@);
        loop
            invariant
                drop_trailing_blank(full) == drop_trailing_blank(lines_view(self.lines@)),
            ensures
                drop_trailing_blank(full) == lines_view(self.lines@),
            decreases self.lines@.len(),
        {
            let n = self.lines.len();
            if n > 0 && self.lines[n - 1].spans.len() == 0 {
                let ghost before = lines_view(self.lines@);
                self.lines.pop();
                assert(lines_view(self.lines@) =~= before.drop_last());
            } else {
                proof {
                    let lv = lines_view(self.lines@);
                    if n > 0 {
                        assert(lv.last().0 == spans_view(self.lines@[n - 1].spans@));
                    }
                    assert(drop_trailing_blank(lv) == lv);
                }
                break;
            }
        }
        let mut out: Vec<TextLine> = Vec::new();
        std::mem::swap(&mut out, &mut self.lines);
        out
    }
}

/// Render a stream of markdown events into styled lines.
pub fn render_events(evs: Vec<MdEvent>, t: &Theme) -> (r: Vec<TextLine>)
    ensures
        lines_view(r@) == render_spec(evs@, *t),
{
    let mut r = Renderer {
        t: *t,
        lines: Vec::new(),
        cur: Vec::new(),
        bold: 0,
        italic: 0,
        strike: 0,
        heading: false,
        quote: 0,
        in_code: false,
        list: Vec::new(),
        link_dest: None,
    };
    assert(r.view().lines =~= md_init().lines);
    assert(r.view().cur =~= md_init().cur);
    assert(r.view().list =~= md_init().list);
    let ghost all = evs@;
    let mut rest = evs;
    let mut rev: Vec<MdEvent> = Vec::new();
    while rest.len() > 0
        invariant
            all == rest@ + rev@.reverse(),
        decreases rest@.len(),
    {
        let e = rest.pop().unwrap();
        let ghost before = rev@;
        rev.push(e);
        assert(rev@.reverse() =~= seq![e] + before.reverse());
    }
    assert(rest@ =~= Seq::<MdEvent>::empty());
    let mut i: usize = 0;
    let total = rev.len();
    while rev.len() > 0
        invariant
            i + rev@.len() == total,
            total == all.len(),
            all.take(i as int) + rev@.reverse() == all,
            r.t == *t,
            r.bounded(i as nat),
            r.view() == md_run(md_init(), all.take(i as int), *t),
        decreases rev@.len(),
    {
        let ghost before = rev@;
        let e = rev.pop().unwrap();
        proof {
            assert(before.reverse()[0] == e);
            assert(all[i as int] == e) by {
                assert(all == all.take(i as int) + before.reverse());
            }
            assert(all.take(i + 1).drop_last() =~= all.take(i as int));
            assert(all.take(i + 1).last() == e);
            assert(rev@.reverse() =~= before.reverse().drop_first());
        }
        r.handle(e, Ghost(i as nat));
        i += 1;
        proof {
            assert(all.take(i as int) + rev@.reverse() =~= all);
        }
    }
    assert(all.take(i as int) =~= all);
    r.finish()
}

/// Render markdown source into a list of styled lines.
pub fn render(src: &str, t: &Theme) -> (r: Vec<TextLine>)
    ensures
        lines_view(r@) == render_spec(spec_md_events(src@), *t),
{
    render_events(md_events(src), t)
}

} // verus!
