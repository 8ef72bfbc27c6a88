//! Colours, text attributes and styled text, as the screens describe them.
use vstd::prelude::*;

verus! {

/// A terminal colour.
#[derive(Debug, Clone, Copy, PartialEq, Eq, Structural)]
pub enum Color {
    Reset,
    Black,
    Red,
    Green,
    Yellow,
    Blue,
    Magenta,
    Cyan,
    Gray,
    DarkGray,
    LightRed,
    LightGreen,
    LightYellow,
    LightBlue,
    LightMagenta,
    LightCyan,
    White,
    Rgb(u8, u8, u8),
    Indexed(u8),
}

/// The text attributes a cell can carry.
#[derive(Debug, Clone, Copy, PartialEq, Eq, Structural)]
pub struct Modifier {
    pub bold: bool,
    pub dim: bool,
    pub italic: bool,
    pub underlined: bool,
    pub reversed: bool,
    pub crossed_out: bool,
}

impl Modifier {
    pub open spec fn spec_none() -> Modifier {
        Modifier {
            bold: false,
            dim: false,
            italic: false,
            underlined: false,
            reversed: false,
            crossed_out: false,
        }
    }

    /// No attribute.
    #[verifier::when_used_as_spec(spec_none)]
    pub fn none() -> (m: Modifier)
        ensures
            m == Modifier::spec_none(),
    {
        Modifier {
            bold: false,
            dim: false,
            italic: false,
            underlined: false,
            reversed: false,
            crossed_out: false,
        }
    }
}

/// How a piece of text is drawn; `None` leaves the colour of the surface.
#[derive(Debug, Clone, Copy, PartialEq, Eq, Structural)]
pub struct Style {
    pub fg: Option<Color>,
    pub bg: Option<Color>,
    pub modifier: Modifier,
}

impl Style {
    pub open spec fn spec_plain() -> Style {
        Style { fg: None, bg: None, modifier: Modifier::spec_none() }
    }

    #[verifier::when_used_as_spec(spec_plain)]
    pub fn plain() -> (s: Style)
        ensures
            s == Style::spec_plain(),
    {
        Style { fg: None, bg: None, modifier: Modifier::none() }
    }

    pub open spec fn spec_of(c: Color) -> Style {
        Style { fg: Some(c), bg: None, modifier: Modifier::spec_none() }
    }

    /// Text in the given colour.
    #[verifier::when_used_as_spec(spec_of)]
    pub fn of(c: Color) -> (s: Style)
        ensures
            s == Style::spec_of(c),
    {
        Style { fg: Some(c), bg: None, modifier: Modifier::none() }
    }

    pub open spec fn spec_on(self, c: Color) -> Style {
        Style { bg: Some(c), ..self }
    }

    #[verifier::when_used_as_spec(spec_on)]
    pub fn on(self, c: Color) -> (s: Style)
        ensures
            s == self.spec_on(c),
    {
        Style { fg: self.fg, bg: Some(c), modifier: self.modifier }
    }

    pub open spec fn spec_bold(self) -> Style {
        Style { modifier: Modifier { bold: true, ..self.modifier }, ..self }
    }

    #[verifier::when_used_as_spec(spec_bold)]
    pub fn bold(self) -> (s: Style)
        ensures
            s == self.spec_bold(),
    {
        let mut s: Style = self;
        s.modifier.bold = true;
        s
    }

    pub open spec fn spec_dim(self) -> Style {
        Style { modifier: Modifier { dim: true, ..self.modifier }, ..self }
    }

    #[verifier::when_used_as_spec(spec_dim)]
    pub fn dim(self) -> (s: Style)
        ensures
            s == self.spec_dim(),
    {
        let mut s: Style = self;
        s.modifier.dim = true;
        s
    }

    pub open spec fn spec_italic(self) -> Style {
        Style { modifier: Modifier { italic: true, ..self.modifier }, ..self }
    }

    #[verifier::when_used_as_spec(spec_italic)]
    pub fn italic(self) -> (s: Style)
        ensures
            s == self.spec_italic(),
    {
        let mut s: Style = self;
        s.modifier.italic = true;
        s
    }

    pub open spec fn spec_underlined(self) -> Style {
        Style { modifier: Modifier { underlined: true, ..self.modifier }, ..self }
    }

    #[verifier::when_used_as_spec(spec_underlined)]
    pub fn underlined(self) -> (s: Style)
        ensures
            s == self.spec_underlined(),
    {
        let mut s: Style = self;
        s.modifier.underlined = true;
        s
    }

    pub open spec fn spec_reversed(self) -> Style {
        Style { modifier: Modifier { reversed: true, ..self.modifier }, ..self }
    }

    #[verifier::when_used_as_spec(spec_reversed)]
    pub fn reversed(self) -> (s: Style)
        ensures
            s == self.spec_reversed(),
    {
        let mut s: Style = self;
        s.modifier.reversed = true;
        s
    }
}

/// A piece of text in one style.
pub struct Span {
    pub text: String,
    pub style: Style,
}

/// The characters and the style of a span.
#[verifier::ext_equal]
pub struct SpanV {
    pub text: Seq<char>,
    pub style: Style,
}

impl View for Span {
    type V = SpanV;

    open spec fn view(&self) -> SpanV {
        SpanV { text: self.text@, style: self.style }
    }
}

/// A line of the screen.
pub struct Line {
    pub spans: Vec<Span>,
}

/// The spans of a line.
pub open spec fn spans_view(spans: Seq<Span>) -> Seq<SpanV> {
    Seq::new(spans.len(), |i: int| spans[i]@)
}

impl View for Line {
    type V = Seq<SpanV>;

    open spec fn view(&self) -> Seq<SpanV> {
        spans_view(self.spans@)
    }
}

/// The lines of a list of lines.
pub open spec fn lines_view(lines: Seq<Line>) -> Seq<Seq<SpanV>> {
    Seq::new(lines.len(), |i: int| lines[i]@)
}

/// How many characters a line holds.
pub open spec fn line_width(line: Seq<SpanV>) -> nat
    decreases line.len(),
{
    if line.len() == 0 {
        0
    } else {
        line_width(line.drop_last()) + line.last().text.len()
    }
}

/// The text of a line, without its styles.
pub open spec fn line_text(line: Seq<SpanV>) -> Seq<char>
    decreases line.len(),
{
    if line.len() == 0 {
        Seq::empty()
    } else {
        line_text(line.drop_last()) + line.last().text
    }
}

/// A line is as wide as its text is long.
pub proof fn line_width_is_text_len(line: Seq<SpanV>)
    ensures
        line_width(line) == line_text(line).len(),
    decreases line.len(),
{
    if line.len() > 0 {
        line_width_is_text_len(line.drop_last());
    }
}

pub open spec fn span(text: Seq<char>, style: Style) -> SpanV {
    SpanV { text, style }
}

impl Span {
    pub fn styled(text: &str, style: Style) -> (s: Span)
        ensures
            s@ == span(text@, style),
    {
        Span { text: crate::text::owned(text), style }
    }

    pub fn owned(text: String, style: Style) -> (s: Span)
        ensures
            s@ == span(text@, style),
    {
        Span { text, style }
    }
}

/// Adds a span at the end of a line.
pub fn add_span(spans: &mut Vec<Span>, text: &str, style: Style)
    ensures
        spans_view(final(spans)@) == spans_view(old(spans)@).push(span(text@, style)),
{
    spans.push(Span::styled(text, style));
    assert(spans_view(spans@) == spans_view(old(spans)@).push(span(text@, style)));
}

/// Adds a line with the given spans.
pub fn add_line(lines: &mut Vec<Line>, spans: Vec<Span>)
    ensures
        lines_view(final(lines)@) == lines_view(old(lines)@).push(spans_view(spans@)),
{
    lines.push(Line { spans });
    assert(lines_view(lines@) == lines_view(old(lines)@).push(spans_view(spans@)));
}

/// Adds a line of one span.
pub fn add_text_line(lines: &mut Vec<Line>, text: &str, style: Style)
    ensures
        lines_view(final(lines)@) == lines_view(old(lines)@).push(seq![span(text@, style)]),
{
    let mut spans: Vec<Span> = Vec::new();
    add_span(&mut spans, text, style);
    assert(spans_view(spans@) == seq![span(text@, style)]);
    add_line(lines, spans);
}

impl Line {
    /// How many characters the line holds.
    pub fn width(&self) -> (w: Option<usize>)
        ensures
            match w {
                Some(n) => n == line_width(self@),
                None => line_width(self@) > usize::MAX,
            },
    {
        let mut w: usize = 0;
        let mut i: usize = 0;
        while i < self.spans.len()
            invariant
                i <= self.spans.len(),
                w == line_width(self@.take(i as int)),
            decreases self.spans.len() - i,
        {
            let n: usize = crate::text::char_count(self.spans[i].text.as_str());
            assert(self@.take(i + 1).drop_last() == self@.take(i as int));
            if n > usize::MAX - w {
                proof {
                    lemma_prefix_width(self@, i + 1);
                }
                return None;
            }
            w = w + n;
            i += 1;
        }
        assert(self@.take(i as int) == self@);
        Some(w)
    }
}

/// No part of a line is wider than the line.
pub proof fn lemma_prefix_width(line: Seq<SpanV>, n: int)
    requires
        0 <= n <= line.len(),
    ensures
        line_width(line.take(n)) <= line_width(line),
    decreases line.len(),
{
    if n == line.len() {
        assert(line.take(n) == line);
    } else {
        lemma_prefix_width(line.drop_last(), n);
        assert(line.drop_last().take(n) == line.take(n));
    }
}

} // verus!
