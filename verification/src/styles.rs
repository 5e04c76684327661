use vstd::prelude::*;

verus! {

/// A terminal colour: one of the named colours or a true colour.
#[derive(Debug, Clone, Copy, PartialEq, Eq, Structural)]
pub enum SpanColor {
    Black,
    White,
    Gray,
    DarkGray,
    Cyan,
    Magenta,
    Red,
    Rgb(u8, u8, u8),
}

/// The look of a piece of text: its foreground and background colours and
/// whether it is bold. `None` leaves a colour as the terminal has it.
#[derive(Debug, Clone, Copy, PartialEq, Eq, Structural)]
pub struct StyleSpec {
    pub fg: Option<SpanColor>,
    pub bg: Option<SpanColor>,
    pub bold: bool,
}

/// A piece of text together with its style.
pub struct StyledText {
    pub text: String,
    pub style: StyleSpec,
}

/// A `StyledText` as mathematical values.
pub struct StyledTextView {
    pub text: Seq<char>,
    pub style: StyleSpec,
}

impl View for StyledText {
    type V = StyledTextView;

    open spec fn view(&self) -> StyledTextView {
        StyledTextView { text: self.text@, style: self.style }
    }
}

/// The style with no colour and no emphasis.
pub open spec fn plain_style() -> StyleSpec {
    StyleSpec { fg: None, bg: None, bold: false }
}

/// The style that only sets the foreground colour.
pub open spec fn fg_style(c: SpanColor) -> StyleSpec {
    StyleSpec { fg: Some(c), bg: None, bold: false }
}

/// The style of the active entry of a list: black on white, bold.
pub open spec fn active_style_spec() -> StyleSpec {
    StyleSpec { fg: Some(SpanColor::Black), bg: Some(SpanColor::White), bold: true }
}

/// The style of the other entries of a list: dark gray.
pub open spec fn inactive_style_spec() -> StyleSpec {
    fg_style(SpanColor::DarkGray)
}

/// The style that only sets the foreground colour.
pub fn fg(c: SpanColor) -> (s: StyleSpec)
    ensures
        s == fg_style(c),
{
    StyleSpec { fg: Some(c), bg: None, bold: false }
}

/// The style with no colour and no emphasis.
pub fn plain() -> (s: StyleSpec)
    ensures
        s == plain_style(),
{
    StyleSpec { fg: None, bg: None, bold: false }
}

/// The style of the active entry of a list.
pub fn active_style() -> (s: StyleSpec)
    ensures
        s == active_style_spec(),
{
    StyleSpec { fg: Some(SpanColor::Black), bg: Some(SpanColor::White), bold: true }
}

/// The style of the other entries of a list.
pub fn inactive_style() -> (s: StyleSpec)
    ensures
        s == inactive_style_spec(),
{
    fg(SpanColor::DarkGray)
}

/// The styles of the client's frame: borders and side tabs.
pub struct Styles {
    pub focused_border: StyleSpec,
    pub unfocused_border: StyleSpec,
    pub active_tab: StyleSpec,
    pub inactive_tab: StyleSpec,
}

impl Styles {
    /// Gray for a focused border, no colour for the others; the tab styles of lists.
    pub fn new() -> (s: Styles)
        ensures
            s.focused_border == fg_style(SpanColor::Gray),
            s.unfocused_border == plain_style(),
            s.active_tab == active_style_spec(),
            s.inactive_tab == inactive_style_spec(),
    {
        Styles {
            focused_border: fg(SpanColor::Gray),
            unfocused_border: plain(),
            active_tab: active_style(),
            inactive_tab: inactive_style(),
        }
    }
}

/// The colours in which highlighted SQL is drawn.
#[derive(Debug, Clone, Copy, PartialEq, Eq, Structural)]
pub enum TextColor {
    BurntOrange,
    Cyan,
    Magenta,
    Gray,
    Blue1,
    Todo,
    Todo2,
}

/// The terminal colour of each `TextColor`.
pub open spec fn text_color_of(c: TextColor) -> SpanColor {
    match c {
        TextColor::BurntOrange => SpanColor::Rgb(240, 120, 100),
        TextColor::Cyan => SpanColor::Cyan,
        TextColor::Magenta => SpanColor::Magenta,
        TextColor::Gray => SpanColor::Gray,
        TextColor::Blue1 => SpanColor::Rgb(103, 85, 230),
        TextColor::Todo => SpanColor::Rgb(90, 25, 210),
        TextColor::Todo2 => SpanColor::Rgb(20, 25, 180),
    }
}

impl TextColor {
    /// The terminal colour of this colour.
    pub fn span_color(&self) -> (c: SpanColor)
        ensures
            c == text_color_of(*self),
    {
        match self {
            TextColor::BurntOrange => SpanColor::Rgb(240, 120, 100),
            TextColor::Cyan => SpanColor::Cyan,
            TextColor::Magenta => SpanColor::Magenta,
            TextColor::Gray => SpanColor::Gray,
            TextColor::Blue1 => SpanColor::Rgb(103, 85, 230),
            TextColor::Todo => SpanColor::Rgb(90, 25, 210),
            TextColor::Todo2 => SpanColor::Rgb(20, 25, 180),
        }
    }

    /// `text` drawn in this colour.
    pub fn highlight(&self, text: String) -> (s: StyledText)
        ensures
            s@.text == text@,
            s@.style == fg_style(text_color_of(*self)),
    {
        let c = self.span_color();
        StyledText { text, style: fg(c) }
    }
}

/// The styled texts as mathematical values.
pub open spec fn styled_view(spans: Seq<StyledText>) -> Seq<StyledTextView> {
    spans.map_values(|s: StyledText| s@)
}

impl StyledText {
    /// A copy of the styled text.
    pub fn duplicate(&self) -> (c: StyledText)
        ensures
            c@ == self@,
    {
        StyledText { text: self.text.clone(), style: self.style }
    }
}

/// A copy of each styled text, in order.
pub fn copy_spans(spans: &Vec<StyledText>) -> (c: Vec<StyledText>)
    ensures
        styled_view(c@) == styled_view(spans@),
{
    let mut c: Vec<StyledText> = Vec::new();
    let mut i: usize = 0;
    while i < spans.len()
        invariant
            i <= spans@.len(),
            c@.len() == i,
            forall|j: int| 0 <= j < i ==> #[trigger] c@[j]@ == spans@[j]@,
        decreases spans@.len() - i,
    {
        c.push(spans[i].duplicate());
        i = i + 1;
    }
    assert(styled_view(c@) =~= styled_view(spans@));
    c
}

} // verus!
