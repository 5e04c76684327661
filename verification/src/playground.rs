use vstd::prelude::*;
use crate::command::{KeyCode, KeyInput, KeyKind};
use crate::styles::{StyleSpec, plain, plain_style};

verus! {

/// `ListState::select` of the widget library on the state with `selected`
/// and `offset`: the selection becomes `index`, and the offset goes back to
/// 0 when nothing is selected (its source: `self.selected = index; if
/// index.is_none() { self.offset = 0 }`). Returns the new selection and
/// offset.
#[verifier::external_body]
fn list_state_select(selected: Option<usize>, offset: usize, index: Option<usize>) -> (r: (Option<usize>, usize))
    ensures
        r.0 == index,
        r.1 == (if index is None { 0 } else { offset }),
{
    let mut s = ratatui::widgets::ListState::default().with_offset(offset).with_selected(selected);
    s.select(index);
    (s.selected(), s.offset())
}

/// `ListState::select_next`: the item after the selected one (saturating),
/// or the first one when nothing is selected; the offset stays.
#[verifier::external_body]
fn list_state_select_next(selected: Option<usize>, offset: usize) -> (r: (Option<usize>, usize))
    ensures
        r.0 == Some(match selected {
            None => 0usize,
            Some(i) => if i == usize::MAX { i } else { (i + 1) as usize },
        }),
        r.1 == offset,
{
    let mut s = ratatui::widgets::ListState::default().with_offset(offset).with_selected(selected);
    s.select_next();
    (s.selected(), s.offset())
}

/// `ListState::select_previous`: the item before the selected one
/// (saturating), or the last possible index when nothing is selected; the
/// offset stays.
#[verifier::external_body]
fn list_state_select_previous(selected: Option<usize>, offset: usize) -> (r: (Option<usize>, usize))
    ensures
        r.0 == Some(match selected {
            None => usize::MAX,
            Some(i) => if i == 0 { 0usize } else { (i - 1) as usize },
        }),
        r.1 == offset,
{
    let mut s = ratatui::widgets::ListState::default().with_offset(offset).with_selected(selected);
    s.select_previous();
    (s.selected(), s.offset())
}

/// `ListState::select_last`: the last possible index, which drawing the list
/// brings back into the list; the offset stays.
#[verifier::external_body]
fn list_state_select_last(selected: Option<usize>, offset: usize) -> (r: (Option<usize>, usize))
    ensures
        r.0 == Some(usize::MAX),
        r.1 == offset,
{
    let mut s = ratatui::widgets::ListState::default().with_offset(offset).with_selected(selected);
    s.select_last();
    (s.selected(), s.offset())
}

/// A ball drawn on the screen, and its style.
pub struct Ball {
    pub style: StyleSpec,
}

impl Ball {
    /// A ball with no style.
    pub fn new() -> (b: Ball)
        ensures
            b.style == plain_style(),
    {
        Ball { style: plain() }
    }

    /// The ball drawn in `style`.
    pub fn style(self, style: StyleSpec) -> (b: Ball)
        ensures
            b.style == style,
    {
        Ball { style }
    }
}

/// The state of the list demo: a list of items with a selection and a
/// scroll offset, a ball at a position, and whether the demo is to stop.
pub struct App {
    pub should_quit: bool,
    pub selected: Option<usize>,
    pub offset: usize,
    pub items: Vec<String>,
    pub ball_x: u16,
    pub ball_y: u16,
}

/// Whether a key event is a key going down.
pub fn is_press(key: &KeyInput) -> (b: bool)
    ensures
        b == (key.kind == KeyKind::Press),
{
    match key.kind {
        KeyKind::Press => true,
        _ => false,
    }
}

impl App {
    /// Nothing selected, no items, the ball at the origin.
    pub fn new() -> (app: App)
        ensures
            !app.should_quit,
            app.selected is None,
            app.offset == 0,
            app.items@.len() == 0,
            app.ball_x == 0 && app.ball_y == 0,
    {
        App { should_quit: false, selected: None, offset: 0, items: Vec::new(), ball_x: 0, ball_y: 0 }
    }

    /// Selects item `i`.
    pub fn select(&mut self, i: usize)
        ensures
            final(self).selected == Some(i),
            final(self).offset == old(self).offset,
            final(self).items == old(self).items,
            final(self).should_quit == old(self).should_quit,
            final(self).ball_x == old(self).ball_x && final(self).ball_y == old(self).ball_y,
    {
        let (selected, offset) = list_state_select(self.selected, self.offset, Some(i));
        self.selected = selected;
        self.offset = offset;
    }

    /// The demo with these items.
    pub fn items(self, items: Vec<String>) -> (app: App)
        ensures
            app.items == items,
            app.selected == self.selected && app.offset == self.offset,
            app.should_quit == self.should_quit,
            app.ball_x == self.ball_x && app.ball_y == self.ball_y,
    {
        App { items, ..self }
    }

    /// The demo with the ball at (`x`, `y`).
    pub fn ball_state(self, x: u16, y: u16) -> (app: App)
        ensures
            app.ball_x == x && app.ball_y == y,
            app.items == self.items,
            app.selected == self.selected && app.offset == self.offset,
            app.should_quit == self.should_quit,
    {
        App { ball_x: x, ball_y: y, ..self }
    }

    /// The demo with this selection and scroll offset.
    pub fn list_state(self, selected: Option<usize>, offset: usize) -> (app: App)
        ensures
            app.selected == selected && app.offset == offset,
            app.items == self.items,
            app.should_quit == self.should_quit,
            app.ball_x == self.ball_x && app.ball_y == self.ball_y,
    {
        App { selected, offset, ..self }
    }

    /// Appends an item.
    pub fn push_item(&mut self, item: String)
        ensures
            final(self).items@ == old(self).items@.push(item),
            final(self).selected == old(self).selected && final(self).offset == old(self).offset,
            final(self).should_quit == old(self).should_quit,
            final(self).ball_x == old(self).ball_x && final(self).ball_y == old(self).ball_y,
    {
        self.items.push(item);
    }

    /// Handles a key press: Esc stops the demo; j selects the next item, k
    /// the previous one, G the last one; Down moves the ball one row down;
    /// other keys do nothing.
    pub fn handle_key_press(&mut self, key: &KeyInput)
        requires
            key.code == KeyCode::Down ==> old(self).ball_y < u16::MAX,
        ensures
            final(self).items == old(self).items,
            final(self).ball_x == old(self).ball_x,
            final(self).offset == old(self).offset,
            key.code == KeyCode::Esc ==> final(self).should_quit && final(self).selected
                == old(self).selected && final(self).ball_y == old(self).ball_y,
            key.code == KeyCode::Char('j') ==> final(self).selected == Some(
                match old(self).selected {
                    None => 0usize,
                    Some(i) => if i == usize::MAX { i } else { (i + 1) as usize },
                },
            ) && final(self).should_quit == old(self).should_quit && final(self).ball_y == old(self).ball_y,
            key.code == KeyCode::Char('k') ==> final(self).selected == Some(
                match old(self).selected {
                    None => usize::MAX,
                    Some(i) => if i == 0 { 0usize } else { (i - 1) as usize },
                },
            ) && final(self).should_quit == old(self).should_quit && final(self).ball_y == old(self).ball_y,
            key.code == KeyCode::Char('G') ==> final(self).selected == Some(usize::MAX)
                && final(self).should_quit == old(self).should_quit && final(self).ball_y == old(self).ball_y,
            key.code == KeyCode::Down ==> final(self).ball_y == old(self).ball_y + 1
                && final(self).selected == old(self).selected && final(self).should_quit == old(self).should_quit,
            !(key.code == KeyCode::Esc || key.code == KeyCode::Char('j') || key.code == KeyCode::Char('k')
                || key.code == KeyCode::Char('G') || key.code == KeyCode::Down) ==> final(self).selected
                == old(self).selected && final(self).should_quit == old(self).should_quit
                && final(self).ball_y == old(self).ball_y,
    {
        match key.code {
            KeyCode::Esc => {
                self.should_quit = true;
            },
            KeyCode::Char('j') => {
                let (selected, offset) = list_state_select_next(self.selected, self.offset);
                self.selected = selected;
                self.offset = offset;
            },
            KeyCode::Char('k') => {
                let (selected, offset) = list_state_select_previous(self.selected, self.offset);
                self.selected = selected;
                self.offset = offset;
            },
            KeyCode::Char('G') => {
                let (selected, offset) = list_state_select_last(self.selected, self.offset);
                self.selected = selected;
                self.offset = offset;
            },
            KeyCode::Down => {
                self.ball_y = self.ball_y + 1;
            },
            _ => {},
        }
    }
}

} // verus!
