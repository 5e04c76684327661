use vstd::prelude::*;
use crate::command::MoveDirection;
use crate::styles::{
    StyleSpec, StyledText, active_style, inactive_style, active_style_spec, inactive_style_spec,
};

verus! {

/// What an entry of a list stands for.
#[derive(Debug, Clone, Copy, PartialEq, Eq, Structural)]
pub enum ItemType {
    Table,
    Statement,
    Tab,
}

/// An entry of a list: a name drawn in a style, and whether the entry is
/// expanded.
pub struct ListItem {
    name: String,
    style: StyleSpec,
    item_type: ItemType,
    expanded: bool,
}

/// A `ListItem` as mathematical values.
pub struct ItemView {
    pub name: Seq<char>,
    pub style: StyleSpec,
    pub item_type: ItemType,
    pub expanded: bool,
}

impl View for ListItem {
    type V = ItemView;

    closed spec fn view(&self) -> ItemView {
        ItemView {
            name: self.name@,
            style: self.style,
            item_type: self.item_type,
            expanded: self.expanded,
        }
    }
}

/// The name of the entry that expanding a table shows under it.
pub open spec fn select_item_name() -> Seq<char> {
    " ├SELECT *"@
}

/// The entry that expanding a table shows under it: a dark gray statement.
pub open spec fn select_item_view() -> ItemView {
    ItemView {
        name: select_item_name(),
        style: inactive_style_spec(),
        item_type: ItemType::Statement,
        expanded: false,
    }
}

impl ListItem {
    /// A collapsed entry.
    pub fn new(name: String, style: StyleSpec, item_type: ItemType) -> (item: ListItem)
        ensures
            item@ == (ItemView { name: name@, style, item_type, expanded: false }),
    {
        ListItem { name, style, item_type, expanded: false }
    }

    /// The entry that expanding a table shows under it.
    pub fn select_statement() -> (item: ListItem)
        ensures
            item@ == select_item_view(),
    {
        let name = " ├SELECT *";
        proof {
            reveal_strlit(" ├SELECT *");
        }
        ListItem::new(name.to_owned(), inactive_style(), ItemType::Statement)
    }

    /// Marks the entry as expanded.
    pub fn set_expanded(&mut self)
        ensures
            final(self)@ == (ItemView { expanded: true, ..old(self)@ }),
    {
        self.expanded = true;
    }

    /// Marks the entry as collapsed.
    pub fn set_collapsed(&mut self)
        ensures
            final(self)@ == (ItemView { expanded: false, ..old(self)@ }),
    {
        self.expanded = false;
    }

    /// Whether the name of the entry is `other`.
    pub fn name_is(&self, other: &str) -> (b: bool)
        ensures
            b == (self@.name == other@),
    {
        let o = other.to_owned();
        self.name == o
    }

    /// Whether the entry is expanded.
    pub fn is_expanded(&self) -> (b: bool)
        ensures
            b == self@.expanded,
    {
        self.expanded
    }

    /// What the entry stands for.
    pub fn item_type(&self) -> (t: ItemType)
        ensures
            t == self@.item_type,
    {
        self.item_type
    }

    /// Draws the entry in `style` from now on.
    pub fn set_style(&mut self, style: StyleSpec)
        ensures
            final(self)@ == (ItemView { style, ..old(self)@ }),
    {
        self.style = style;
    }

    /// The style the entry is drawn in.
    pub fn style(&self) -> (s: StyleSpec)
        ensures
            s == self@.style,
    {
        self.style
    }

    /// The name of the entry.
    pub fn name(&self) -> (s: &str)
        ensures
            s@ == self@.name,
    {
        self.name.as_str()
    }

    /// The entry as a line of styled text.
    pub fn line(&self) -> (l: StyledText)
        ensures
            l@.text == self@.name,
            l@.style == self@.style,
    {
        StyledText { text: self.name.clone(), style: self.style }
    }

    /// Shows the statement entry in `list` at the place of its active entry,
    /// moving the entries from there on one place down.
    pub fn expand(&self, list: &mut List)
        requires
            list_wf(old(list)@),
        ensures
            final(list)@ == (ListView {
                items: old(list)@.items.insert(old(list)@.active_idx, select_item_view()),
                ..old(list)@
            }),
            list_wf(final(list)@),
    {
        let idx = list.active_idx;
        list.insert_item(idx, ListItem::select_statement());
    }
}

/// A titled list of entries, one of which is active, in a pane that may
/// have the focus.
pub struct List {
    title: String,
    items: Vec<ListItem>,
    active_idx: usize,
    active_style: StyleSpec,
    inactive_style: StyleSpec,
    focused: bool,
}

/// A `List` as mathematical values.
pub struct ListView {
    pub title: Seq<char>,
    pub items: Seq<ItemView>,
    pub active_idx: int,
    pub active_style: StyleSpec,
    pub inactive_style: StyleSpec,
    pub focused: bool,
}

/// The entries of a list as mathematical values.
pub open spec fn items_view(items: Seq<ListItem>) -> Seq<ItemView> {
    items.map_values(|i: ListItem| i@)
}

/// The active index points at an entry, or the list is empty and it is 0.
pub open spec fn list_wf(l: ListView) -> bool {
    ||| 0 <= l.active_idx < l.items.len()
    ||| l.items.len() == 0 && l.active_idx == 0
}

/// The index the active entry moves to on a move in `direction`: up and down
/// by one, as far as the list goes.
pub open spec fn moved_index(idx: int, len: int, direction: MoveDirection) -> int {
    match direction {
        MoveDirection::Up => if idx > 0 { idx - 1 } else { idx },
        MoveDirection::Down => if idx < len - 1 { idx + 1 } else { idx },
        _ => idx,
    }
}

/// The list after a move of the cursor in `direction`: the entry that was
/// active is drawn inactive, the one at the new index active.
pub open spec fn list_moved(l: ListView, direction: MoveDirection) -> ListView {
    let a = l.active_idx;
    let b = moved_index(a, l.items.len() as int, direction);
    let dimmed = l.items.update(a, ItemView { style: l.inactive_style, ..l.items[a] });
    ListView {
        items: dimmed.update(b, ItemView { style: l.active_style, ..dimmed[b] }),
        active_idx: b,
        ..l
    }
}

impl View for List {
    type V = ListView;

    closed spec fn view(&self) -> ListView {
        ListView {
            title: self.title@,
            items: items_view(self.items@),
            active_idx: self.active_idx as int,
            active_style: self.active_style,
            inactive_style: self.inactive_style,
            focused: self.focused,
        }
    }
}

impl List {
    /// An empty list with this title, without the focus.
    pub fn new(title: &str) -> (l: List)
        ensures
            l@.title == title@,
            l@.items == Seq::<ItemView>::empty(),
            l@.active_idx == 0,
            l@.active_style == active_style_spec(),
            l@.inactive_style == inactive_style_spec(),
            !l@.focused,
            list_wf(l@),
    {
        let l = List {
            title: title.to_owned(),
            items: Vec::new(),
            active_idx: 0,
            active_style: active_style(),
            inactive_style: inactive_style(),
            focused: false,
        };
        assert(l@.items =~= Seq::<ItemView>::empty());
        l
    }

    /// The title of the list.
    pub fn title(&self) -> (t: &str)
        ensures
            t@ == self@.title,
    {
        self.title.as_str()
    }

    /// The number of entries.
    pub fn len(&self) -> (n: usize)
        ensures
            n == self@.items.len(),
    {
        self.items.len()
    }

    /// The index of the active entry.
    pub fn active_idx(&self) -> (i: usize)
        ensures
            i == self@.active_idx,
            self@.items.len() <= usize::MAX,
    {
        proof {
            vstd::std_specs::vec::axiom_spec_len(&self.items);
        }
        self.active_idx
    }

    /// Whether the list pane has the focus.
    pub fn is_focused(&self) -> (b: bool)
        ensures
            b == self@.focused,
    {
        self.focused
    }

    /// The entry at `i`.
    pub fn item(&self, i: usize) -> (item: &ListItem)
        requires
            i < self@.items.len(),
        ensures
            item@ == self@.items[i as int],
    {
        &self.items[i]
    }

    /// Appends an entry at the end.
    pub fn push_item(&mut self, item: ListItem)
        requires
            list_wf(old(self)@),
        ensures
            final(self)@ == (ListView { items: old(self)@.items.push(item@), ..old(self)@ }),
            list_wf(final(self)@),
    {
        self.items.push(item);
        assert(items_view(self.items@) =~= old(self)@.items.push(item@));
    }

    /// Inserts an entry at `i`, moving the entries from there on one place down.
    pub fn insert_item(&mut self, i: usize, item: ListItem)
        requires
            list_wf(old(self)@),
            i <= old(self)@.items.len(),
        ensures
            final(self)@ == (ListView { items: old(self)@.items.insert(i as int, item@), ..old(self)@ }),
            list_wf(final(self)@),
    {
        self.items.insert(i, item);
        assert(items_view(self.items@) =~= old(self)@.items.insert(i as int, item@));
    }

    /// Removes the entry at `i`, moving the entries after it one place up.
    pub fn remove_item(&mut self, i: usize) -> (item: ListItem)
        requires
            i < old(self)@.items.len(),
            list_wf(ListView { items: old(self)@.items.remove(i as int), ..old(self)@ }),
        ensures
            item@ == old(self)@.items[i as int],
            final(self)@ == (ListView { items: old(self)@.items.remove(i as int), ..old(self)@ }),
    {
        let item = self.items.remove(i);
        assert(items_view(self.items@) =~= old(self)@.items.remove(i as int));
        item
    }

    /// The entry at `i`, to be changed in place.
    pub fn item_mut(&mut self, i: usize) -> (item: &mut ListItem)
        requires
            i < old(self)@.items.len(),
        ensures
            item@ == old(self)@.items[i as int],
            final(self)@.items.len() == old(self)@.items.len(),
            final(self)@.items[i as int] == final(item)@,
            forall|j: int|
                0 <= j < old(self)@.items.len() && j != i ==> #[trigger] final(self)@.items[j]
                    == old(self)@.items[j],
            final(self)@.title == old(self)@.title,
            final(self)@.active_idx == old(self)@.active_idx,
            final(self)@.active_style == old(self)@.active_style,
            final(self)@.inactive_style == old(self)@.inactive_style,
            final(self)@.focused == old(self)@.focused,
    {
        proof {
            assert(items_view(self.items@)[i as int] == self.items@[i as int]@);
        }
        &mut self.items[i]
    }
}

impl List {
    /// Draws the first entry in the active style.
    pub fn make_first_active(&mut self)
        requires
            old(self)@.items.len() > 0,
        ensures
            final(self)@ == (ListView {
                items: old(self)@.items.update(
                    0,
                    ItemView { style: old(self)@.active_style, ..old(self)@.items[0] },
                ),
                ..old(self)@
            }),
    {
        let style = self.active_style;
        self.item_mut(0).set_style(style);
        assert(self@.items =~= old(self)@.items.update(
            0,
            ItemView { style: old(self)@.active_style, ..old(self)@.items[0] },
        ));
    }

    /// Removes the `num` entries after the active one.
    pub fn remove_items(&mut self, num: usize)
        requires
            list_wf(old(self)@),
            old(self)@.active_idx + 1 + num <= old(self)@.items.len(),
        ensures
            final(self)@ == (ListView {
                items: old(self)@.items.subrange(0, old(self)@.active_idx + 1) + old(
                    self,
                )@.items.subrange(old(self)@.active_idx + 1 + num, old(self)@.items.len() as int),
                ..old(self)@
            }),
            list_wf(final(self)@),
    {
        let n = self.items.len();
        assert(n == self@.items.len());
        let start = self.active_idx + 1;
        let mut k: usize = 0;
        assert(self@.items =~= old(self)@.items.subrange(0, start as int) + old(
            self,
        )@.items.subrange(start as int, old(self)@.items.len() as int));
        while k < num
            invariant
                0 <= k <= num,
                start == old(self)@.active_idx + 1,
                start + num <= old(self)@.items.len(),
                self@ == (ListView {
                    items: old(self)@.items.subrange(0, start as int) + old(
                        self,
                    )@.items.subrange(start + k, old(self)@.items.len() as int),
                    ..old(self)@
                }),
            decreases num - k,
        {
            self.remove_item(start);
            k = k + 1;
            assert(self@.items =~= old(self)@.items.subrange(0, start as int) + old(
                self,
            )@.items.subrange(start + k, old(self)@.items.len() as int));
        }
    }

    /// Shows the statement entry at the place of the active entry.
    pub fn handle_select(&mut self)
        requires
            list_wf(old(self)@),
            old(self)@.items.len() > 0,
        ensures
            final(self)@ == (ListView {
                items: old(self)@.items.insert(old(self)@.active_idx, select_item_view()),
                ..old(self)@
            }),
            list_wf(final(self)@),
    {
        let idx = self.active_idx;
        self.insert_item(idx, ListItem::select_statement());
    }

    /// The entries as lines of styled text, in order.
    pub fn lines(&self) -> (ls: Vec<StyledText>)
        ensures
            ls@.len() == self@.items.len(),
            forall|i: int|
                0 <= i < ls@.len() ==> #[trigger] ls@[i]@.text == self@.items[i].name
                    && ls@[i]@.style == self@.items[i].style,
    {
        let mut ls: Vec<StyledText> = Vec::new();
        let mut i: usize = 0;
        while i < self.items.len()
            invariant
                i <= self.items@.len(),
                ls@.len() == i,
                forall|j: int|
                    0 <= j < i ==> #[trigger] ls@[j]@.text == self@.items[j].name && ls@[j]@.style
                        == self@.items[j].style,
            decreases self.items@.len() - i,
        {
            let l = self.items[i].line();
            ls.push(l);
            i = i + 1;
        }
        ls
    }

    /// The name of the active entry; `None` for an empty list.
    pub fn active_item_name(&self) -> (n: Option<&str>)
        requires
            list_wf(self@),
        ensures
            self@.items.len() == 0 ==> n is None,
            self@.items.len() > 0 ==> n is Some && n->0@ == self@.items[self@.active_idx].name,
    {
        if self.items.len() < 1 {
            None
        } else {
            Some(self.items[self.active_idx].name())
        }
    }

    /// The active entry, to be changed in place.
    pub fn active_item(&mut self) -> (item: &mut ListItem)
        requires
            0 <= old(self)@.active_idx < old(self)@.items.len(),
        ensures
            item@ == old(self)@.items[old(self)@.active_idx],
            final(self)@.items.len() == old(self)@.items.len(),
            final(self)@.items[old(self)@.active_idx] == final(item)@,
            forall|j: int|
                0 <= j < old(self)@.items.len() && j != old(self)@.active_idx
                    ==> #[trigger] final(self)@.items[j] == old(self)@.items[j],
            final(self)@.title == old(self)@.title,
            final(self)@.active_idx == old(self)@.active_idx,
            final(self)@.active_style == old(self)@.active_style,
            final(self)@.inactive_style == old(self)@.inactive_style,
            final(self)@.focused == old(self)@.focused,
    {
        let idx = self.active_idx;
        self.item_mut(idx)
    }

    /// Gives the list pane the focus.
    pub fn take_focus(&mut self)
        ensures
            final(self)@ == (ListView { focused: true, ..old(self)@ }),
    {
        self.focused = true;
    }

    /// Takes the focus away from the list pane.
    pub fn lose_focus(&mut self)
        ensures
            final(self)@ == (ListView { focused: false, ..old(self)@ }),
    {
        self.focused = false;
    }

    /// Moves the active entry up or down by one, as far as the list goes;
    /// left and right keep it. The entry that was active is drawn inactive,
    /// the one that is active now is drawn active.
    pub fn move_cursor(&mut self, direction: MoveDirection)
        requires
            list_wf(old(self)@),
            old(self)@.items.len() > 0,
        ensures
            final(self)@ == list_moved(old(self)@, direction),
            list_wf(final(self)@),
    {
        let a = self.active_idx;
        let inactive = self.inactive_style;
        self.item_mut(a).set_style(inactive);
        let ghost dimmed = self@.items;
        assert(dimmed =~= old(self)@.items.update(
            a as int,
            ItemView { style: old(self)@.inactive_style, ..old(self)@.items[a as int] },
        ));
        match direction {
            MoveDirection::Up => {
                if self.active_idx > 0 {
                    self.active_idx = self.active_idx - 1;
                }
            },
            MoveDirection::Down => {
                if self.active_idx < self.items.len() - 1 {
                    self.active_idx = self.active_idx + 1;
                }
            },
            _ => {},
        }
        let b = self.active_idx;
        let active = self.active_style;
        self.item_mut(b).set_style(active);
        assert(self@.items =~= dimmed.update(
            b as int,
            ItemView { style: old(self)@.active_style, ..dimmed[b as int] },
        ));
    }
}

/// A move keeps the active index in the list and draws the active entry in
/// the active style; down and then up, away from the last entry, comes back
/// to the same entry, as does up and then down away from the first.
pub proof fn lemma_list_move(l: ListView, d: MoveDirection)
    requires
        list_wf(l),
        l.items.len() > 0,
    ensures
        list_wf(list_moved(l, d)),
        list_moved(l, d).items.len() == l.items.len(),
        list_moved(l, d).items[list_moved(l, d).active_idx].style == l.active_style,
        l.active_idx < l.items.len() - 1 ==> list_moved(
            list_moved(l, MoveDirection::Down),
            MoveDirection::Up,
        ).active_idx == l.active_idx,
        l.active_idx > 0 ==> list_moved(
            list_moved(l, MoveDirection::Up),
            MoveDirection::Down,
        ).active_idx == l.active_idx,
{
}

} // verus!
