use vstd::prelude::*;
use crate::list::{
    ItemType, ItemView, List, ListItem, ListView, list_wf, select_item_view,
};
use crate::styles::{active_style_spec, inactive_style_spec, inactive_style};

verus! {

/// The entry of a table name in the tables list: dark gray, collapsed.
pub open spec fn table_item_view(name: String) -> ItemView {
    ItemView { name: name@, style: inactive_style_spec(), item_type: ItemType::Table, expanded: false }
}

/// The list of the tables of the database, each one an entry that can be
/// expanded to show a statement under it.
pub struct Tables {
    pub list: List,
}

/// The list after the active entry is expanded or collapsed: a collapsed
/// entry gets the statement entry right after it and is marked expanded; an
/// expanded one loses the entry after it and is marked collapsed.
pub open spec fn expand_toggled(l: ListView) -> ListView {
    let a = l.active_idx;
    if !l.items[a].expanded {
        let ins = l.items.insert(a + 1, select_item_view());
        ListView { items: ins.update(a, ItemView { expanded: true, ..ins[a] }), ..l }
    } else {
        let rem = l.items.remove(a + 1);
        ListView { items: rem.update(a, ItemView { expanded: false, ..rem[a] }), ..l }
    }
}

/// When the active entry can be expanded or collapsed: the list is well
/// formed and not empty, and an expanded entry has an entry after it.
pub open spec fn can_toggle(l: ListView) -> bool {
    &&& list_wf(l)
    &&& l.items.len() > 0
    &&& l.items[l.active_idx].expanded ==> l.active_idx + 1 < l.items.len()
}

impl Tables {
    /// The list titled "tables" with one dark gray entry per table name, in
    /// order, the first one drawn active.
    pub fn new(table_names: Vec<String>) -> (t: Tables)
        requires
            table_names@.len() > 0,
        ensures
            t.list@.title == "tables"@,
            t.list@.items.len() == table_names@.len(),
            t.list@.items[0] == (ItemView { style: active_style_spec(), ..table_item_view(table_names@[0]) }),
            forall|i: int|
                1 <= i < table_names@.len() ==> #[trigger] t.list@.items[i] == table_item_view(
                    table_names@[i],
                ),
            t.list@.active_idx == 0,
            !t.list@.focused,
            list_wf(t.list@),
    {
        let mut list = List::new("tables");
        let mut i: usize = 0;
        while i < table_names.len()
            invariant
                i <= table_names@.len(),
                list@.title == "tables"@,
                list@.items.len() == i,
                forall|j: int| 0 <= j < i ==> #[trigger] list@.items[j] == table_item_view(table_names@[j]),
                list@.active_idx == 0,
                list@.active_style == active_style_spec(),
                !list@.focused,
                list_wf(list@),
            decreases table_names@.len() - i,
        {
            let name = table_names[i].clone();
            list.push_item(ListItem::new(name, inactive_style(), ItemType::Table));
            i = i + 1;
        }
        list.make_first_active();
        Tables { list }
    }

    /// Expands the active table to show the statement entry after it, or
    /// collapses it if it is expanded.
    pub fn expand_focused(&mut self)
        requires
            can_toggle(old(self).list@),
        ensures
            final(self).list@ == expand_toggled(old(self).list@),
            list_wf(final(self).list@),
    {
        let active_idx = self.list.active_idx();
        let ghost l0 = self.list@;
        if !self.list.item(active_idx).is_expanded() {
            self.list.insert_item(active_idx + 1, ListItem::select_statement());
            self.list.item_mut(active_idx).set_expanded();
            assert(self.list@.items =~= expand_toggled(l0).items);
        } else {
            self.list.remove_item(active_idx + 1);
            self.list.item_mut(active_idx).set_collapsed();
            assert(self.list@.items =~= expand_toggled(l0).items);
        }
    }
}

/// Expanding a collapsed table and then collapsing it gives back the list
/// as it was.
pub proof fn lemma_expand_collapse(l: ListView)
    requires
        list_wf(l),
        l.items.len() > 0,
        !l.items[l.active_idx].expanded,
    ensures
        can_toggle(expand_toggled(l)),
        expand_toggled(expand_toggled(l)) == l,
{
    let a = l.active_idx;
    let once = expand_toggled(l);
    assert(once.items[a].expanded);
    let twice = expand_toggled(once);
    assert(twice.items =~= l.items);
}

/// Collapsing an expanded table and then expanding it gives back the list
/// as it was, when the entry after it is the statement entry.
pub proof fn lemma_collapse_expand(l: ListView)
    requires
        can_toggle(l),
        l.items[l.active_idx].expanded,
        l.items[l.active_idx + 1] == select_item_view(),
    ensures
        can_toggle(expand_toggled(l)),
        expand_toggled(expand_toggled(l)) == l,
{
    let a = l.active_idx;
    let once = expand_toggled(l);
    assert(!once.items[a].expanded);
    let twice = expand_toggled(once);
    assert(twice.items =~= l.items);
}

} // verus!
