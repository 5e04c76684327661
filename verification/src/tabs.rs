use vstd::prelude::*;
use crate::list::{ItemType, ItemView, List, ListItem, list_wf};
use crate::styles::{active_style_spec, inactive_style_spec, inactive_style};

verus! {

/// The name of the editor tab.
pub open spec fn editor_tab_name() -> Seq<char> {
    " editor "@
}

/// The name of the tables tab.
pub open spec fn tables_tab_name() -> Seq<char> {
    " tables "@
}

/// The tab bar on the side: an untitled list of the editor and tables tabs.
pub struct SideTabs {
    pub list: List,
}

impl SideTabs {
    /// The editor tab, drawn active, above the tables tab, drawn dark gray.
    pub fn new() -> (t: SideTabs)
        ensures
            t.list@.title == Seq::<char>::empty(),
            t.list@.items == seq![
                ItemView { name: editor_tab_name(), style: active_style_spec(), item_type: ItemType::Tab, expanded: false },
                ItemView { name: tables_tab_name(), style: inactive_style_spec(), item_type: ItemType::Tab, expanded: false },
            ],
            t.list@.active_idx == 0,
            !t.list@.focused,
            list_wf(t.list@),
    {
        proof {
            reveal_strlit("");
            reveal_strlit(" editor ");
            reveal_strlit(" tables ");
        }
        let mut list = List::new("");
        let editor = ListItem::new(" editor ".to_owned(), inactive_style(), ItemType::Tab);
        let tables = ListItem::new(" tables ".to_owned(), inactive_style(), ItemType::Tab);
        list.push_item(editor);
        list.push_item(tables);
        list.make_first_active();
        let t = SideTabs { list };
        assert(t.list@.items =~= seq![
            ItemView { name: editor_tab_name(), style: active_style_spec(), item_type: ItemType::Tab, expanded: false },
            ItemView { name: tables_tab_name(), style: inactive_style_spec(), item_type: ItemType::Tab, expanded: false },
        ]);
        t
    }

    /// The name of the active tab, which is the tables tab or the editor tab.
    pub fn active_tab(&self) -> (name: &str)
        requires
            list_wf(self.list@),
            self.list@.items.len() > 0,
            self.list@.items[self.list@.active_idx].name == tables_tab_name()
                || self.list@.items[self.list@.active_idx].name == editor_tab_name(),
        ensures
            name@ == self.list@.items[self.list@.active_idx].name,
    {
        proof {
            reveal_strlit(" editor ");
            reveal_strlit(" tables ");
        }
        let idx = self.list.active_idx();
        if self.list.item(idx).name_is(" tables ") {
            " tables "
        } else {
            " editor "
        }
    }
}

} // verus!
