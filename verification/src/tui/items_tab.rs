use vstd::prelude::*;
use crate::tui::screens::{AppKey, KeyPress};

verus! {

/// The list of the Elden Ring item tab that holds the items.
pub const ITEMS_IDX: usize = 0;

/// The list of the item tab that holds the spawn options.
pub const OPTIONS_IDX: usize = 1;

/// The list of the item tab that holds the mass-spawn categories.
pub const MASS_SPAWN_IDX: usize = 2;

/// Who gets a key in the item tab.
#[derive(Debug, Clone, Copy, PartialEq, Eq, Structural)]
pub enum ItemTabRoute {
    /// The open prompt; on Enter its value is then taken.
    Input { submit: bool },
    /// The open search; on Enter its pick is then taken.
    Search { pick: bool },
    /// The tab's lists, then the tab's own keys.
    Tab,
}

/// What the tab's own keys do, once its lists have moved.
#[derive(Debug, Clone, Copy, PartialEq, Eq, Structural)]
pub enum ItemTabAction {
    /// Spawn the selected item with the chosen options.
    Spawn,
    /// Spawn every item of this category.
    MassSpawn(usize),
    /// Open the search over the items.
    OpenItemSearch,
    /// Ask for the value of this option.
    AskOption(usize),
}

/// Who gets a key: the prompt while it is open, else the search while it is
/// open, else the tab.
pub fn item_tab_route(input_shown: bool, search_shown: bool, key: KeyPress) -> (r: ItemTabRoute)
    ensures
        r == if input_shown {
            ItemTabRoute::Input { submit: key.key == AppKey::Enter }
        } else if search_shown {
            ItemTabRoute::Search { pick: key.key == AppKey::Enter }
        } else {
            ItemTabRoute::Tab
        },
{
    let enter = match key.key {
        AppKey::Enter => true,
        _ => false,
    };
    if input_shown {
        ItemTabRoute::Input { submit: enter }
    } else if search_shown {
        ItemTabRoute::Search { pick: enter }
    } else {
        ItemTabRoute::Tab
    }
}

/// What a key does in the tab, with `current_list` the focused list and
/// `selected` its selected row: Enter mass-spawns the selected category or
/// spawns the item, `f` opens the item search, `s` asks for the selected
/// option's value.
pub fn item_tab_action(key: KeyPress, current_list: usize, selected: Option<usize>) -> (r: Option<ItemTabAction>)
    ensures
        r == match key.key {
            AppKey::Enter => if current_list == MASS_SPAWN_IDX {
                match selected {
                    Some(i) => Some(ItemTabAction::MassSpawn(i)),
                    None => None,
                }
            } else if current_list == ITEMS_IDX || current_list == OPTIONS_IDX {
                Some(ItemTabAction::Spawn)
            } else {
                None
            },
            AppKey::Char(c) => if c == 'f' {
                Some(ItemTabAction::OpenItemSearch)
            } else if c == 's' && current_list == OPTIONS_IDX {
                match selected {
                    Some(i) => Some(ItemTabAction::AskOption(i)),
                    None => None,
                }
            } else {
                None
            },
            _ => None,
        },
{
    match key.key {
        AppKey::Enter => if current_list == MASS_SPAWN_IDX {
            match selected {
                Some(i) => Some(ItemTabAction::MassSpawn(i)),
                None => None,
            }
        } else if current_list == ITEMS_IDX || current_list == OPTIONS_IDX {
            Some(ItemTabAction::Spawn)
        } else {
            None
        },
        AppKey::Char(c) => if c == 'f' {
            Some(ItemTabAction::OpenItemSearch)
        } else if c == 's' && current_list == OPTIONS_IDX {
            match selected {
                Some(i) => Some(ItemTabAction::AskOption(i)),
                None => None,
            }
        } else {
            None
        },
        _ => None,
    }
}

} // verus!
