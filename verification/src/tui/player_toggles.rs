use vstd::prelude::*;
use crate::tui::helpers::{create_toggle_string, toggle_string};

verus! {

/// The switches of the Dark Souls II player tab.
#[derive(Debug, Clone, Copy, PartialEq, Eq, Structural)]
pub enum TogglesItems {
    NoDeath,
    NoDamage,
    InfinitePoise,
    InfiniteStamina,
    InfiniteConsumables,
    NoHollowing,
    InfiniteDurability,
    NoSoulGain,
    NoSoulLoss,
    Hidden,
    Silent,
}

/// One write that switching a toggle makes.
#[derive(Debug, Clone, Copy, PartialEq, Eq, Structural)]
pub enum ToggleWrite {
    /// The game's no-death state flag.
    NoDeathStateFlag(bool),
    /// The no-death flag of the player's character.
    PlayerNoDeath(bool),
    /// The player setting that the toggle names.
    Player { toggle: TogglesItems, state: bool },
}

/// The toggles listed, in order; the soul gain switch is not listed.
pub open spec fn toggles_order() -> Seq<TogglesItems> {
    seq![
        TogglesItems::NoDeath,
        TogglesItems::NoDamage,
        TogglesItems::InfinitePoise,
        TogglesItems::InfiniteStamina,
        TogglesItems::InfiniteDurability,
        TogglesItems::InfiniteConsumables,
        TogglesItems::NoHollowing,
        TogglesItems::NoSoulLoss,
        TogglesItems::Hidden,
        TogglesItems::Silent,
    ]
}

impl TogglesItems {
    /// The toggles, in the order they are listed.
    pub fn array() -> (r: Vec<TogglesItems>)
        ensures
            r@ == toggles_order(),
    {
        let r: Vec<TogglesItems> = vec![
            TogglesItems::NoDeath,
            TogglesItems::NoDamage,
            TogglesItems::InfinitePoise,
            TogglesItems::InfiniteStamina,
            TogglesItems::InfiniteDurability,
            TogglesItems::InfiniteConsumables,
            TogglesItems::NoHollowing,
            TogglesItems::NoSoulLoss,
            TogglesItems::Hidden,
            TogglesItems::Silent,
        ];
        assert(r@ =~= toggles_order());
        r
    }

    /// Switches the toggle from `current` to the opposite: no death sets the
    /// state flag and then the character's flag; the others their setting.
    pub fn execute(&self, current: bool) -> (r: Vec<ToggleWrite>)
        ensures
            r@ == if *self == TogglesItems::NoDeath {
                seq![ToggleWrite::NoDeathStateFlag(!current), ToggleWrite::PlayerNoDeath(!current)]
            } else {
                seq![ToggleWrite::Player { toggle: *self, state: !current }]
            },
    {
        let new_state = !current;
        let mut r: Vec<ToggleWrite> = Vec::new();
        match self {
            TogglesItems::NoDeath => {
                r.push(ToggleWrite::NoDeathStateFlag(new_state));
                r.push(ToggleWrite::PlayerNoDeath(new_state));
            },
            _ => {
                r.push(ToggleWrite::Player { toggle: *self, state: new_state });
            },
        }
        assert(r@ =~= if *self == TogglesItems::NoDeath {
            seq![ToggleWrite::NoDeathStateFlag(!current), ToggleWrite::PlayerNoDeath(!current)]
        } else {
            seq![ToggleWrite::Player { toggle: *self, state: !current }]
        });
        r
    }

    /// The name of the toggle in the list.
    pub open spec fn spec_label(self) -> Seq<char> {
        match self {
            TogglesItems::NoDeath => "No Death"@,
            TogglesItems::NoDamage => "No Damage"@,
            TogglesItems::InfinitePoise => "Infinite Poise"@,
            TogglesItems::InfiniteStamina => "Infinite Stamina"@,
            TogglesItems::InfiniteConsumables => "Infinite Consumables"@,
            TogglesItems::NoHollowing => "No Hollowing"@,
            TogglesItems::InfiniteDurability => "Infinite Durability"@,
            TogglesItems::NoSoulGain => "No Soul Gain"@,
            TogglesItems::NoSoulLoss => "No Soul Loss"@,
            TogglesItems::Hidden => "Hidden"@,
            TogglesItems::Silent => "Silent"@,
        }
    }

    /// The line of the toggle in the list, in the state `state`.
    pub fn to_list_item(&self, state: bool) -> (r: String)
        ensures
            r@ == toggle_string(self.spec_label(), state),
    {
        let label = match self {
            TogglesItems::NoDeath => "No Death",
            TogglesItems::NoDamage => "No Damage",
            TogglesItems::InfinitePoise => "Infinite Poise",
            TogglesItems::InfiniteStamina => "Infinite Stamina",
            TogglesItems::InfiniteConsumables => "Infinite Consumables",
            TogglesItems::NoHollowing => "No Hollowing",
            TogglesItems::InfiniteDurability => "Infinite Durability",
            TogglesItems::NoSoulGain => "No Soul Gain",
            TogglesItems::NoSoulLoss => "No Soul Loss",
            TogglesItems::Hidden => "Hidden",
            TogglesItems::Silent => "Silent",
        };
        create_toggle_string(label, state)
    }
}

} // verus!
