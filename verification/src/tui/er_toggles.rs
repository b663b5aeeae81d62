use vstd::prelude::*;
use crate::tui::helpers::{create_toggle_string, toggle_string};

verus! {

/// The switches of the Elden Ring player tab.
#[derive(Debug, Clone, Copy, PartialEq, Eq, Structural)]
pub enum ErTogglesItems {
    NoDeath,
    NoDamage,
    InfinitePoise,
    SetRfbsOnLoad,
    OneShot,
    RuneArc,
    Silent,
    Hidden,
    InfiniteStamina,
    InfiniteFp,
    InfiniteConsumables,
    InfiniteArrows,
    TorrentAnywhere,
    TorrentNoDeath,
}

/// The character debug flags of Elden Ring that the toggles set.
#[derive(Debug, Clone, Copy, PartialEq, Eq, Structural)]
pub enum ChrDbgFlag {
    PlayerNoDeath,
    OneShot,
    InfiniteStam,
    InfiniteFp,
    InfiniteGoods,
    Hidden,
    Silent,
    InfiniteArrows,
}

/// The game state flags of Elden Ring that the toggles set.
#[derive(Debug, Clone, Copy, PartialEq, Eq, Structural)]
pub enum ErStateFlag {
    PlayerNoDamage,
    Rfbs,
    RuneArc,
    TorrentNoDeath,
}

/// One write that switching an Elden Ring toggle makes.
#[derive(Debug, Clone, Copy, PartialEq, Eq, Structural)]
pub enum ErToggleWrite {
    ChrDbg { dbg_flag: ChrDbgFlag, state: bool },
    StateFlag { flag: ErStateFlag, state: bool },
    PlayerNoDamage(bool),
    InfinitePoise(bool),
    PlayerRuneArc(bool),
    TorrentNoDeath(bool),
    TorrentAnywhere(bool),
}

/// The toggles listed, in order.
pub open spec fn er_toggles_order() -> Seq<ErTogglesItems> {
    seq![
        ErTogglesItems::NoDeath,
        ErTogglesItems::NoDamage,
        ErTogglesItems::InfinitePoise,
        ErTogglesItems::OneShot,
        ErTogglesItems::RuneArc,
        ErTogglesItems::SetRfbsOnLoad,
        ErTogglesItems::Silent,
        ErTogglesItems::Hidden,
        ErTogglesItems::InfiniteStamina,
        ErTogglesItems::InfiniteFp,
        ErTogglesItems::InfiniteConsumables,
        ErTogglesItems::InfiniteArrows,
        ErTogglesItems::TorrentAnywhere,
        ErTogglesItems::TorrentNoDeath,
    ]
}

/// The debug flag behind a toggle, for the toggles that are one.
pub open spec fn chr_dbg_flag(t: ErTogglesItems) -> Option<ChrDbgFlag> {
    match t {
        ErTogglesItems::NoDeath => Some(ChrDbgFlag::PlayerNoDeath),
        ErTogglesItems::OneShot => Some(ChrDbgFlag::OneShot),
        ErTogglesItems::InfiniteStamina => Some(ChrDbgFlag::InfiniteStam),
        ErTogglesItems::InfiniteFp => Some(ChrDbgFlag::InfiniteFp),
        ErTogglesItems::InfiniteConsumables => Some(ChrDbgFlag::InfiniteGoods),
        ErTogglesItems::Hidden => Some(ChrDbgFlag::Hidden),
        ErTogglesItems::Silent => Some(ChrDbgFlag::Silent),
        ErTogglesItems::InfiniteArrows => Some(ChrDbgFlag::InfiniteArrows),
        _ => None,
    }
}

/// Whether a toggle is on, from its reads: `read` is its own state (`None`
/// when the read failed, which counts as off); the rune arc is on when the
/// character's stats (`read`) or the state flag (`second`) say so.
pub open spec fn er_toggle_state(t: ErTogglesItems, read: Option<bool>, second: Option<bool>) -> bool {
    if t == ErTogglesItems::RuneArc {
        read.unwrap_or(false) || second.unwrap_or(false)
    } else {
        read.unwrap_or(false)
    }
}

/// The writes that switch a toggle to the opposite of its state. No damage
/// also sets the character's flag, the rune arc the character's arc, and
/// torrent no death flips the horse's own flag, read as `second`.
pub open spec fn er_toggle_writes(t: ErTogglesItems, read: Option<bool>, second: Option<bool>) -> Seq<
    ErToggleWrite,
> {
    let s = !er_toggle_state(t, read, second);
    match chr_dbg_flag(t) {
        Some(flag) => seq![ErToggleWrite::ChrDbg { dbg_flag: flag, state: s }],
        None => match t {
            ErTogglesItems::NoDamage => seq![
                ErToggleWrite::StateFlag { flag: ErStateFlag::PlayerNoDamage, state: s },
                ErToggleWrite::PlayerNoDamage(s),
            ],
            ErTogglesItems::SetRfbsOnLoad => seq![ErToggleWrite::StateFlag { flag: ErStateFlag::Rfbs, state: s }],
            ErTogglesItems::InfinitePoise => seq![ErToggleWrite::InfinitePoise(s)],
            ErTogglesItems::RuneArc => seq![
                ErToggleWrite::StateFlag { flag: ErStateFlag::RuneArc, state: s },
                ErToggleWrite::PlayerRuneArc(s),
            ],
            ErTogglesItems::TorrentNoDeath => seq![
                ErToggleWrite::StateFlag { flag: ErStateFlag::TorrentNoDeath, state: s },
                ErToggleWrite::TorrentNoDeath(!second.unwrap_or(false)),
            ],
            _ => seq![ErToggleWrite::TorrentAnywhere(s)],
        },
    }
}

impl ErTogglesItems {
    /// The toggles, in the order they are listed.
    pub fn array() -> (r: Vec<ErTogglesItems>)
        ensures
            r@ == er_toggles_order(),
    {
        let r: Vec<ErTogglesItems> = vec![
            ErTogglesItems::NoDeath,
            ErTogglesItems::NoDamage,
            ErTogglesItems::InfinitePoise,
            ErTogglesItems::OneShot,
            ErTogglesItems::RuneArc,
            ErTogglesItems::SetRfbsOnLoad,
            ErTogglesItems::Silent,
            ErTogglesItems::Hidden,
            ErTogglesItems::InfiniteStamina,
            ErTogglesItems::InfiniteFp,
            ErTogglesItems::InfiniteConsumables,
            ErTogglesItems::InfiniteArrows,
            ErTogglesItems::TorrentAnywhere,
            ErTogglesItems::TorrentNoDeath,
        ];
        assert(r@ =~= er_toggles_order());
        r
    }

    /// Whether the toggle is on, from its reads.
    pub fn state(&self, read: Option<bool>, second: Option<bool>) -> (r: bool)
        ensures
            r == er_toggle_state(*self, read, second),
    {
        let own = match read {
            Some(b) => b,
            None => false,
        };
        match self {
            ErTogglesItems::RuneArc => own || match second {
                Some(b) => b,
                None => false,
            },
            _ => own,
        }
    }

    /// Switches the toggle to the opposite of its state, as read.
    pub fn execute(&self, read: Option<bool>, second: Option<bool>) -> (r: Vec<ErToggleWrite>)
        ensures
            r@ == er_toggle_writes(*self, read, second),
    {
        let s = !self.state(read, second);
        let mut r: Vec<ErToggleWrite> = Vec::new();
        match self {
            ErTogglesItems::NoDeath => r.push(ErToggleWrite::ChrDbg { dbg_flag: ChrDbgFlag::PlayerNoDeath, state: s }),
            ErTogglesItems::OneShot => r.push(ErToggleWrite::ChrDbg { dbg_flag: ChrDbgFlag::OneShot, state: s }),
            ErTogglesItems::InfiniteStamina => r.push(
                ErToggleWrite::ChrDbg { dbg_flag: ChrDbgFlag::InfiniteStam, state: s },
            ),
            ErTogglesItems::InfiniteFp => r.push(ErToggleWrite::ChrDbg { dbg_flag: ChrDbgFlag::InfiniteFp, state: s }),
            ErTogglesItems::InfiniteConsumables => r.push(
                ErToggleWrite::ChrDbg { dbg_flag: ChrDbgFlag::InfiniteGoods, state: s },
            ),
            ErTogglesItems::Hidden => r.push(ErToggleWrite::ChrDbg { dbg_flag: ChrDbgFlag::Hidden, state: s }),
            ErTogglesItems::Silent => r.push(ErToggleWrite::ChrDbg { dbg_flag: ChrDbgFlag::Silent, state: s }),
            ErTogglesItems::InfiniteArrows => r.push(
                ErToggleWrite::ChrDbg { dbg_flag: ChrDbgFlag::InfiniteArrows, state: s },
            ),
            ErTogglesItems::NoDamage => {
                r.push(ErToggleWrite::StateFlag { flag: ErStateFlag::PlayerNoDamage, state: s });
                r.push(ErToggleWrite::PlayerNoDamage(s));
            },
            ErTogglesItems::SetRfbsOnLoad => r.push(ErToggleWrite::StateFlag { flag: ErStateFlag::Rfbs, state: s }),
            ErTogglesItems::InfinitePoise => r.push(ErToggleWrite::InfinitePoise(s)),
            ErTogglesItems::RuneArc => {
                r.push(ErToggleWrite::StateFlag { flag: ErStateFlag::RuneArc, state: s });
                r.push(ErToggleWrite::PlayerRuneArc(s));
            },
            ErTogglesItems::TorrentNoDeath => {
                r.push(ErToggleWrite::StateFlag { flag: ErStateFlag::TorrentNoDeath, state: s });
                let horse = match second {
                    Some(b) => b,
                    None => false,
                };
                r.push(ErToggleWrite::TorrentNoDeath(!horse));
            },
            ErTogglesItems::TorrentAnywhere => r.push(ErToggleWrite::TorrentAnywhere(s)),
        }
        assert(r@ =~= er_toggle_writes(*self, read, second));
        r
    }

    /// The name of the toggle in the list.
    pub open spec fn spec_label(self) -> Seq<char> {
        match self {
            ErTogglesItems::NoDeath => "No Death"@,
            ErTogglesItems::NoDamage => "No Damage"@,
            ErTogglesItems::SetRfbsOnLoad => "Set RFBS on load"@,
            ErTogglesItems::InfinitePoise => "Infinite Poise"@,
            ErTogglesItems::OneShot => "One Shot"@,
            ErTogglesItems::RuneArc => "Rune Arc"@,
            ErTogglesItems::InfiniteStamina => "Infinite Stamina"@,
            ErTogglesItems::InfiniteFp => "Infinite FP"@,
            ErTogglesItems::InfiniteConsumables => "Infinite Consumables"@,
            ErTogglesItems::Silent => "Silent"@,
            ErTogglesItems::Hidden => "Hidden"@,
            ErTogglesItems::InfiniteArrows => "Infinite Arrows"@,
            ErTogglesItems::TorrentNoDeath => "Torrent No Death"@,
            ErTogglesItems::TorrentAnywhere => "Torrent Anywhere"@,
        }
    }

    /// The line of the toggle in the list, in the state `state`.
    pub fn to_list_item(&self, state: bool) -> (r: String)
        ensures
            r@ == toggle_string(self.spec_label(), state),
    {
        let label = match self {
            ErTogglesItems::NoDeath => "No Death",
            ErTogglesItems::NoDamage => "No Damage",
            ErTogglesItems::SetRfbsOnLoad => "Set RFBS on load",
            ErTogglesItems::InfinitePoise => "Infinite Poise",
            ErTogglesItems::OneShot => "One Shot",
            ErTogglesItems::RuneArc => "Rune Arc",
            ErTogglesItems::InfiniteStamina => "Infinite Stamina",
            ErTogglesItems::InfiniteFp => "Infinite FP",
            ErTogglesItems::InfiniteConsumables => "Infinite Consumables",
            ErTogglesItems::Silent => "Silent",
            ErTogglesItems::Hidden => "Hidden",
            ErTogglesItems::InfiniteArrows => "Infinite Arrows",
            ErTogglesItems::TorrentNoDeath => "Torrent No Death",
            ErTogglesItems::TorrentAnywhere => "Torrent Anywhere",
        };
        create_toggle_string(label, state)
    }
}

} // verus!
