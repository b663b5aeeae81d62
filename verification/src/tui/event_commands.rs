use vstd::prelude::*;
use crate::decimal::{append_decimal, decimal_chars, parse_decimal, parse_result};
use crate::tui::helpers::{create_toggle_string, toggle_string};

verus! {

/// The event flags of Dark Souls II that the event commands read and set.
#[derive(Debug, Clone, Copy, PartialEq, Eq, Structural)]
pub enum EventFlag {
    VisibleAava,
    KingsRingAcquired,
    GiantLordDefeated,
    VendrickDefeated,
    UnlockAldia,
    ShadedWoodsChasmCleared,
    DrangleicCastleChasmCleared,
    BlackGulchChasmCleared,
    LoyceKnightAbandonedDwelling,
    LoyceKnightLowerGarrison,
    LoyceKnightOuterWall,
    EleumLoyceIce,
    EleumLoyceWinds,
    ActivateBrume,
}

/// The maps in which a flag is set only while the player is there.
#[derive(Debug, Clone, Copy, PartialEq, Eq, Structural)]
pub enum MapId {
    FrozenEleumLoyce,
    DarkChasmOfOld,
    BrumeTower,
}

/// Where the current state of a command is read from.
#[derive(Debug, Clone, Copy, PartialEq, Eq, Structural)]
pub enum StateSource {
    /// The event flag with this id.
    Event(u32),
    /// One flag.
    Flag(EventFlag),
    /// Two flags, read together.
    Flags(EventFlag, EventFlag),
    /// The Ivory King gauntlet skip.
    IvoryGauntletSkip,
    /// The Loyce knights switch.
    IvoryNoKnights,
}

/// One write that a command makes.
#[derive(Debug, Clone, Copy, PartialEq, Eq, Structural)]
pub enum CommandWrite {
    /// The event flag with this id.
    Event { id: u32, state: bool },
    /// A flag, set wherever the player is.
    Flag { flag: EventFlag, state: bool },
    /// A flag, set only in its map.
    AreaFlag { flag: EventFlag, state: bool, area: MapId },
    IvoryGauntletSkip { state: bool },
    IvoryNoKnights { state: bool },
}

/// The commands of the Dark Souls II event tab.
#[derive(Debug, Clone, Copy, PartialEq, Eq, Structural)]
pub enum CommandsItems {
    Event,
    VisibleAava,
    UnlockNashandra,
    UnlockAldia,
    KingsRingAcquired,
    ShadedWoodsChasmCleared,
    DrangleicCastleChasmCleared,
    BlackGulchChasmCleared,
    UndoAlsanaSeal,
    SkipIvoryGauntlet,
    DisableLoyceKnights,
    LoyceKnightOuterWall,
    LoyceKnightAbandonedDwelling,
    LoyceKnightLowerGarrison,
    ActivateBrume,
}

/// The order in which the commands are listed.
pub open spec fn commands_order() -> Seq<CommandsItems> {
    seq![
        CommandsItems::Event,
        CommandsItems::KingsRingAcquired,
        CommandsItems::UnlockNashandra,
        CommandsItems::UnlockAldia,
        CommandsItems::ShadedWoodsChasmCleared,
        CommandsItems::DrangleicCastleChasmCleared,
        CommandsItems::BlackGulchChasmCleared,
        CommandsItems::ActivateBrume,
        CommandsItems::VisibleAava,
        CommandsItems::UndoAlsanaSeal,
        CommandsItems::SkipIvoryGauntlet,
        CommandsItems::DisableLoyceKnights,
        CommandsItems::LoyceKnightOuterWall,
        CommandsItems::LoyceKnightAbandonedDwelling,
        CommandsItems::LoyceKnightLowerGarrison,
    ]
}

/// The flag of a command that switches one flag in its map, and the map.
pub open spec fn area_flag(c: CommandsItems) -> Option<(EventFlag, MapId)> {
    match c {
        CommandsItems::VisibleAava => Some((EventFlag::VisibleAava, MapId::FrozenEleumLoyce)),
        CommandsItems::ShadedWoodsChasmCleared => Some((EventFlag::ShadedWoodsChasmCleared, MapId::DarkChasmOfOld)),
        CommandsItems::DrangleicCastleChasmCleared => Some(
            (EventFlag::DrangleicCastleChasmCleared, MapId::DarkChasmOfOld),
        ),
        CommandsItems::BlackGulchChasmCleared => Some((EventFlag::BlackGulchChasmCleared, MapId::DarkChasmOfOld)),
        CommandsItems::LoyceKnightAbandonedDwelling => Some(
            (EventFlag::LoyceKnightAbandonedDwelling, MapId::FrozenEleumLoyce),
        ),
        CommandsItems::LoyceKnightLowerGarrison => Some(
            (EventFlag::LoyceKnightLowerGarrison, MapId::FrozenEleumLoyce),
        ),
        CommandsItems::LoyceKnightOuterWall => Some((EventFlag::LoyceKnightOuterWall, MapId::FrozenEleumLoyce)),
        CommandsItems::ActivateBrume => Some((EventFlag::ActivateBrume, MapId::BrumeTower)),
        _ => None,
    }
}

impl CommandsItems {
    /// What is read to know whether the command is on; `None` for the custom
    /// event while no event id is set.
    pub open spec fn spec_state_source(self, event: Option<u32>) -> Option<StateSource> {
        match self {
            CommandsItems::Event => match event {
                Some(id) => Some(StateSource::Event(id)),
                None => None,
            },
            CommandsItems::KingsRingAcquired => Some(StateSource::Flag(EventFlag::KingsRingAcquired)),
            CommandsItems::UnlockNashandra => Some(StateSource::Flag(EventFlag::GiantLordDefeated)),
            CommandsItems::UnlockAldia => Some(
                StateSource::Flags(EventFlag::VendrickDefeated, EventFlag::UnlockAldia),
            ),
            CommandsItems::UndoAlsanaSeal => Some(StateSource::Flag(EventFlag::EleumLoyceIce)),
            CommandsItems::SkipIvoryGauntlet => Some(StateSource::IvoryGauntletSkip),
            CommandsItems::DisableLoyceKnights => Some(StateSource::IvoryNoKnights),
            _ => match area_flag(self) {
                Some((flag, _)) => Some(StateSource::Flag(flag)),
                None => None,
            },
        }
    }

    /// The writes that switch the command to the opposite of its state as
    /// read (`read`, `None` when the read failed). A failed read writes
    /// nothing for the custom event and counts as "off" for the others.
    pub open spec fn spec_writes(self, event: Option<u32>, read: Option<bool>) -> Seq<CommandWrite> {
        let s = !read.unwrap_or(false);
        match self {
            CommandsItems::Event => match (event, read) {
                (Some(id), Some(current)) => seq![CommandWrite::Event { id, state: !current }],
                _ => Seq::empty(),
            },
            CommandsItems::KingsRingAcquired => seq![
                CommandWrite::Flag { flag: EventFlag::KingsRingAcquired, state: s },
            ],
            CommandsItems::UnlockNashandra => seq![
                CommandWrite::Flag { flag: EventFlag::GiantLordDefeated, state: s },
            ],
            CommandsItems::UnlockAldia => seq![
                CommandWrite::Flag { flag: EventFlag::VendrickDefeated, state: s },
                CommandWrite::Flag { flag: EventFlag::UnlockAldia, state: s },
            ],
            CommandsItems::UndoAlsanaSeal => seq![
                CommandWrite::AreaFlag { flag: EventFlag::EleumLoyceWinds, state: s, area: MapId::FrozenEleumLoyce },
                CommandWrite::AreaFlag { flag: EventFlag::EleumLoyceIce, state: s, area: MapId::FrozenEleumLoyce },
            ],
            CommandsItems::SkipIvoryGauntlet => seq![CommandWrite::IvoryGauntletSkip { state: s }],
            CommandsItems::DisableLoyceKnights => seq![CommandWrite::IvoryNoKnights { state: s }],
            _ => match area_flag(self) {
                Some((flag, area)) => seq![CommandWrite::AreaFlag { flag, state: s, area }],
                None => Seq::empty(),
            },
        }
    }

    /// The commands, in the order they are listed.
    pub fn array() -> (r: Vec<CommandsItems>)
        ensures
            r@ == commands_order(),
    {
        let r: Vec<CommandsItems> = vec![
            CommandsItems::Event,
            CommandsItems::KingsRingAcquired,
            CommandsItems::UnlockNashandra,
            CommandsItems::UnlockAldia,
            CommandsItems::ShadedWoodsChasmCleared,
            CommandsItems::DrangleicCastleChasmCleared,
            CommandsItems::BlackGulchChasmCleared,
            CommandsItems::ActivateBrume,
            CommandsItems::VisibleAava,
            CommandsItems::UndoAlsanaSeal,
            CommandsItems::SkipIvoryGauntlet,
            CommandsItems::DisableLoyceKnights,
            CommandsItems::LoyceKnightOuterWall,
            CommandsItems::LoyceKnightAbandonedDwelling,
            CommandsItems::LoyceKnightLowerGarrison,
        ];
        assert(r@ =~= commands_order());
        r
    }

    fn area_flag_of(&self) -> (r: Option<(EventFlag, MapId)>)
        ensures
            r == area_flag(*self),
    {
        match self {
            CommandsItems::VisibleAava => Some((EventFlag::VisibleAava, MapId::FrozenEleumLoyce)),
            CommandsItems::ShadedWoodsChasmCleared => Some((EventFlag::ShadedWoodsChasmCleared, MapId::DarkChasmOfOld)),
            CommandsItems::DrangleicCastleChasmCleared => Some(
                (EventFlag::DrangleicCastleChasmCleared, MapId::DarkChasmOfOld),
            ),
            CommandsItems::BlackGulchChasmCleared => Some((EventFlag::BlackGulchChasmCleared, MapId::DarkChasmOfOld)),
            CommandsItems::LoyceKnightAbandonedDwelling => Some(
                (EventFlag::LoyceKnightAbandonedDwelling, MapId::FrozenEleumLoyce),
            ),
            CommandsItems::LoyceKnightLowerGarrison => Some(
                (EventFlag::LoyceKnightLowerGarrison, MapId::FrozenEleumLoyce),
            ),
            CommandsItems::LoyceKnightOuterWall => Some((EventFlag::LoyceKnightOuterWall, MapId::FrozenEleumLoyce)),
            CommandsItems::ActivateBrume => Some((EventFlag::ActivateBrume, MapId::BrumeTower)),
            _ => None,
        }
    }

    /// What is read to know whether the command is on.
    pub fn state_source(&self, event: Option<u32>) -> (r: Option<StateSource>)
        ensures
            r == self.spec_state_source(event),
    {
        match self {
            CommandsItems::Event => match event {
                Some(id) => Some(StateSource::Event(id)),
                None => None,
            },
            CommandsItems::KingsRingAcquired => Some(StateSource::Flag(EventFlag::KingsRingAcquired)),
            CommandsItems::UnlockNashandra => Some(StateSource::Flag(EventFlag::GiantLordDefeated)),
            CommandsItems::UnlockAldia => Some(
                StateSource::Flags(EventFlag::VendrickDefeated, EventFlag::UnlockAldia),
            ),
            CommandsItems::UndoAlsanaSeal => Some(StateSource::Flag(EventFlag::EleumLoyceIce)),
            CommandsItems::SkipIvoryGauntlet => Some(StateSource::IvoryGauntletSkip),
            CommandsItems::DisableLoyceKnights => Some(StateSource::IvoryNoKnights),
            _ => match self.area_flag_of() {
                Some((flag, _)) => Some(StateSource::Flag(flag)),
                None => None,
            },
        }
    }

    /// Runs the command: the writes that switch it to the opposite of what
    /// was read from its state source (`read`, `None` when that read
    /// failed). The custom event does nothing while no event id is set or
    /// when its flag could not be read; for the other commands a failed read
    /// counts as "off".
    pub fn execute(&self, event: Option<u32>, read: Option<bool>) -> (r: Vec<CommandWrite>)
        ensures
            r@ == self.spec_writes(event, read),
    {
        let s = match read {
            Some(current) => !current,
            None => true,
        };
        let mut r: Vec<CommandWrite> = Vec::new();
        match self {
            CommandsItems::Event => {
                if let (Some(id), Some(current)) = (event, read) {
                    r.push(CommandWrite::Event { id, state: !current });
                }
            },
            CommandsItems::KingsRingAcquired => {
                r.push(CommandWrite::Flag { flag: EventFlag::KingsRingAcquired, state: s });
            },
            CommandsItems::UnlockNashandra => {
                r.push(CommandWrite::Flag { flag: EventFlag::GiantLordDefeated, state: s });
            },
            CommandsItems::UnlockAldia => {
                r.push(CommandWrite::Flag { flag: EventFlag::VendrickDefeated, state: s });
                r.push(CommandWrite::Flag { flag: EventFlag::UnlockAldia, state: s });
            },
            CommandsItems::UndoAlsanaSeal => {
                r.push(
                    CommandWrite::AreaFlag {
                        flag: EventFlag::EleumLoyceWinds,
                        state: s,
                        area: MapId::FrozenEleumLoyce,
                    },
                );
                r.push(
                    CommandWrite::AreaFlag { flag: EventFlag::EleumLoyceIce, state: s, area: MapId::FrozenEleumLoyce },
                );
            },
            CommandsItems::SkipIvoryGauntlet => {
                r.push(CommandWrite::IvoryGauntletSkip { state: s });
            },
            CommandsItems::DisableLoyceKnights => {
                r.push(CommandWrite::IvoryNoKnights { state: s });
            },
            _ => {
                if let Some((flag, area)) = self.area_flag_of() {
                    r.push(CommandWrite::AreaFlag { flag, state: s, area });
                }
            },
        }
        assert(r@ =~= self.spec_writes(event, read));
        r
    }

    /// The name of the command in the list.
    pub open spec fn spec_label(self, event: Option<u32>) -> Seq<char> {
        match self {
            CommandsItems::Event => "Event Flag ("@ + match event {
                Some(id) => decimal_chars(id as nat),
                None => Seq::empty(),
            } + ")"@,
            CommandsItems::VisibleAava => "Visible Aava"@,
            CommandsItems::KingsRingAcquired => "King's Ring Acquired"@,
            CommandsItems::UnlockNashandra => "Unlock Nashandra"@,
            CommandsItems::UnlockAldia => "Unlock Aldia"@,
            CommandsItems::ShadedWoodsChasmCleared => "Dark Chasm Lit (Shaded Woods)"@,
            CommandsItems::DrangleicCastleChasmCleared => "Dark Chasm Lit (Drangleic Castle)"@,
            CommandsItems::BlackGulchChasmCleared => "Dark Chasm Lit (Black Gulch)"@,
            CommandsItems::LoyceKnightAbandonedDwelling => "Free Loyce Knight (Abandoned Dwelling)"@,
            CommandsItems::LoyceKnightLowerGarrison => "Free Loyce Knight (Lower Garrison)"@,
            CommandsItems::LoyceKnightOuterWall => "Free Loyce Knight (Outer Wall)"@,
            CommandsItems::UndoAlsanaSeal => "Undo Alsana's Seal"@,
            CommandsItems::SkipIvoryGauntlet => "Skip Ivory King Gauntlet"@,
            CommandsItems::DisableLoyceKnights => "Disable Loyce Knights"@,
            CommandsItems::ActivateBrume => "Activate Brume Tower"@,
        }
    }

    /// The line of the command in the list: its name as a toggle in the
    /// state `state`.
    pub fn to_list_item(&self, event: Option<u32>, state: bool) -> (r: String)
        ensures
            r@ == toggle_string(self.spec_label(event), state),
    {
        let label = match self {
            CommandsItems::Event => {
                let mut l = String::from_str("Event Flag (");
                if let Some(id) = event {
                    append_decimal(&mut l, id);
                }
                l.append(")");
                l
            },
            CommandsItems::VisibleAava => String::from_str("Visible Aava"),
            CommandsItems::KingsRingAcquired => String::from_str("King's Ring Acquired"),
            CommandsItems::UnlockNashandra => String::from_str("Unlock Nashandra"),
            CommandsItems::UnlockAldia => String::from_str("Unlock Aldia"),
            CommandsItems::ShadedWoodsChasmCleared => String::from_str("Dark Chasm Lit (Shaded Woods)"),
            CommandsItems::DrangleicCastleChasmCleared => String::from_str("Dark Chasm Lit (Drangleic Castle)"),
            CommandsItems::BlackGulchChasmCleared => String::from_str("Dark Chasm Lit (Black Gulch)"),
            CommandsItems::LoyceKnightAbandonedDwelling => String::from_str("Free Loyce Knight (Abandoned Dwelling)"),
            CommandsItems::LoyceKnightLowerGarrison => String::from_str("Free Loyce Knight (Lower Garrison)"),
            CommandsItems::LoyceKnightOuterWall => String::from_str("Free Loyce Knight (Outer Wall)"),
            CommandsItems::UndoAlsanaSeal => String::from_str("Undo Alsana's Seal"),
            CommandsItems::SkipIvoryGauntlet => String::from_str("Skip Ivory King Gauntlet"),
            CommandsItems::DisableLoyceKnights => String::from_str("Disable Loyce Knights"),
            CommandsItems::ActivateBrume => String::from_str("Activate Brume Tower"),
        };
        proof {
            assert(label@ =~= self.spec_label(event));
        }
        create_toggle_string(label.as_str(), state)
    }
}

/// The state that a command's write stores.
pub open spec fn write_state(w: CommandWrite) -> bool {
    match w {
        CommandWrite::Event { state, .. } => state,
        CommandWrite::Flag { state, .. } => state,
        CommandWrite::AreaFlag { state, .. } => state,
        CommandWrite::IvoryGauntletSkip { state } => state,
        CommandWrite::IvoryNoKnights { state } => state,
    }
}

/// Whether a write stores into what a state source reads.
pub open spec fn writes_source(w: CommandWrite, src: StateSource) -> bool {
    match (w, src) {
        (CommandWrite::Event { id, .. }, StateSource::Event(e)) => id == e,
        (CommandWrite::Flag { flag, .. }, StateSource::Flag(f)) => flag == f,
        (CommandWrite::AreaFlag { flag, .. }, StateSource::Flag(f)) => flag == f,
        (CommandWrite::Flag { flag, .. }, StateSource::Flags(f, g)) => flag == f || flag == g,
        (CommandWrite::AreaFlag { flag, .. }, StateSource::Flags(f, g)) => flag == f || flag == g,
        (CommandWrite::IvoryGauntletSkip { .. }, StateSource::IvoryGauntletSkip) => true,
        (CommandWrite::IvoryNoKnights { .. }, StateSource::IvoryNoKnights) => true,
        _ => false,
    }
}

/// Running a command flips it: when its state reads `b`, every write stores
/// `!b`, and when the read failed every write stores `true`. A command with
/// a state source writes at least once when its state was read, and one of
/// its writes stores into what its state is read from, so reading it again
/// gives the flipped state.
pub proof fn lemma_execute_flips(c: CommandsItems, event: Option<u32>, read: Option<bool>)
    ensures
        forall|i: int|
            0 <= i < c.spec_writes(event, read).len() ==> write_state(#[trigger] c.spec_writes(event, read)[i])
                == !read.unwrap_or(false),
        read is Some ==> (c.spec_state_source(event) matches Some(src) ==> exists|i: int|
            0 <= i < c.spec_writes(event, read).len() && writes_source(
                #[trigger] c.spec_writes(event, read)[i],
                src,
            )),
{
    let ws = c.spec_writes(event, read);
    if let Some(src) = c.spec_state_source(event) {
        if read is Some {
            if c == CommandsItems::UndoAlsanaSeal || c == CommandsItems::UnlockAldia {
                assert(writes_source(ws[1], src));
            } else {
                assert(writes_source(ws[0], src));
            }
        }
    }
}

/// The custom event id after text was entered for it: the number the text
/// spells, none for empty text, and otherwise the id as it was.
pub open spec fn event_after_input(text: Seq<char>, current: Option<u32>) -> Option<u32> {
    match parse_result::<u32>(text) {
        Some(n) => Some(n as u32),
        None => if text.len() == 0 {
            None
        } else {
            current
        },
    }
}

/// Sets the custom event id from entered text.
pub fn set_event_input(text: &str, current: Option<u32>) -> (r: Option<u32>)
    ensures
        r == event_after_input(text@, current),
{
    match parse_decimal::<u32>(text) {
        Some(v) => Some(v),
        None => if text.unicode_len() == 0 {
            None
        } else {
            current
        },
    }
}

/// The commands of the Elden Ring event tab.
#[derive(Debug, Clone, Copy, PartialEq, Eq, Structural)]
pub enum ErCommandsItems {
    Event,
    FightFortissax,
    FightEldenBeast,
    UnlockMetyr,
    DlcClear,
}

/// What an Elden Ring command does.
#[derive(Debug, Clone, Copy, PartialEq, Eq, Structural)]
pub enum ErCommandAction {
    SetEvent { id: u32, state: bool },
    FightFortissax,
    FightEldenBeast,
    UnlockMetyr,
    SetDlcClear { state: bool },
}

/// The Elden Ring commands listed: the last two need the expansion.
pub open spec fn er_commands_order(dlc: bool) -> Seq<ErCommandsItems> {
    let base = seq![ErCommandsItems::Event, ErCommandsItems::FightFortissax, ErCommandsItems::FightEldenBeast];
    if dlc {
        base + seq![ErCommandsItems::UnlockMetyr, ErCommandsItems::DlcClear]
    } else {
        base
    }
}

impl ErCommandsItems {
    /// The commands listed, with or without the expansion.
    pub fn array(dlc: bool) -> (r: Vec<ErCommandsItems>)
        ensures
            r@ == er_commands_order(dlc),
    {
        let mut r: Vec<ErCommandsItems> = vec![
            ErCommandsItems::Event,
            ErCommandsItems::FightFortissax,
            ErCommandsItems::FightEldenBeast,
        ];
        if dlc {
            r.push(ErCommandsItems::UnlockMetyr);
            r.push(ErCommandsItems::DlcClear);
        }
        assert(r@ =~= er_commands_order(dlc));
        r
    }

    /// Runs the command: the toggles go to the opposite of what was read
    /// (`read`, `None` when the read failed, which counts as "off"); the
    /// custom event does nothing while no event id is set.
    pub fn execute(&self, event: Option<u32>, read: Option<bool>) -> (r: Option<ErCommandAction>)
        ensures
            r == match *self {
                ErCommandsItems::Event => match event {
                    Some(id) => Some(ErCommandAction::SetEvent { id, state: !read.unwrap_or(false) }),
                    None => None,
                },
                ErCommandsItems::FightFortissax => Some(ErCommandAction::FightFortissax),
                ErCommandsItems::FightEldenBeast => Some(ErCommandAction::FightEldenBeast),
                ErCommandsItems::UnlockMetyr => Some(ErCommandAction::UnlockMetyr),
                ErCommandsItems::DlcClear => Some(ErCommandAction::SetDlcClear { state: !read.unwrap_or(false) }),
            },
    {
        let current = match read {
            Some(c) => c,
            None => false,
        };
        match self {
            ErCommandsItems::Event => match event {
                Some(id) => Some(ErCommandAction::SetEvent { id, state: !current }),
                None => None,
            },
            ErCommandsItems::FightFortissax => Some(ErCommandAction::FightFortissax),
            ErCommandsItems::FightEldenBeast => Some(ErCommandAction::FightEldenBeast),
            ErCommandsItems::UnlockMetyr => Some(ErCommandAction::UnlockMetyr),
            ErCommandsItems::DlcClear => Some(ErCommandAction::SetDlcClear { state: !current }),
        }
    }
}

} // verus!
