use gubtool::decimal::append_decimal;
use gubtool::tui::event_commands::{
    set_event_input, CommandWrite, CommandsItems, ErCommandAction, ErCommandsItems, EventFlag, MapId,
    StateSource,
};

#[test]
fn commands_listed_in_order() {
    let all = CommandsItems::array();
    assert_eq!(all.len(), 15);
    assert_eq!(all[0], CommandsItems::Event);
    assert_eq!(all[7], CommandsItems::ActivateBrume);
    assert_eq!(all[14], CommandsItems::LoyceKnightLowerGarrison);
}

#[test]
fn custom_event_toggles_its_flag() {
    assert_eq!(CommandsItems::Event.state_source(Some(1234)), Some(StateSource::Event(1234)));
    assert_eq!(CommandsItems::Event.state_source(None), None);
    assert_eq!(
        CommandsItems::Event.execute(Some(1234), Some(true)),
        vec![CommandWrite::Event { id: 1234, state: false }]
    );
    assert!(CommandsItems::Event.execute(None, Some(true)).is_empty());
    assert!(CommandsItems::Event.execute(Some(1234), None).is_empty());
}

#[test]
fn aldia_sets_both_flags() {
    assert_eq!(
        CommandsItems::UnlockAldia.state_source(None),
        Some(StateSource::Flags(EventFlag::VendrickDefeated, EventFlag::UnlockAldia))
    );
    assert_eq!(
        CommandsItems::UnlockAldia.execute(None, Some(false)),
        vec![
            CommandWrite::Flag { flag: EventFlag::VendrickDefeated, state: true },
            CommandWrite::Flag { flag: EventFlag::UnlockAldia, state: true },
        ]
    );
}

#[test]
fn alsana_seal_reads_ice_writes_winds_and_ice() {
    assert_eq!(
        CommandsItems::UndoAlsanaSeal.state_source(None),
        Some(StateSource::Flag(EventFlag::EleumLoyceIce))
    );
    assert_eq!(
        CommandsItems::UndoAlsanaSeal.execute(None, Some(true)),
        vec![
            CommandWrite::AreaFlag { flag: EventFlag::EleumLoyceWinds, state: false, area: MapId::FrozenEleumLoyce },
            CommandWrite::AreaFlag { flag: EventFlag::EleumLoyceIce, state: false, area: MapId::FrozenEleumLoyce },
        ]
    );
}

#[test]
fn area_commands() {
    assert_eq!(
        CommandsItems::ActivateBrume.execute(None, None),
        vec![CommandWrite::AreaFlag { flag: EventFlag::ActivateBrume, state: true, area: MapId::BrumeTower }]
    );
    assert_eq!(
        CommandsItems::BlackGulchChasmCleared.execute(None, Some(false)),
        vec![CommandWrite::AreaFlag {
            flag: EventFlag::BlackGulchChasmCleared,
            state: true,
            area: MapId::DarkChasmOfOld
        }]
    );
    assert_eq!(
        CommandsItems::SkipIvoryGauntlet.execute(None, Some(true)),
        vec![CommandWrite::IvoryGauntletSkip { state: false }]
    );
}

#[test]
fn labels() {
    assert_eq!(CommandsItems::Event.to_list_item(Some(90), true), "[X] Event Flag (90)");
    assert_eq!(CommandsItems::Event.to_list_item(None, false), "[ ] Event Flag ()");
    assert_eq!(CommandsItems::UndoAlsanaSeal.to_list_item(None, false), "[ ] Undo Alsana's Seal");
}

#[test]
fn decimal_text() {
    for v in [0u32, 7, 10, 90, 1234, 4_294_967_295] {
        let mut s = String::from("x");
        append_decimal(&mut s, v);
        assert_eq!(s, format!("x{v}"));
    }
}

#[test]
fn event_input() {
    assert_eq!(set_event_input("42", Some(7)), Some(42));
    assert_eq!(set_event_input("", Some(7)), None);
    assert_eq!(set_event_input("abc", Some(7)), Some(7));
    assert_eq!(set_event_input("-1", None), None);
}

#[test]
fn er_commands() {
    assert_eq!(ErCommandsItems::array(false).len(), 3);
    assert_eq!(ErCommandsItems::array(true)[4], ErCommandsItems::DlcClear);
    assert_eq!(
        ErCommandsItems::Event.execute(Some(5), None),
        Some(ErCommandAction::SetEvent { id: 5, state: true })
    );
    assert_eq!(ErCommandsItems::Event.execute(None, Some(false)), None);
    assert_eq!(ErCommandsItems::DlcClear.execute(None, Some(true)), Some(ErCommandAction::SetDlcClear { state: false }));
    assert_eq!(ErCommandsItems::UnlockMetyr.execute(None, Some(true)), Some(ErCommandAction::UnlockMetyr));
}

use gubtool::tui::player_toggles::{ToggleWrite, TogglesItems};

#[test]
fn player_toggles() {
    let all = TogglesItems::array();
    assert_eq!(all.len(), 10);
    assert!(!all.contains(&TogglesItems::NoSoulGain));
    assert_eq!(all[4], TogglesItems::InfiniteDurability);
    assert_eq!(
        TogglesItems::NoDeath.execute(false),
        vec![ToggleWrite::NoDeathStateFlag(true), ToggleWrite::PlayerNoDeath(true)]
    );
    assert_eq!(
        TogglesItems::Hidden.execute(true),
        vec![ToggleWrite::Player { toggle: TogglesItems::Hidden, state: false }]
    );
    assert_eq!(TogglesItems::NoHollowing.to_list_item(true), "[X] No Hollowing");
}
