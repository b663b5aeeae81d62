use gubtool::cli::{Cli, CliAction, Commands, OnOff};
use gubtool::config::ds2_attach::{Ds2Attach, Ds2AttachAction};
use gubtool::decimal::parse_decimal;
use gubtool::tui::helpers::create_toggle_string;
use gubtool::tui::input_prompt::{InputPrompt, PromptKey, PromptType};
use gubtool::tui::memory_viewer_screen::{MemoryViewerScreen, NavKey, ViewerStep};
use gubtool::tui::screens::{next_screen, quits, shortcut_screen, AppKey, CurrentScreen, KeyPress};
use gubtool::tui::stats::{ErStatWrite, Ds2Stats, PlayerStats, StatWrite, Stats, StatsItems};
use gubtool::tui::theme::ThemeState;

#[test]
fn on_off_into_bool() {
    assert!(bool::from(OnOff::On));
    assert!(!bool::from(OnOff::Off));
    let b: bool = OnOff::Off.into();
    assert!(!b);
}

#[test]
fn cli_dispatch() {
    assert_eq!(Cli { command: None }.action(), CliAction::OpenInterface);
    assert_eq!(
        Cli { command: Some(Commands::KillTarget) }.action(),
        CliAction::AttachAndRun(Commands::KillTarget)
    );
}

#[test]
fn attach_preferences_in_order() {
    assert!(Ds2Attach::default().apply().is_empty());
    let prefs = Ds2Attach { no_death: true, ivory_skip: false, skip_credits: true, fast_quitout: true };
    assert_eq!(
        prefs.apply(),
        vec![Ds2AttachAction::PlayerNoDeath, Ds2AttachAction::CreditsSkip, Ds2AttachAction::FastQuitout]
    );
}

#[test]
fn decimal_parsing_matches_std() {
    let cases = ["0", "255", "256", "+7", "-7", "-", "+", "", " 1", "1 ", "007", "-0", "12a", "٣"];
    for c in cases {
        assert_eq!(parse_decimal::<u8>(c), c.parse::<u8>().ok(), "u8 {c:?}");
        assert_eq!(parse_decimal::<i32>(c), c.parse::<i32>().ok(), "i32 {c:?}");
        assert_eq!(parse_decimal::<u64>(c), c.parse::<u64>().ok(), "u64 {c:?}");
    }
    let big = ["2147483647", "2147483648", "-2147483648", "-2147483649", "18446744073709551615",
        "18446744073709551616", "99999999999999999999999999", "-9223372036854775808",
        "9223372036854775807", "9223372036854775808"];
    for c in big {
        assert_eq!(parse_decimal::<i32>(c), c.parse::<i32>().ok(), "i32 {c:?}");
        assert_eq!(parse_decimal::<i64>(c), c.parse::<i64>().ok(), "i64 {c:?}");
        assert_eq!(parse_decimal::<u32>(c), c.parse::<u32>().ok(), "u32 {c:?}");
        assert_eq!(parse_decimal::<u64>(c), c.parse::<u64>().ok(), "u64 {c:?}");
    }
}

#[test]
fn toggle_labels() {
    assert_eq!(create_toggle_string("No Death", true), "[X] No Death");
    assert_eq!(create_toggle_string("Silent", false), "[ ] Silent");
}

#[test]
fn prompt_lifecycle() {
    let mut p: InputPrompt<u8> = InputPrompt::new();
    assert!(!p.show);
    p.show("Set Stat", PromptType::I32, 3);
    assert!(p.show);
    assert_eq!(p.last_request, Some(3));
    assert_eq!(p.text(), "");
    p.set_text("-42".to_string());
    assert_eq!(p.parse_text::<i32>(), Some(-42));
    assert_eq!(p.parse_text::<u32>(), None);
    assert_eq!(p.can_input_be_parsed_from_type(), Some(true));
    assert!(!p.handle_keys(PromptKey::Other));
    assert!(p.show);
    assert!(p.handle_keys(PromptKey::Enter));
    assert!(!p.show);
    assert_eq!(p.text(), "-42");
    p.show("Speed", PromptType::F32, 4);
    assert_eq!(p.can_input_be_parsed_from_type(), None);
    assert!(p.handle_keys(PromptKey::Esc));
}

#[test]
fn screen_shortcuts() {
    let key = |c: char| KeyPress { key: AppKey::Char(c), control: false };
    assert_eq!(shortcut_screen(key('a')), Some(CurrentScreen::AttachOptions));
    assert_eq!(shortcut_screen(key('x')), None);
    assert_eq!(
        shortcut_screen(KeyPress { key: AppKey::F(12), control: true }),
        Some(CurrentScreen::Debug)
    );
    assert_eq!(
        shortcut_screen(KeyPress { key: AppKey::F(12), control: false }),
        Some(CurrentScreen::ThemeSelection)
    );
    assert_eq!(next_screen(CurrentScreen::Help, key('x')), CurrentScreen::Game);
    assert_eq!(next_screen(CurrentScreen::Help, key('p')), CurrentScreen::ProcessSelection);
    assert_eq!(next_screen(CurrentScreen::Search, key('x')), CurrentScreen::Search);
    assert_eq!(
        next_screen(CurrentScreen::Search, KeyPress { key: AppKey::Esc, control: false }),
        CurrentScreen::Game
    );
    assert_eq!(next_screen(CurrentScreen::ThemeSelection, key('x')), CurrentScreen::ThemeSelection);
    assert!(quits(KeyPress { key: AppKey::Char('c'), control: true }));
    assert!(!quits(key('c')));
}

#[test]
fn ds2_stats_rows() {
    let order = StatsItems::array();
    assert_eq!(order.len(), 9);
    assert_eq!(order[6], StatsItems::Adaptability);
    let stats = Ds2Stats {
        vigor: 10, endurance: 0, vitality: 5, attunement: 1, strength: 65535,
        dexterity: 3, adaptability: 4, intelligence: 6, faith: 7,
    };
    assert_eq!(StatsItems::Vigor.increment_stat(&stats, 1), StatWrite { stat: StatsItems::Vigor, value: 11 });
    assert_eq!(StatsItems::Endurance.increment_stat(&stats, -1).value, 0);
    assert_eq!(StatsItems::Strength.increment_stat(&stats, 1).value, 65535);
    assert_eq!(StatsItems::Faith.set_stat(99), StatWrite { stat: StatsItems::Faith, value: 99 });
}

#[test]
fn er_stats_rows() {
    assert_eq!(Stats::array(false).len(), 8);
    let with_dlc = Stats::array(true);
    assert_eq!(with_dlc.len(), 10);
    assert_eq!(with_dlc[8], Stats::Scadutree);
    let stats = PlayerStats {
        vigor: 40, mind: 20, endurance: 30, strength: 12, dexterity: 12, intelligence: 9,
        faith: 9, arcane: 7, scadutree: 255, spirit_ash: 3, rune_memory: 5,
    };
    assert_eq!(Stats::Vigor.increment_stat(&stats, 2), ErStatWrite::Attribute { stat: Stats::Vigor, value: 42 });
    assert_eq!(Stats::Scadutree.increment_stat(&stats, 1), ErStatWrite::Blessing { stat: Stats::Scadutree, level: 0 });
    assert_eq!(Stats::RuneMem.increment_stat(&stats, 1), ErStatWrite::Nothing);
    assert_eq!(Stats::SpiritAsh.set_stat(260), ErStatWrite::Blessing { stat: Stats::SpiritAsh, level: 4 });
}

#[test]
fn theme_versions() {
    let mut t = ThemeState::new();
    assert_eq!(t.get_theme_version(), 0);
    t.set_theme();
    t.set_theme();
    assert_eq!(t.get_theme_version(), 2);
}

#[test]
fn memory_viewer_layout_and_moves() {
    let mut s = MemoryViewerScreen::new();
    assert_eq!(s.current_row(10), None);
    s.update_width_and_heigth(47, 4);
    assert_eq!(s.current_row(33), Some(2));
    assert!(!s.past_bottom(63));
    assert!(s.past_bottom(64));
    assert_eq!(s.navigate(NavKey::Right, 5), vec![ViewerStep::Highlight(1)]);
    assert_eq!(s.navigate(NavKey::Left, 0), vec![ViewerStep::Base(-16), ViewerStep::Highlight(-1)]);
    assert_eq!(s.navigate(NavKey::Down, 48), vec![ViewerStep::Base(16), ViewerStep::Highlight(16)]);
    assert_eq!(s.navigate(NavKey::Down, 47), vec![ViewerStep::Highlight(16)]);
    assert_eq!(s.navigate(NavKey::Up, 15), vec![ViewerStep::Base(-16), ViewerStep::Highlight(-16)]);
    assert_eq!(s.scroll_after_jump(100), Some((6 - 4 + 3) * 16));
    assert_eq!(s.scroll_after_jump(60), None);
    assert!(!s.handle_help_keys(true));
    assert!(s.handle_help_keys(false));
}

use gubtool::tui::memory_viewer_screen::{input_request, viewer_command, ViewerCommand};

#[test]
fn memory_viewer_keys() {
    let plain = |c: char| KeyPress { key: AppKey::Char(c), control: false };
    let ctrl = |c: char| KeyPress { key: AppKey::Char(c), control: true };
    assert_eq!(viewer_command(plain('j')), Some(ViewerCommand::Navigate(NavKey::Down)));
    assert_eq!(viewer_command(ctrl('y')), Some(ViewerCommand::CopyAbsoluteAddress));
    assert_eq!(viewer_command(plain('y')), Some(ViewerCommand::CopyRelativeAddress));
    assert_eq!(viewer_command(plain('q')), Some(ViewerCommand::WriteQword));
    assert_eq!(viewer_command(ctrl('q')), Some(ViewerCommand::CopyQword));
    assert_eq!(viewer_command(plain('r')), None);
    assert_eq!(viewer_command(ctrl('r')), Some(ViewerCommand::RedoJump));
    assert_eq!(viewer_command(KeyPress { key: AppKey::Enter, control: false }), Some(ViewerCommand::WriteByte));
    assert_eq!(input_request(ViewerCommand::WriteByte), Some(("Write byte", PromptType::U8)));
    assert_eq!(input_request(ViewerCommand::IncrementSelected), Some(("Increment selected", PromptType::I64)));
    assert_eq!(input_request(ViewerCommand::UndoJump), None);
}
