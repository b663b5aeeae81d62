use gubtool::aob_scanner::{after_read, after_search, AobScan, ProcessError, ScanError, ScanMode, ScanPhase};
use gubtool::attached::parse::{read_fixed_product_version, report_version_read};
use gubtool::attached::process_manager::ProcessManager;
use gubtool::attached::{AddressSize, GameProcess, ParseError, ParsePeError, ParseState, PeFindError};
use gubtool::config::ds2_attach::{ApplyStep, Ds2Attach, Ds2AttachAction};
use gubtool::event_log::export_line;
use gubtool::game_version::{EldenRingVersion, GameVersion};
use gubtool::tui::er_toggles::{ChrDbgFlag, ErStateFlag, ErToggleWrite, ErTogglesItems};
use gubtool::tui::items_tab::{item_tab_action, item_tab_route, ItemTabAction, ItemTabRoute, MASS_SPAWN_IDX, OPTIONS_IDX};
use gubtool::tui::memory_viewer_screen::{MemoryViewerScreen, NavKey, ViewerCommand, ViewerKeyOutcome, ViewerStep};
use gubtool::tui::screens::{handle_keys, AppKey, AppKeyState, KeyPress, KeyRoute};

fn scan(mode: ScanMode, offset: isize) -> AobScan {
    AobScan { name: "target", pattern: "48 8B", scan_origin: 0, offset, scan_mode: mode }
}

fn version_resource(major: u16, minor: u16, patch: u16) -> Vec<u8> {
    let mut r = vec![0u8; 92];
    r[0] = 92;
    r[2] = 52;
    for (i, c) in "VS_VERSION_INFO".bytes().enumerate() {
        r[6 + 2 * i] = c;
    }
    r[40..44].copy_from_slice(&[0xBD, 0x04, 0xEF, 0xFE]);
    r[56..58].copy_from_slice(&minor.to_le_bytes());
    r[58..60].copy_from_slice(&major.to_le_bytes());
    r[62..64].copy_from_slice(&patch.to_le_bytes());
    r
}

#[test]
fn version_reports() {
    assert_eq!(report_version_read(Ok(version_resource(1, 0, 3))).ok(), Some((1, 0, 3)));
    assert!(matches!(
        report_version_read(Ok(vec![0u8; 10])),
        Err(ParseError::ParsePe { error: ParsePeError::PeError(PeFindError::NoFixedFileInfo) })
    ));
    assert!(matches!(
        report_version_read(Err(PeFindError::PeMagic)),
        Err(ParseError::ParsePe { error: ParsePeError::PeError(PeFindError::PeMagic) })
    ));
}

#[test]
fn fixed_product_version_fields() {
    let r = version_resource(1, 2, 0x0304);
    assert_eq!(read_fixed_product_version(&r), Some((1, 2, 0x0304)));
    let mut bad_sig = r.clone();
    bad_sig[43] = 0;
    assert_eq!(read_fixed_product_version(&bad_sig), None);
    let mut bad_key = r.clone();
    bad_key[6] = b'X';
    assert_eq!(read_fixed_product_version(&bad_key), None);
    let mut short_len = r.clone();
    short_len[0] = 91;
    assert_eq!(read_fixed_product_version(&short_len), None);
    let mut long_len = r.clone();
    long_len[0] = 93;
    assert_eq!(read_fixed_product_version(&long_len), None);
    let mut bad_value_len = r.clone();
    bad_value_len[2] = 0;
    assert_eq!(read_fixed_product_version(&bad_value_len), None);
    assert_eq!(read_fixed_product_version(&r[..91]), None);
    let mut longer = r.clone();
    longer.extend_from_slice(&[0u8; 8]);
    longer[0] = 100;
    assert_eq!(read_fixed_product_version(&longer), Some((1, 2, 0x0304)));
}

#[test]
fn scan_after_search() {
    assert!(matches!(
        after_search(&scan(ScanMode::Absolute, 0), None, 0x1000),
        ScanPhase::Done(Err(ScanError::NotFound { scan_name: "target" }))
    ));
    assert!(matches!(after_search(&scan(ScanMode::Absolute, 4), Some(0x1500), 0x1000), ScanPhase::Done(Ok(0x504))));
    assert!(matches!(after_search(&scan(ScanMode::Absolute, 0), Some(0x500), 0x1000), ScanPhase::Done(Ok(0))));
    assert!(matches!(after_search(&scan(ScanMode::Direct32, -2), Some(0x1500), 0x1000), ScanPhase::ReadAt(0x14FE)));
    assert!(matches!(
        after_search(&scan(ScanMode::Absolute, -5), Some(3), 0),
        ScanPhase::Done(Err(ScanError::Overflow))
    ));
}

#[test]
fn scan_after_read() {
    assert_eq!(after_read(0x1000, &ScanMode::Direct32, Ok(0x2000), 0x1000).unwrap(), 0x1000);
    assert_eq!(after_read(0x1500, &ScanMode::Relative(4), Ok(0x10), 0x1000).unwrap(), 0x514);
    assert!(matches!(
        after_read(0x1500, &ScanMode::Direct32, Err(ProcessError { address: 0x1500 }), 0x1000),
        Err(ScanError::ProcessError { err: ProcessError { address: 0x1500 } })
    ));
}

#[test]
fn apply_stops_at_first_error() {
    let prefs = Ds2Attach { no_death: true, ivory_skip: true, skip_credits: false, fast_quitout: true };
    assert!(matches!(prefs.apply_step::<String>(0, None), ApplyStep::Run(Ds2AttachAction::PlayerNoDeath)));
    assert!(matches!(prefs.apply_step::<String>(1, Some(Ok(()))), ApplyStep::Run(Ds2AttachAction::IvorySkip)));
    assert!(matches!(prefs.apply_step::<String>(2, Some(Ok(()))), ApplyStep::Run(Ds2AttachAction::FastQuitout)));
    assert!(matches!(prefs.apply_step::<String>(3, Some(Ok(()))), ApplyStep::Finished(Ok(()))));
    match prefs.apply_step(2, Some(Err("no".to_string()))) {
        ApplyStep::Finished(Err(e)) => assert_eq!(e, "no"),
        _ => panic!("expected the error"),
    }
    assert!(matches!(Ds2Attach::default().apply_step::<String>(0, None), ApplyStep::Finished(Ok(()))));
}

#[test]
fn input_line_routing() {
    let state = |show_input: bool| AppKeyState {
        running: true,
        show_err: true,
        show_input,
        input_text: "12".to_string(),
    };
    let (s, r) = handle_keys(state(true), KeyPress { key: AppKey::Enter, control: false });
    assert!(matches!(r, KeyRoute::SubmitInput(ref t) if t == "12"));
    assert!(!s.show_input && s.input_text.is_empty() && !s.show_err && s.running);
    let (s, r) = handle_keys(state(true), KeyPress { key: AppKey::Esc, control: false });
    assert!(matches!(r, KeyRoute::CancelInput));
    assert!(!s.show_input && s.input_text.is_empty());
    let (s, r) = handle_keys(state(true), KeyPress { key: AppKey::Char('a'), control: false });
    assert!(matches!(r, KeyRoute::EditInput));
    assert!(s.show_input && s.input_text == "12");
    let (s, r) = handle_keys(state(true), KeyPress { key: AppKey::Char('c'), control: true });
    assert!(matches!(r, KeyRoute::EditInput));
    assert!(!s.running);
    let (s, r) = handle_keys(state(false), KeyPress { key: AppKey::Char('a'), control: false });
    assert!(matches!(r, KeyRoute::Dispatch));
    assert!(s.running);
}

#[test]
fn export_lines() {
    assert_eq!(export_line("12:30:05", 4650, true), "12:30:05 4650       TRUE");
    assert_eq!(export_line("00:00:00", 4_294_967_295, false), "00:00:00 4294967295 FALSE");
    assert_eq!(export_line("x", 7, false), format!("x {:<10} {}", 7, false.to_string().to_uppercase()));
}

#[test]
fn er_toggles() {
    assert_eq!(ErTogglesItems::array().len(), 14);
    assert_eq!(
        ErTogglesItems::NoDeath.execute(None, None),
        vec![ErToggleWrite::ChrDbg { dbg_flag: ChrDbgFlag::PlayerNoDeath, state: true }]
    );
    assert_eq!(
        ErTogglesItems::RuneArc.execute(Some(false), Some(true)),
        vec![
            ErToggleWrite::StateFlag { flag: ErStateFlag::RuneArc, state: false },
            ErToggleWrite::PlayerRuneArc(false),
        ]
    );
    assert_eq!(
        ErTogglesItems::TorrentNoDeath.execute(Some(true), Some(true)),
        vec![
            ErToggleWrite::StateFlag { flag: ErStateFlag::TorrentNoDeath, state: false },
            ErToggleWrite::TorrentNoDeath(false),
        ]
    );
    assert!(ErTogglesItems::RuneArc.state(None, Some(true)));
    assert_eq!(ErTogglesItems::InfiniteFp.to_list_item(true), "[X] Infinite FP");
}

#[test]
fn item_tab_keys() {
    let enter = KeyPress { key: AppKey::Enter, control: false };
    assert_eq!(item_tab_route(true, true, enter), ItemTabRoute::Input { submit: true });
    assert_eq!(item_tab_route(false, true, enter), ItemTabRoute::Search { pick: true });
    assert_eq!(item_tab_route(false, false, enter), ItemTabRoute::Tab);
    assert_eq!(item_tab_action(enter, MASS_SPAWN_IDX, Some(3)), Some(ItemTabAction::MassSpawn(3)));
    assert_eq!(item_tab_action(enter, 0, None), Some(ItemTabAction::Spawn));
    let s = KeyPress { key: AppKey::Char('s'), control: false };
    assert_eq!(item_tab_action(s, OPTIONS_IDX, Some(1)), Some(ItemTabAction::AskOption(1)));
    assert_eq!(item_tab_action(s, 0, Some(1)), None);
}

#[test]
fn memory_viewer_handler() {
    let mut v = MemoryViewerScreen::new();
    v.update_width_and_heigth(47, 4);
    let f1 = KeyPress { key: AppKey::F(1), control: false };
    assert!(matches!(v.handle_keys(f1, 0), ViewerKeyOutcome::Nothing));
    let esc = KeyPress { key: AppKey::Esc, control: false };
    assert!(matches!(v.handle_keys(esc, 0), ViewerKeyOutcome::HelpClosed));
    assert!(matches!(v.handle_keys(esc, 0), ViewerKeyOutcome::Run(ViewerCommand::Close)));
    match v.handle_keys(KeyPress { key: AppKey::Char('h'), control: false }, 0) {
        ViewerKeyOutcome::Move(steps) => assert_eq!(steps, vec![ViewerStep::Base(-16), ViewerStep::Highlight(-1)]),
        _ => panic!("expected a move"),
    }
    let _ = NavKey::Up;
}

fn process(pid: u32) -> GameProcess {
    GameProcess {
        pid,
        game_version: GameVersion::EldenRing(EldenRingVersion::Version2_6_1),
        comm: "eldenring.exe".to_string(),
        exe_path: String::new(),
        module_base: 0,
        address_size: AddressSize::Bits64,
        parse_state: ParseState::Valid,
    }
}

#[test]
fn refresh_adds_new_and_drops_stopped() {
    let mut pm = ProcessManager::new();
    let listing = vec![(10, "eldenring.exe".to_string()), (11, "eldenring.exe".to_string())];
    pm.refresh(&listing, vec![process(10), process(11)], &vec![true, true]);
    assert_eq!(pm.valid_processes().iter().map(|p| p.pid).collect::<Vec<_>>(), vec![10, 11]);
    let listing = vec![(11, "eldenring.exe".to_string()), (12, "eldenring.exe".to_string())];
    pm.refresh(&listing, vec![process(12)], &vec![false, true, true]);
    assert_eq!(pm.valid_processes().iter().map(|p| p.pid).collect::<Vec<_>>(), vec![11, 12]);
}

#[test]
fn memory_viewer_scroll_after_right() {
    let mut screen = MemoryViewerScreen::new();
    assert_eq!(screen.scroll_after_right(100), None);
    screen.update_width_and_heigth(47, 4);
    // 16 bytes a row, 4 rows shown: offsets 0..64 are on screen.
    assert_eq!(screen.scroll_after_right(63), None);
    assert_eq!(screen.scroll_after_right(64), Some(16));
    assert_eq!(screen.scroll_after_right(200), Some(16));
}

#[test]
fn refresh_keeps_candidate_names() {
    let mut pm = ProcessManager::new();
    let listing = vec![(20, "DarkSoulsII.exe".to_string()), (21, "bash".to_string()), (22, "start_protected".to_string())];
    let candidates = pm.new_candidates(&listing);
    assert_eq!(candidates.iter().map(|c| (c.1, c.2.clone())).collect::<Vec<_>>(),
        vec![(20, "DarkSoulsII.exe".to_string()), (22, "start_protected".to_string())]);
    let parsed: Vec<GameProcess> = candidates.iter().map(|c| { let mut p = process(c.1); p.comm = c.2.clone(); p }).collect();
    pm.refresh(&listing, parsed, &vec![true, true]);
    assert_eq!(pm.valid_processes().iter().map(|p| p.comm.clone()).collect::<Vec<_>>(),
        vec!["DarkSoulsII.exe".to_string(), "start_protected".to_string()]);
}
