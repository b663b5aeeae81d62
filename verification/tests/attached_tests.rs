use gubtool::attached::darksouls2_parse::{self, DEFAULT_BASE_32, DEFAULT_BASE_64};
use gubtool::attached::eldenring_parse;
use gubtool::attached::parse::{
    match_eldenring, match_scholar, match_vanilla, parse_file_for_version_and_address_size,
    pe_version_32, pe_version_64, str_equals, valid_comm_game,
};
use gubtool::attached::process_manager::ProcessManager;
use gubtool::attached::singleton;
use gubtool::attached::{
    auto_attach, attach_to_process, parse_state_of, AddressSize, AttachError, GameProcess,
    ParseError, ParsePeError, ParseState, PeFindError,
};
use gubtool::game_version::{DarkSouls2Version, EldenRingVersion, Game, GameVersion};

fn magic() -> ParseError {
    ParseError::ParsePe { error: ParsePeError::PeError(PeFindError::PeMagic) }
}

fn process(pid: u32, valid: bool) -> GameProcess {
    GameProcess {
        pid,
        game_version: GameVersion::EldenRing(EldenRingVersion::Version2_6_1),
        comm: "eldenring.exe".to_string(),
        exe_path: "/games/eldenring.exe".to_string(),
        module_base: 0x1_4000_0000,
        address_size: AddressSize::Bits64,
        parse_state: if valid {
            ParseState::Valid
        } else {
            ParseState::Invalid(vec![ParseError::MatchProductVersion { product_version: (9, 9, 9) }])
        },
    }
}

#[test]
fn version_tables() {
    assert!(matches!(match_vanilla((1, 0, 6)), Ok(DarkSouls2Version::Vanilla1_0_5)));
    assert!(matches!(match_vanilla((1, 0, 12)), Ok(DarkSouls2Version::Vanilla1_0_12)));
    assert!(matches!(match_scholar((1, 0, 3)), Ok(DarkSouls2Version::Scholar1_0_3)));
    assert!(matches!(
        match_scholar((1, 0, 9)),
        Err(ParseError::MatchProductVersion { product_version: (1, 0, 9) })
    ));
    assert!(matches!(match_eldenring((2, 6, 2)), Ok(EldenRingVersion::Version2_6_2)));
    assert!(matches!(match_eldenring((2, 1, 0)), Err(ParseError::MatchProductVersion { .. })));
    assert_eq!(darksouls2_parse::match_vanilla_version((1, 0, 11)).ok(), Some(DarkSouls2Version::Vanilla1_0_11));
    assert_eq!(darksouls2_parse::match_scholar_version((1, 0, 2)).ok(), Some(DarkSouls2Version::Scholar1_0_2));
    assert_eq!(eldenring_parse::match_version((1, 2, 0)).ok(), Some(EldenRingVersion::Version1_2_0));
}

#[test]
fn process_names() {
    assert_eq!(valid_comm_game("eldenring.exe"), Some(Game::EldenRing));
    assert_eq!(valid_comm_game("start_protected_game.exe"), Some(Game::EldenRing));
    assert_eq!(valid_comm_game("DarkSoulsII.exe"), Some(Game::DarkSouls2));
    assert_eq!(valid_comm_game("darksoulsii.exe"), None);
    assert!(str_equals("abc", "abc"));
    assert!(!str_equals("abc", "abd"));
}

#[test]
fn not_a_pe_image() {
    assert!(matches!(pe_version_64(&[0u8; 64]), Err(ParseError::ParsePe { .. })));
    assert!(matches!(pe_version_32(&[1u8, 2, 3]), Err(ParseError::ParsePe { .. })));
}

#[test]
fn file_of_a_32_bit_game() {
    let (size, version, state) =
        parse_file_for_version_and_address_size(&Game::DarkSouls2, Err(magic()), Ok((1, 0, 12)), vec![]);
    assert_eq!(size, AddressSize::Bits32);
    assert_eq!(version, GameVersion::DarkSouls2(DarkSouls2Version::Vanilla1_0_12));
    assert!(matches!(state, ParseState::Valid));
}

#[test]
fn file_with_unknown_version() {
    let (size, version, state) =
        parse_file_for_version_and_address_size(&Game::EldenRing, Ok((3, 0, 0)), Err(magic()), vec![]);
    assert_eq!(size, AddressSize::Bits64);
    assert_eq!(version, GameVersion::EldenRing(EldenRingVersion::VersionUnknown));
    match state {
        ParseState::Invalid(errors) => {
            assert_eq!(errors.len(), 1);
            assert!(matches!(errors[0], ParseError::MatchProductVersion { product_version: (3, 0, 0) }));
        }
        ParseState::Valid => panic!("expected errors"),
    }
}

#[test]
fn ds2_parse_defaults_module_base() {
    let p = darksouls2_parse::parse(
        7,
        "DarkSoulsII.exe".to_string(),
        Err(ParseError::ScanMaps { pid: 7, error_kind: None }),
        Ok("/games/DarkSoulsII.exe".to_string()),
        Err(magic()),
        Ok((1, 0, 11)),
    );
    assert_eq!(p.pid, 7);
    assert_eq!(p.exe_path, "/games/DarkSoulsII.exe");
    assert_eq!(p.address_size, AddressSize::Bits32);
    assert_eq!(p.module_base, DEFAULT_BASE_32);
    assert_eq!(p.game_version, GameVersion::DarkSouls2(DarkSouls2Version::Vanilla1_0_11));
    assert!(matches!(p.parse_state, ParseState::Invalid(ref e) if e.len() == 1));

    let q = darksouls2_parse::parse(
        8,
        "DarkSoulsII.exe".to_string(),
        Ok(("/g/DarkSoulsII.exe".to_string(), 0)),
        Ok(String::new()),
        Ok((1, 0, 2)),
        Err(magic()),
    );
    assert_eq!(q.module_base, DEFAULT_BASE_64);
    assert_eq!(q.game_version, GameVersion::DarkSouls2(DarkSouls2Version::Scholar1_0_2));
    assert!(matches!(q.parse_state, ParseState::Valid));
}

#[test]
fn er_parse_keeps_maps_base() {
    let p = eldenring_parse::parse(
        9,
        "eldenring.exe".to_string(),
        Ok(("/g/eldenring.exe".to_string(), 0x1_4000_0000)),
        Ok(String::new()),
        Ok((2, 6, 1)),
    );
    assert_eq!(p.module_base, 0x1_4000_0000);
    assert_eq!(p.game_version, GameVersion::EldenRing(EldenRingVersion::Version2_6_1));
    assert!(matches!(p.parse_state, ParseState::Valid));
}

#[test]
fn attaching_reports_read_errors() {
    let mut attached = None;
    assert_eq!(attach_to_process(&mut attached, process(1, true)), Ok(()));
    assert_eq!(singleton::pid(&attached), Some(1));
    assert_eq!(attach_to_process(&mut attached, process(2, false)), Err(AttachError { error_count: 1 }));
    assert_eq!(singleton::pid(&attached), Some(2));
}

#[test]
fn auto_attach_takes_last() {
    let mut attached = None;
    assert!(auto_attach(&mut attached, vec![]).is_none());
    assert!(attached.is_none());
    let r = auto_attach(&mut attached, vec![process(1, true), process(2, true)]);
    assert_eq!(r, Some(Ok(())));
    assert_eq!(singleton::pid(&attached), Some(2));
}

#[test]
fn parse_state_from_errors() {
    assert!(matches!(parse_state_of(vec![]), ParseState::Valid));
    assert!(matches!(parse_state_of(vec![magic()]), ParseState::Invalid(_)));
}

#[test]
fn singleton_queries() {
    let mut attached = None;
    assert!(!singleton::is_attached(&attached));
    assert_eq!(singleton::module_base(&attached), 0);
    assert_eq!(singleton::game(&attached), None);
    assert_eq!(singleton::process_exists(&attached, true), None);
    singleton::attach_to_process(&mut attached, process(5, true));
    assert!(singleton::is_attached(&attached));
    assert_eq!(singleton::game(&attached), Some(Game::EldenRing));
    assert_eq!(singleton::comm(&attached), Some("eldenring.exe"));
    assert_eq!(singleton::module_base(&attached), 0x1_4000_0000);
    assert!(!singleton::is_32(&attached));
    assert_eq!(singleton::address_size(&attached), Some(AddressSize::Bits64));
    assert_eq!(singleton::version::<EldenRingVersion>(&attached), Some(EldenRingVersion::Version2_6_1));
    assert_eq!(singleton::version::<DarkSouls2Version>(&attached), None);
    assert_eq!(singleton::process_exists(&attached, false), Some(false));
    singleton::detach(&mut attached);
    assert_eq!(singleton::pid(&attached), None);
}

#[test]
fn process_manager_lifecycle() {
    let mut pm = ProcessManager::new();
    let listing = vec![
        (10, "eldenring.exe".to_string()),
        (11, "bash".to_string()),
        (12, "DarkSoulsII.exe".to_string()),
        (10, "eldenring.exe".to_string()),
    ];
    let c = pm.new_candidates(&listing);
    assert_eq!(c.len(), 2);
    assert_eq!((c[0].0, c[0].1), (Game::EldenRing, 10));
    assert_eq!((c[1].0, c[1].1), (Game::DarkSouls2, 12));

    pm.add_process(process(10, false));
    pm.add_process(process(12, true));
    assert!(pm.new_candidates(&listing).is_empty());

    let mut attached = None;
    assert_eq!(pm.try_auto_attach(&mut attached), Some(Ok(())));
    assert_eq!(singleton::pid(&attached), Some(12));

    assert_eq!(pm.detach_if_invalid(&mut attached, true), None);
    assert_eq!(pm.detach_if_invalid(&mut attached, false), Some(Game::EldenRing));
    assert!(attached.is_none());

    pm.retain_alive(&vec![true, false]);
    assert_eq!(pm.valid_processes().len(), 1);
    assert_eq!(pm.valid_processes()[0].pid, 10);
    assert_eq!(pm.try_auto_attach(&mut attached), None);
}
