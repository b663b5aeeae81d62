use gubtool::attached::proc_text::{
    environ_exe_path_of, environ_path, exe_name_of, exe_path, maps_exe_entry_of, parse_hex, read_maps_line, scan_maps,
};
use gubtool::attached::ParseError;
use gubtool::game_version::Game;

const MAPS: &[u8] = b"00010000-00011000 r--p 00000000 00:00 0 \n\
140000000-140001000 r--p 00000000 08:02 173521                     /games/ELDEN RING/Game/eldenring.exe\n\
140001000-142000000 r-xp 00001000 08:02 173521                     /games/ELDEN RING/Game/eldenring.exe\n\
7f0000000000-7f0000021000 rw-p 00000000 00:00 0                          [heap]\n";

#[test]
fn maps_line_with_the_executable() {
    let line = b"140000000-140001000 r--p 00000000 08:02 173521    /games/Game/eldenring.exe";
    let (path, base) = read_maps_line(line, b"eldenring.exe").unwrap();
    assert_eq!(path, b"/games/Game/eldenring.exe".to_vec());
    assert_eq!(base, 0x140000000);
    assert_eq!(read_maps_line(line, b"DarkSoulsII.exe"), None);
}

#[test]
fn maps_line_without_a_path_or_a_readable_range() {
    assert_eq!(read_maps_line(b"00010000-00011000 r--p 00000000 00:00 0", b"eldenring.exe"), None);
    assert_eq!(read_maps_line(b"", b"eldenring.exe"), None);
    assert_eq!(read_maps_line(b"zz-00011000 r--p 0 00:00 1 /g/eldenring.exe", b"eldenring.exe"), None);
    assert_eq!(read_maps_line(b"-00011000 r--p 0 00:00 1 /g/eldenring.exe", b"eldenring.exe"), None);
}

#[test]
fn maps_first_matching_line() {
    let (path, base) = maps_exe_entry_of(MAPS, b"eldenring.exe").unwrap();
    assert_eq!(path, b"/games/ELDEN RING/Game/eldenring.exe".to_vec());
    assert_eq!(base, 0x140000000);
    assert_eq!(maps_exe_entry_of(MAPS, b"DarkSoulsII.exe"), None);
    let maps = b"00010000-00011000 r--p 00000000 00:00 0\n\
140000000-140001000 r--p 00000000 08:02 173521  /games/Game/eldenring.exe\n\
140001000-142000000 r-xp 00001000 08:02 173521  /games/Game/eldenring.exe\n";
    let (path, base) = maps_exe_entry_of(maps, b"eldenring.exe").unwrap();
    assert_eq!(path, b"/games/Game/eldenring.exe".to_vec());
    assert_eq!(base, 0x140000000);
    let unterminated = b"\n\n400000-401000 r-xp 0 08:02 1 /g/DarkSoulsII.exe";
    assert_eq!(maps_exe_entry_of(unterminated, b"DarkSoulsII.exe"), Some((b"/g/DarkSoulsII.exe".to_vec(), 0x400000)));
    assert_eq!(maps_exe_entry_of(b"", b"DarkSoulsII.exe"), None);
}

#[test]
fn hex_numbers() {
    assert_eq!(parse_hex(b"ffffffffffffffff", 16), Some(u64::MAX));
    assert_eq!(parse_hex(b"10000000000000000", 17), None);
    assert_eq!(parse_hex(b"00000000000000001", 17), Some(1));
    assert_eq!(parse_hex(b"7F0aB-", 5), Some(0x7F0AB));
    assert_eq!(parse_hex(b"7g", 2), None);
    assert_eq!(parse_hex(b"7g", 1), Some(7));
    assert_eq!(parse_hex(b"12", 0), None);
}

#[test]
fn environ_first_matching_value() {
    let environ = b"HOME=/root\0WINEPREFIX=/pfx\0GAME_EXE=/pfx/drive_c/Game/DarkSoulsII.exe\0OTHER=x/DarkSoulsII.exe\0";
    assert_eq!(environ_exe_path_of(environ, b"DarkSoulsII.exe"), Some(b"/pfx/drive_c/Game/DarkSoulsII.exe".to_vec()));
    assert_eq!(environ_exe_path_of(environ, b"eldenring.exe"), None);
    assert_eq!(environ_exe_path_of(b"A=b=eldenring.exe", b"eldenring.exe"), Some(b"b=eldenring.exe".to_vec()));
    assert_eq!(environ_exe_path_of(b"eldenring.exe\0", b"eldenring.exe"), None);
    assert_eq!(environ_exe_path_of(b"", b"eldenring.exe"), None);
}

#[test]
fn executable_names() {
    assert_eq!(exe_name_of(Game::DarkSouls2), b"DarkSoulsII.exe".to_vec());
    assert_eq!(exe_name_of(Game::EldenRing), b"eldenring.exe".to_vec());
}

#[test]
fn maps_read_outcomes() {
    let maps = b"140000000-140001000 r--p 00000000 08:02 1 /g/eldenring.exe\n".to_vec();
    assert_eq!(scan_maps(7, Game::EldenRing, Ok(maps.clone())).unwrap(), (b"/g/eldenring.exe".to_vec(), 0x140000000));
    assert!(matches!(
        scan_maps(7, Game::DarkSouls2, Ok(maps)),
        Err(ParseError::ScanMaps { pid: 7, error_kind: None })
    ));
    match scan_maps(7, Game::EldenRing, Err("NotFound".to_string())) {
        Err(ParseError::ScanMaps { pid: 7, error_kind: Some(kind) }) => assert_eq!(kind, "NotFound"),
        other => panic!("unexpected {other:?}"),
    }
}

#[test]
fn environ_read_outcomes() {
    let environ = b"EXE=/g/eldenring.exe\0".to_vec();
    assert_eq!(environ_path(9, Game::EldenRing, Ok(environ.clone())).unwrap(), b"/g/eldenring.exe".to_vec());
    assert!(matches!(
        environ_path(9, Game::DarkSouls2, Ok(environ)),
        Err(ParseError::ExeNotFound { pid: 9, error_kind: None })
    ));
    match environ_path(9, Game::EldenRing, Err("PermissionDenied".to_string())) {
        Err(ParseError::ExeNotFound { pid: 9, error_kind: Some(kind) }) => assert_eq!(kind, "PermissionDenied"),
        other => panic!("unexpected {other:?}"),
    }
}

#[test]
fn executable_path_choice() {
    let maps: Result<(String, u64), ParseError> = Ok(("/m/eldenring.exe".to_string(), 0x1000));
    let environ: Result<String, ParseError> = Ok("/e/eldenring.exe".to_string());
    assert_eq!(exe_path(&maps, &environ), "/m/eldenring.exe");
    let no_maps: Result<(String, u64), ParseError> = Err(ParseError::ScanMaps { pid: 1, error_kind: None });
    assert_eq!(exe_path(&no_maps, &environ), "/e/eldenring.exe");
    let no_environ: Result<String, ParseError> = Err(ParseError::ExeNotFound { pid: 1, error_kind: None });
    assert_eq!(exe_path(&no_maps, &no_environ), "");
}
