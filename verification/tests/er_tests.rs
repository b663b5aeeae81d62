use gubtool::er::travel::{
    block_warp, check_warp, needs_arena_event, unhook_warp, use_arena_fallback, warp_coord_hooks,
    warp_to_grace, Grace, WarpError, ANGLE_OFFSET_IN_STRUCT, SCION_ARENA_EVENT,
};
use gubtool::patch::Patch;
use gubtool::slice_ops::SliceError;

fn rel(target: u64, source: u64) -> [u8; 4] {
    ((target as i64 - source as i64) as i32).to_le_bytes()
}

fn writes(p: &Patch) -> Vec<(u64, Vec<u8>)> {
    p.writes.iter().map(|w| (w.address, w.bytes.clone())).collect()
}

#[test]
fn grace_warp_code() {
    let code = warp_to_grace(&vec![0u8; 38], 0x7FF6_1234_0000, 1_042_361_950, 0x7FF6_0000_1000).unwrap();
    let mut expected = vec![0u8; 38];
    expected[2..10].copy_from_slice(&0x7FF6_1234_0000u64.to_le_bytes());
    expected[20..28].copy_from_slice(&1_042_361_950i64.to_le_bytes());
    expected[30..38].copy_from_slice(&0x7FF6_0000_1000u64.to_le_bytes());
    assert_eq!(code, expected);
    assert_eq!(warp_to_grace(&vec![0u8; 30], 0, 0, 0), Err(SliceError::WriteOutOfBounds));
}

#[test]
fn warp_checks() {
    assert_eq!(check_warp(false, false, true), Err(WarpError::CharacterNotLoaded));
    assert_eq!(check_warp(true, true, false), Err(WarpError::DlcNotOwned));
    assert_eq!(check_warp(true, false, false), Ok(()));
    assert_eq!(check_warp(true, true, true), Ok(()));
}

#[test]
fn grace_warp() {
    let grace = Grace { name: "Table of Lost Grace".to_string(), grace_entity_id: 11_102_950, dlc: false };
    let code = grace.warp(true, false, &vec![0u8; 38], 1, 2).unwrap();
    assert_eq!(&code[20..28], &11_102_950i64.to_le_bytes());
    assert_eq!(grace.warp(false, true, &vec![0u8; 38], 1, 2), Err(WarpError::CharacterNotLoaded));
    assert_eq!(
        grace.warp(true, true, &vec![0u8; 10], 1, 2),
        Err(WarpError::Build(SliceError::WriteOutOfBounds))
    );
    let dlc_grace = Grace { name: "Gravesite Plain".to_string(), grace_entity_id: 2_046_402_020, dlc: true };
    assert_eq!(dlc_grace.warp(true, false, &vec![0u8; 38], 1, 2), Err(WarpError::DlcNotOwned));
}

#[test]
fn scion_arena() {
    assert!(needs_arena_event("Grafted Scion"));
    assert!(!needs_arena_event("Margit"));
    assert!(use_arena_fallback("Grafted Scion", false));
    assert!(!use_arena_fallback("Grafted Scion", true));
    assert!(!use_arena_fallback("Godrick", false));
    assert_eq!(SCION_ARENA_EVENT, 10010801);
}

#[test]
fn block_warp_parts() {
    let block_id: i32 = 0x0A01_0203;
    let code = block_warp(&vec![0u8; 32], block_id, 0x1122_3344).unwrap();
    let mut expected = vec![0u8; 32];
    expected[1..5].copy_from_slice(&0x0Ai32.to_le_bytes());
    expected[6..10].copy_from_slice(&0x01i32.to_le_bytes());
    expected[12..16].copy_from_slice(&0x02i32.to_le_bytes());
    expected[18..22].copy_from_slice(&0x03i32.to_le_bytes());
    expected[24..32].copy_from_slice(&0x1122_3344u64.to_le_bytes());
    assert_eq!(code, expected);
}

#[test]
fn block_warp_negative_id() {
    let block_id: i32 = -1;
    let code = block_warp(&vec![0u8; 32], block_id, 0).unwrap();
    assert_eq!(&code[1..5], &0xFFi32.to_le_bytes());
    assert_eq!(&code[18..22], &0xFFi32.to_le_bytes());
}

#[test]
fn warp_hooks_and_unhook() {
    let (coords, angle, coord_code, angle_code, coord_write, angle_write) =
        (0x1000u64, 0x1100u64, 0x2000u64, 0x2100u64, 0x9000u64, 0x9100u64);
    let p = warp_coord_hooks(&vec![0u8; 19], coords, angle, coord_code, angle_code, coord_write, angle_write);
    assert_eq!(p.error, None);
    let mut a = vec![0u8; 19];
    a[3..7].copy_from_slice(&rel(coords, coord_code + 7));
    a[15..19].copy_from_slice(&rel(coord_write + 7, coord_code + 19));
    let mut b = a.clone();
    b[3..7].copy_from_slice(&rel(angle, angle_code + 7));
    b[10..14].copy_from_slice(&ANGLE_OFFSET_IN_STRUCT.to_le_bytes());
    b[15..19].copy_from_slice(&rel(angle_write + 7, angle_code + 19));
    let h1 = rel(coord_code, coord_write + 5);
    let h2 = rel(angle_code, angle_write + 5);
    assert_eq!(
        writes(&p),
        vec![
            (coord_code, a),
            (angle_code, b),
            (coord_write, vec![0xE9, h1[0], h1[1], h1[2], h1[3], 0x90]),
            (angle_write, vec![0xE9, h2[0], h2[1], h2[2], h2[3], 0x90]),
        ]
    );
    let u = unhook_warp(coord_write, angle_write);
    assert_eq!(
        writes(&u),
        vec![
            (coord_write, vec![0x0F, 0x11, 0x80, 0xA0, 0x0A, 0x00, 0x00]),
            (angle_write, vec![0x0F, 0x11, 0x80, 0xB0, 0x0A, 0x00, 0x00]),
        ]
    );
}

#[test]
fn warp_hooks_partial_on_error() {
    let p = warp_coord_hooks(&vec![0u8; 19], 0x1000, 0x1_0000_0000_0000, 0x2000, 0x2100, 0x9000, 0x9100);
    assert_eq!(p.writes.len(), 1);
    assert_eq!(p.writes[0].address, 0x2000);
    assert_eq!(p.error, Some(SliceError::RelativeOutOfRange));
}
