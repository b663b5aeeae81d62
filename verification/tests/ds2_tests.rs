use gubtool::ds2::bonfires::{bonfires, BONFIRE_COUNT};
use gubtool::ds2::hooks::{
    credits_skip, event_log, faster_menu, locked_target, set_shared_flag, site_offset,
    warp_coord_write, HookSite,
};
use gubtool::ds2::player::{give_souls, player_ctrl};
use gubtool::ds2::target::{install_target_hook, is_target_hook_active, unpatched_locked_target_bytes};
use gubtool::ds2::utility::{
    is_credits_skip, is_faster_menu, quitout, set_credits_skip, set_faster_menu, QUITOUT_VALUE,
};
use gubtool::game_version::DarkSouls2Version;
use gubtool::patch::Patch;
use gubtool::slice_ops::SliceError;

fn rel(target: u64, source: u64) -> [u8; 4] {
    ((target as i64 - source as i64) as i32).to_le_bytes()
}

fn writes(p: &Patch) -> Vec<(u64, Vec<u8>)> {
    p.writes.iter().map(|w| (w.address, w.bytes.clone())).collect()
}

#[test]
fn hook_addresses_per_release() {
    let base = 0x40_0000;
    assert_eq!(warp_coord_write(base, DarkSouls2Version::Vanilla1_0_11), base + 0x7F9FB0);
    assert_eq!(set_shared_flag(base, DarkSouls2Version::Scholar1_0_3), base + 0x4265D2);
    assert_eq!(locked_target(base, DarkSouls2Version::Vanilla1_0_12), base + 0x4A54F1);
    assert_eq!(credits_skip(base, DarkSouls2Version::Scholar1_0_2), base + 0x599D4);
    assert_eq!(faster_menu(base, DarkSouls2Version::Scholar1_0_3), base + 0x105473);
    assert_eq!(event_log(base, DarkSouls2Version::Vanilla1_0_11), base + 0x47884B);
    assert_eq!(event_log(base, DarkSouls2Version::Vanilla1_0_3), base);
    assert_eq!(site_offset(HookSite::FasterMenu, DarkSouls2Version::ScholarUnknown), 0);
}

#[test]
fn player_ctrl_slot() {
    assert_eq!(player_ctrl(0x1000, 0xD0), Some(0x10D0));
    assert_eq!(player_ctrl(u64::MAX, 1), None);
}

#[test]
fn give_souls_scholar_code() {
    let template = vec![0u8; 30];
    let code = give_souls(true, &template, 0x1122_3344_5566_7788, -5, 0xAABB).unwrap();
    let mut expected = vec![0u8; 30];
    expected[2..10].copy_from_slice(&0x1122_3344_5566_7788u64.to_le_bytes());
    expected[12..20].copy_from_slice(&(-5i64).to_le_bytes());
    expected[22..30].copy_from_slice(&0xAABBu64.to_le_bytes());
    assert_eq!(code, expected);
}

#[test]
fn give_souls_vanilla_code() {
    let template = vec![0x90u8; 16];
    let code = give_souls(false, &template, 0x0012_3456, 1000, 0x0040_1000).unwrap();
    let mut expected = vec![0x90u8; 16];
    expected[1..5].copy_from_slice(&1000i32.to_le_bytes());
    expected[7..11].copy_from_slice(&0x0012_3456u32.to_le_bytes());
    expected[12..16].copy_from_slice(&0x0040_1000u32.to_le_bytes());
    assert_eq!(code, expected);
}

#[test]
fn give_souls_errors() {
    assert_eq!(
        give_souls(false, &vec![0u8; 16], 0x1_0000_0000, 1, 0),
        Err(SliceError::ConversionFailed)
    );
    assert_eq!(give_souls(true, &vec![0u8; 20], 0, 1, 0), Err(SliceError::WriteOutOfBounds));
}

#[test]
fn target_hook_scholar() {
    let template = vec![0u8; 19];
    let (location, pointer, locked) = (0x7FF0_0000u64, 0x7FF0_0100u64, 0x7FF1_0000u64);
    let p = install_target_hook(true, &template, location, pointer, locked);
    assert_eq!(p.error, None);
    let mut code = vec![0u8; 19];
    code[3..7].copy_from_slice(&rel(pointer, location + 7));
    code[15..19].copy_from_slice(&rel(locked + 7, location + 19));
    let r = rel(location, locked + 5);
    let hook = vec![0xE9, r[0], r[1], r[2], r[3], 0x90, 0x90];
    assert_eq!(writes(&p), vec![(location, code), (locked, hook.clone())]);
    assert!(is_target_hook_active(true, &hook));
    assert!(!is_target_hook_active(true, &unpatched_locked_target_bytes(true)));
}

#[test]
fn target_hook_vanilla() {
    let template = vec![0u8; 17];
    let (location, pointer, locked) = (0x0100_0000u64, 0x0100_0100u64, 0x0080_0000u64);
    let p = install_target_hook(false, &template, location, pointer, locked);
    let mut code = vec![0u8; 17];
    code[8..12].copy_from_slice(&(pointer as u32).to_le_bytes());
    code[13..17].copy_from_slice(&rel(locked + 6, location + 17));
    let r = rel(location, locked + 5);
    assert_eq!(writes(&p), vec![(location, code), (locked, vec![0xE9, r[0], r[1], r[2], r[3], 0x90])]);
    assert!(is_target_hook_active(false, &[0xE9, 0, 0, 0, 0, 0x90]));
    assert!(!is_target_hook_active(false, &[0x89, 0xB7, 0xB8, 0x00, 0x00, 0x00]));
}

#[test]
fn target_hook_too_far() {
    let p = install_target_hook(true, &vec![0u8; 19], 0x1_0000_0000_0000, 0x1_0000_0000_0000, 0x1000);
    assert!(p.writes.is_empty());
    assert_eq!(p.error, Some(SliceError::RelativeOutOfRange));
}

#[test]
fn quitout_writes_value() {
    let p = quitout(0x1000, 0x24B1);
    assert_eq!(writes(&p), vec![(0x34B1, vec![QUITOUT_VALUE])]);
    assert_eq!(QUITOUT_VALUE, 6);
}

#[test]
fn faster_menu_on_and_off() {
    let (location, menu) = (0x0200_0000u64, 0x0199_0000u64);
    let off = set_faster_menu(false, true, &vec![], location, menu);
    assert_eq!(writes(&off), vec![(menu, vec![0x48, 0x89, 0x84, 0x24, 0x50, 0x01, 0x00, 0x00])]);
    assert!(!is_faster_menu(true, &off.writes[0].bytes));

    let on = set_faster_menu(true, false, &vec![0u8; 20], location, menu);
    let mut code = vec![0u8; 20];
    code[16..20].copy_from_slice(&rel(menu + 5, location + 20));
    let r = rel(location, menu + 5);
    assert_eq!(writes(&on), vec![(location, code), (menu, vec![0xE9, r[0], r[1], r[2], r[3]])]);
    assert!(is_faster_menu(false, &on.writes[1].bytes));
}

#[test]
fn credits_skip_scholar_on() {
    let (location, flag, credits) = (0x7FF0_0000u64, 0x7FF0_0800u64, 0x7FF1_0000u64);
    let p = set_credits_skip(true, true, &vec![0u8; 38], location, flag, credits);
    assert_eq!(p.error, None);
    let mut code = vec![0u8; 38];
    code[9..13].copy_from_slice(&rel(flag, location + 14));
    code[25..29].copy_from_slice(&rel(flag, location + 33));
    code[34..38].copy_from_slice(&rel(credits + 7, location + 38));
    let r = rel(location, credits + 5);
    assert_eq!(
        writes(&p),
        vec![
            (flag, vec![0]),
            (location, code),
            (credits, vec![0xE9, r[0], r[1], r[2], r[3], 0x90, 0x90]),
        ]
    );
    assert!(is_credits_skip(true, &p.writes[2].bytes));
}

#[test]
fn credits_skip_clears_flag_even_when_code_fails() {
    let p = set_credits_skip(true, false, &vec![0u8; 10], 0x100_0000, 0x100_0800, 0x80_0000);
    assert_eq!(writes(&p), vec![(0x100_0800, vec![0])]);
    assert_eq!(p.error, Some(SliceError::WriteOutOfBounds));
}

#[test]
fn credits_skip_off() {
    let p = set_credits_skip(false, false, &vec![], 0, 0, 0x80_0000);
    assert_eq!(writes(&p), vec![(0x80_0000, vec![0x81, 0xEC, 0xFC, 0x01, 0x00, 0x00])]);
    assert!(!is_credits_skip(false, &p.writes[0].bytes));
}

#[test]
fn bonfire_table() {
    let all = bonfires();
    assert_eq!(all.len(), BONFIRE_COUNT);
    assert_eq!(all[0].name, "Fire Keeper's Dwelling");
    assert_eq!(all[0].main_area, "Things Betwixt");
    assert_eq!(all[0].bonfire_id, 2650);
    let mut ids: Vec<i32> = all.iter().map(|b| b.bonfire_id).collect();
    ids.sort();
    ids.dedup();
    assert_eq!(ids.len(), BONFIRE_COUNT);
}

#[test]
fn bonfire_list_names() {
    let all = bonfires();
    assert_eq!(all[1].list_name(4650), "(*) Far Fire");
    assert_eq!(all[1].list_name(2650), "Far Fire");
}

fn apply(memory: &mut std::collections::HashMap<u64, u8>, patch: &gubtool::patch::Patch) {
    for w in &patch.writes {
        for (i, b) in w.bytes.iter().enumerate() {
            memory.insert(w.address + i as u64, *b);
        }
    }
}

fn read(memory: &std::collections::HashMap<u64, u8>, address: u64, n: usize) -> Vec<u8> {
    (0..n as u64).map(|i| *memory.get(&(address + i)).unwrap_or(&0xCC)).collect()
}

#[test]
fn menu_and_credits_switches_read_back() {
    let (location, menu, credits, flag) = (0x100_0000u64, 0x80_0000u64, 0x90_0000u64, 0x100_0800u64);
    let mut memory = std::collections::HashMap::new();
    for scholar in [true, false] {
        let n = if scholar { 8 } else { 5 };
        apply(&mut memory, &set_faster_menu(true, scholar, &vec![0u8; 30], location, menu));
        assert!(is_faster_menu(scholar, &read(&memory, menu, n)));
        apply(&mut memory, &set_faster_menu(false, scholar, &vec![], location, menu));
        assert!(!is_faster_menu(scholar, &read(&memory, menu, n)));
        let n = if scholar { 7 } else { 6 };
        memory.insert(flag, 1);
        apply(&mut memory, &set_credits_skip(true, scholar, &vec![0u8; 40], location, flag, credits));
        assert!(is_credits_skip(scholar, &read(&memory, credits, n)));
        assert_eq!(memory[&flag], 0);
        apply(&mut memory, &set_credits_skip(false, scholar, &vec![], location, flag, credits));
        assert!(!is_credits_skip(scholar, &read(&memory, credits, n)));
    }
}
