use vstd::prelude::*;
use crate::game_version::DarkSouls2Version;

verus! {

/// The instructions of Dark Souls II that the tool patches or watches.
#[derive(Debug, Clone, Copy, PartialEq, Eq, Structural)]
pub enum HookSite {
    WarpCoordWrite,
    SetSharedFlag,
    LockedTarget,
    CreditsSkip,
    FasterMenu,
    EventLog,
}

/// The offset of a patched instruction from the start of the game's module,
/// for the releases whose layout is known; 0 for the others.
pub open spec fn hook_offset(site: HookSite, version: DarkSouls2Version) -> u64 {
    match site {
        HookSite::WarpCoordWrite => match version {
            DarkSouls2Version::Vanilla1_0_11 => 0x7F9FB0,
            DarkSouls2Version::Vanilla1_0_12 => 0x8015B0,
            DarkSouls2Version::Scholar1_0_2 => 0x711939,
            DarkSouls2Version::Scholar1_0_3 => 0x718E99,
            _ => 0,
        },
        HookSite::SetSharedFlag => match version {
            DarkSouls2Version::Vanilla1_0_11 => 0x43120B,
            DarkSouls2Version::Vanilla1_0_12 => 0x43849B,
            DarkSouls2Version::Scholar1_0_2 => 0x41F452,
            DarkSouls2Version::Scholar1_0_3 => 0x4265D2,
            _ => 0,
        },
        HookSite::LockedTarget => match version {
            DarkSouls2Version::Vanilla1_0_11 => 0x49E271,
            DarkSouls2Version::Vanilla1_0_12 => 0x4A54F1,
            DarkSouls2Version::Scholar1_0_2 => 0x495FB2,
            DarkSouls2Version::Scholar1_0_3 => 0x49D192,
            _ => 0,
        },
        HookSite::CreditsSkip => match version {
            DarkSouls2Version::Vanilla1_0_11 => 0x11BD53,
            DarkSouls2Version::Vanilla1_0_12 => 0x11BE23,
            DarkSouls2Version::Scholar1_0_2 => 0x599D4,
            DarkSouls2Version::Scholar1_0_3 => 0x59A64,
            _ => 0,
        },
        HookSite::FasterMenu => match version {
            DarkSouls2Version::Vanilla1_0_11 => 0x19979E,
            DarkSouls2Version::Vanilla1_0_12 => 0x1999BE,
            DarkSouls2Version::Scholar1_0_2 => 0x1053B3,
            DarkSouls2Version::Scholar1_0_3 => 0x105473,
            _ => 0,
        },
        HookSite::EventLog => match version {
            DarkSouls2Version::Vanilla1_0_11 => 0x47884B,
            DarkSouls2Version::Vanilla1_0_12 => 0x47FAEB,
            DarkSouls2Version::Scholar1_0_2 => 0x46DED0,
            DarkSouls2Version::Scholar1_0_3 => 0x4750C0,
            _ => 0,
        },
    }
}

/// The offset of `site` in the module of `version`.
pub fn site_offset(site: HookSite, version: DarkSouls2Version) -> (r: u64)
    ensures
        r == hook_offset(site, version),
{
    match site {
        HookSite::WarpCoordWrite => match version {
            DarkSouls2Version::Vanilla1_0_11 => 0x7F9FB0,
            DarkSouls2Version::Vanilla1_0_12 => 0x8015B0,
            DarkSouls2Version::Scholar1_0_2 => 0x711939,
            DarkSouls2Version::Scholar1_0_3 => 0x718E99,
            _ => 0,
        },
        HookSite::SetSharedFlag => match version {
            DarkSouls2Version::Vanilla1_0_11 => 0x43120B,
            DarkSouls2Version::Vanilla1_0_12 => 0x43849B,
            DarkSouls2Version::Scholar1_0_2 => 0x41F452,
            DarkSouls2Version::Scholar1_0_3 => 0x4265D2,
            _ => 0,
        },
        HookSite::LockedTarget => match version {
            DarkSouls2Version::Vanilla1_0_11 => 0x49E271,
            DarkSouls2Version::Vanilla1_0_12 => 0x4A54F1,
            DarkSouls2Version::Scholar1_0_2 => 0x495FB2,
            DarkSouls2Version::Scholar1_0_3 => 0x49D192,
            _ => 0,
        },
        HookSite::CreditsSkip => match version {
            DarkSouls2Version::Vanilla1_0_11 => 0x11BD53,
            DarkSouls2Version::Vanilla1_0_12 => 0x11BE23,
            DarkSouls2Version::Scholar1_0_2 => 0x599D4,
            DarkSouls2Version::Scholar1_0_3 => 0x59A64,
            _ => 0,
        },
        HookSite::FasterMenu => match version {
            DarkSouls2Version::Vanilla1_0_11 => 0x19979E,
            DarkSouls2Version::Vanilla1_0_12 => 0x1999BE,
            DarkSouls2Version::Scholar1_0_2 => 0x1053B3,
            DarkSouls2Version::Scholar1_0_3 => 0x105473,
            _ => 0,
        },
        HookSite::EventLog => match version {
            DarkSouls2Version::Vanilla1_0_11 => 0x47884B,
            DarkSouls2Version::Vanilla1_0_12 => 0x47FAEB,
            DarkSouls2Version::Scholar1_0_2 => 0x46DED0,
            DarkSouls2Version::Scholar1_0_3 => 0x4750C0,
            _ => 0,
        },
    }
}

/// The address of `site` in a module loaded at `module_handle`.
pub open spec fn hook_address(site: HookSite, module_handle: u64, version: DarkSouls2Version) -> int {
    module_handle + hook_offset(site, version)
}

fn address_of(site: HookSite, module_handle: u64, version: DarkSouls2Version) -> (r: u64)
    requires
        hook_address(site, module_handle, version) <= u64::MAX,
    ensures
        r == hook_address(site, module_handle, version),
{
    module_handle + site_offset(site, version)
}

/// The instruction that writes the player's coordinates after a warp.
pub fn warp_coord_write(module_handle: u64, version: DarkSouls2Version) -> (r: u64)
    requires
        hook_address(HookSite::WarpCoordWrite, module_handle, version) <= u64::MAX,
    ensures
        r == hook_address(HookSite::WarpCoordWrite, module_handle, version),
{
    address_of(HookSite::WarpCoordWrite, module_handle, version)
}

/// The instruction that sets a shared event flag.
pub fn set_shared_flag(module_handle: u64, version: DarkSouls2Version) -> (r: u64)
    requires
        hook_address(HookSite::SetSharedFlag, module_handle, version) <= u64::MAX,
    ensures
        r == hook_address(HookSite::SetSharedFlag, module_handle, version),
{
    address_of(HookSite::SetSharedFlag, module_handle, version)
}

/// The instruction that stores the locked-on target.
pub fn locked_target(module_handle: u64, version: DarkSouls2Version) -> (r: u64)
    requires
        hook_address(HookSite::LockedTarget, module_handle, version) <= u64::MAX,
    ensures
        r == hook_address(HookSite::LockedTarget, module_handle, version),
{
    address_of(HookSite::LockedTarget, module_handle, version)
}

/// The first instruction of the credits sequence.
pub fn credits_skip(module_handle: u64, version: DarkSouls2Version) -> (r: u64)
    requires
        hook_address(HookSite::CreditsSkip, module_handle, version) <= u64::MAX,
    ensures
        r == hook_address(HookSite::CreditsSkip, module_handle, version),
{
    address_of(HookSite::CreditsSkip, module_handle, version)
}

/// The instruction that stores the menu fade timer.
pub fn faster_menu(module_handle: u64, version: DarkSouls2Version) -> (r: u64)
    requires
        hook_address(HookSite::FasterMenu, module_handle, version) <= u64::MAX,
    ensures
        r == hook_address(HookSite::FasterMenu, module_handle, version),
{
    address_of(HookSite::FasterMenu, module_handle, version)
}

/// The instruction through which game events pass.
pub fn event_log(module_handle: u64, version: DarkSouls2Version) -> (r: u64)
    requires
        hook_address(HookSite::EventLog, module_handle, version) <= u64::MAX,
    ensures
        r == hook_address(HookSite::EventLog, module_handle, version),
{
    address_of(HookSite::EventLog, module_handle, version)
}

} // verus!
