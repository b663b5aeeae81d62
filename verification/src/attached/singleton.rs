use vstd::prelude::*;
use crate::attached::{AddressSize, GameProcess};
use crate::game_version::{Game, GameVersion, Version};

verus! {

/// The process id of the attached process.
pub open spec fn spec_pid(attached: Option<GameProcess>) -> Option<u32> {
    match attached {
        Some(p) => Some(p.pid),
        None => None,
    }
}

/// The module base of the attached process; `0` when detached.
pub open spec fn spec_module_base(attached: Option<GameProcess>) -> u64 {
    match attached {
        Some(p) => p.module_base,
        None => 0,
    }
}

/// The game of the attached process.
pub open spec fn spec_game(attached: Option<GameProcess>) -> Option<Game> {
    match attached {
        Some(p) => Some(p.game_version.spec_game()),
        None => None,
    }
}

/// Whether the attached process is a 32-bit program; `false` when detached.
pub open spec fn spec_is_32(attached: Option<GameProcess>) -> bool {
    match attached {
        Some(p) => p.address_size == AddressSize::Bits32,
        None => false,
    }
}

pub fn pid(attached: &Option<GameProcess>) -> (r: Option<u32>)
    ensures
        r == spec_pid(*attached),
{
    match attached {
        Some(process) => Some(process.pid),
        None => None,
    }
}

pub fn game_version(attached: &Option<GameProcess>) -> (r: Option<GameVersion>)
    ensures
        r == match *attached {
            Some(p) => Some(p.game_version),
            None => None::<GameVersion>,
        },
{
    match attached {
        Some(process) => Some(process.game_version),
        None => None,
    }
}

pub fn game(attached: &Option<GameProcess>) -> (r: Option<Game>)
    ensures
        r == spec_game(*attached),
{
    match attached {
        Some(process) => Some(process.game_version.game()),
        None => None,
    }
}

pub fn comm(attached: &Option<GameProcess>) -> (r: Option<&str>)
    ensures
        match *attached {
            Some(p) => r matches Some(s) && s@ == p.comm@,
            None => r is None,
        },
{
    match attached {
        Some(process) => Some(process.comm.as_str()),
        None => None,
    }
}

pub fn path(attached: &Option<GameProcess>) -> (r: Option<&String>)
    ensures
        match *attached {
            Some(p) => r matches Some(s) && *s == p.exe_path,
            None => r is None,
        },
{
    match attached {
        Some(process) => Some(&process.exe_path),
        None => None,
    }
}

pub fn module_base(attached: &Option<GameProcess>) -> (r: u64)
    ensures
        r == spec_module_base(*attached),
{
    match attached {
        Some(process) => process.module_base,
        None => 0x0,
    }
}

pub fn address_size(attached: &Option<GameProcess>) -> (r: Option<AddressSize>)
    ensures
        r == match *attached {
            Some(p) => Some(p.address_size),
            None => None::<AddressSize>,
        },
{
    match attached {
        Some(process) => Some(process.address_size),
        None => None,
    }
}

/// The release of the attached process, as the release type `T` of one game;
/// `None` when detached or attached to another game.
pub fn version<T: Version>(attached: &Option<GameProcess>) -> (r: Option<T>)
    ensures
        r == match *attached {
            Some(p) => T::spec_from_game_version(p.game_version),
            None => None::<T>,
        },
{
    match attached {
        Some(process) => T::from_game_version(&process.game_version),
        None => None,
    }
}

pub fn is_32(attached: &Option<GameProcess>) -> (r: bool)
    ensures
        r == spec_is_32(*attached),
{
    match attached {
        Some(process) => match process.address_size {
            AddressSize::Bits32 => true,
            AddressSize::Bits64 => false,
        },
        None => false,
    }
}

/// Makes `process` the attached process.
pub fn attach_to_process(attached: &mut Option<GameProcess>, process: GameProcess)
    ensures
        *final(attached) == Some(process),
{
    *attached = Some(process);
}

/// Forgets the attached process.
pub fn detach(attached: &mut Option<GameProcess>)
    ensures
        *final(attached) == None::<GameProcess>,
{
    *attached = None;
}

pub fn is_attached(attached: &Option<GameProcess>) -> (r: bool)
    ensures
        r == attached.is_some(),
{
    attached.is_some()
}

/// Whether the attached process still runs (`alive`, as checked by the
/// caller); `None` when detached.
pub fn process_exists(attached: &Option<GameProcess>, alive: bool) -> (r: Option<bool>)
    ensures
        r == if attached.is_some() {
            Some(alive)
        } else {
            None::<bool>
        },
{
    match attached {
        Some(_) => Some(alive),
        None => None,
    }
}

/// After attaching, the queries describe the attached process.
pub proof fn lemma_attach_then_query(p: GameProcess)
    ensures
        spec_pid(Some(p)) == Some(p.pid),
        spec_game(Some(p)) == Some(p.game_version.spec_game()),
        spec_module_base(Some(p)) == p.module_base,
        spec_is_32(Some(p)) == (p.address_size == AddressSize::Bits32),
{
}

/// After detaching, the queries report nothing attached.
pub proof fn lemma_detach_then_query()
    ensures
        spec_pid(None) is None,
        spec_game(None) is None,
        spec_module_base(None) == 0,
        !spec_is_32(None),
{
}

} // verus!
