use vstd::prelude::*;
use crate::attached::{AddressSize, GameProcess, ParseError, ParseState};
use crate::attached::parse::{match_scholar, match_vanilla, matched, scholar_version, state_errors, vanilla_version};
use crate::game_version::{DarkSouls2Version, GameVersion};

verus! {

/// The image base of a 32-bit PE executable that is not relocated.
pub const DEFAULT_BASE_32: u64 = 0x40_0000;

/// The image base of a 64-bit PE executable that is not relocated.
pub const DEFAULT_BASE_64: u64 = 0x1_4000_0000;

/// The Dark Souls II release (32-bit) of a product version.
pub fn match_vanilla_version(version: (u16, u16, u16)) -> (r: Result<DarkSouls2Version, ParseError>)
    ensures
        r == matched(vanilla_version(version), version),
{
    match_vanilla(version)
}

/// The Scholar of the First Sin release (64-bit) of a product version.
pub fn match_scholar_version(version: (u16, u16, u16)) -> (r: Result<DarkSouls2Version, ParseError>)
    ensures
        r == matched(scholar_version(version), version),
{
    match_scholar(version)
}

/// The release and word size of a Dark Souls II executable, from the 64-bit
/// read, or else the 32-bit one, and the error of a failed lookup.
pub open spec fn ds2_version(
    pe64: Result<(u16, u16, u16), ParseError>,
    pe32: Result<(u16, u16, u16), ParseError>,
) -> (DarkSouls2Version, AddressSize, Seq<ParseError>) {
    match pe64 {
        Ok(v) => match scholar_version(v) {
            Some(d) => (d, AddressSize::Bits64, Seq::empty()),
            None => (
                DarkSouls2Version::ScholarUnknown,
                AddressSize::Bits64,
                seq![ParseError::MatchProductVersion { product_version: v }],
            ),
        },
        Err(_) => match pe32 {
            Ok(v) => match vanilla_version(v) {
                Some(d) => (d, AddressSize::Bits32, Seq::empty()),
                None => (
                    DarkSouls2Version::VanillaUnknown,
                    AddressSize::Bits32,
                    seq![ParseError::MatchProductVersion { product_version: v }],
                ),
            },
            Err(_) => (DarkSouls2Version::ScholarUnknown, AddressSize::Bits64, Seq::empty()),
        },
    }
}

/// Assembles a Dark Souls II process from what was read about it: the memory
/// maps (executable path and module base), the environment (path, consulted
/// when the maps fail), and the product-version reads of the executable
/// (64-bit first; the 32-bit read counts only when the 64-bit one failed).
/// A module base of `0` is replaced by the default image base for the word size.
pub fn parse(
    pid: u32,
    comm: String,
    maps: Result<(String, u64), ParseError>,
    environ: Result<String, ParseError>,
    pe64: Result<(u16, u16, u16), ParseError>,
    pe32: Result<(u16, u16, u16), ParseError>,
) -> (r: GameProcess)
    ensures
        r.pid == pid,
        r.comm == comm,
        r.exe_path@ == match maps {
            Ok((path, _)) => path@,
            Err(_) => match environ {
                Ok(path) => path@,
                Err(_) => Seq::<char>::empty(),
            },
        },
        ({
            let (version, size, version_errors) = ds2_version(pe64, pe32);
            let base = match maps {
                Ok((_, b)) => b,
                Err(_) => 0,
            };
            let location_errors = match maps {
                Ok(_) => Seq::<ParseError>::empty(),
                Err(e) => match environ {
                    Ok(_) => seq![e],
                    Err(e2) => seq![e, e2],
                },
            };
            &&& r.game_version == GameVersion::DarkSouls2(version)
            &&& r.address_size == size
            &&& r.module_base == if base != 0 {
                base
            } else if size == AddressSize::Bits64 {
                DEFAULT_BASE_64
            } else {
                DEFAULT_BASE_32
            }
            &&& r.parse_state.errors() == state_errors(location_errors + version_errors)
        }),
{
    let mut parse_errors: Vec<ParseError> = Vec::new();
    let (exe_path, mut module_base) = match maps {
        Ok((exe_path, module_base)) => (exe_path, module_base),
        Err(err) => {
            parse_errors.push(err);
            let exe_path = match environ {
                Ok(path) => path,
                Err(err) => {
                    parse_errors.push(err);
                    String::new()
                },
            };
            (exe_path, 0)
        },
    };
    let ghost location_errors = parse_errors@;
    let mut version = DarkSouls2Version::ScholarUnknown;
    let mut address_size = AddressSize::Bits64;
    if let Ok(version_info) = pe64 {
        match match_scholar(version_info) {
            Ok(v) => version = v,
            Err(err) => parse_errors.push(err),
        }
    } else if let Ok(version_info) = pe32 {
        address_size = AddressSize::Bits32;
        match match_vanilla(version_info) {
            Ok(v) => version = v,
            Err(err) => {
                parse_errors.push(err);
                version = DarkSouls2Version::VanillaUnknown;
            },
        }
    }
    assert(parse_errors@ =~= location_errors + ds2_version(pe64, pe32).2);
    if module_base == 0 {
        match address_size {
            AddressSize::Bits64 => module_base = DEFAULT_BASE_64,
            AddressSize::Bits32 => module_base = DEFAULT_BASE_32,
        }
    }
    let parse_state = if parse_errors.len() == 0 {
        ParseState::Valid
    } else {
        ParseState::Invalid(parse_errors)
    };
    GameProcess {
        pid,
        comm,
        exe_path,
        module_base,
        address_size,
        parse_state,
        game_version: GameVersion::DarkSouls2(version),
    }
}

} // verus!
