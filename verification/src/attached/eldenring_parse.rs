use vstd::prelude::*;
use crate::attached::{AddressSize, GameProcess, ParseError, ParseState};
use crate::attached::darksouls2_parse::DEFAULT_BASE_64;
use crate::attached::parse::{eldenring_version, match_eldenring, matched, state_errors};
use crate::game_version::{EldenRingVersion, GameVersion};

verus! {

/// The Elden Ring release of a product version.
pub fn match_version(version: (u16, u16, u16)) -> (r: Result<EldenRingVersion, ParseError>)
    ensures
        r == matched(eldenring_version(version), version),
{
    match_eldenring(version)
}

/// The Elden Ring release of a product-version read, and the error that a
/// failed read or lookup adds.
pub open spec fn er_version(pe64: Result<(u16, u16, u16), ParseError>) -> (EldenRingVersion, Seq<ParseError>) {
    match pe64 {
        Ok(v) => match eldenring_version(v) {
            Some(e) => (e, Seq::empty()),
            None => (
                EldenRingVersion::VersionUnknown,
                seq![ParseError::MatchProductVersion { product_version: v }],
            ),
        },
        Err(e) => (EldenRingVersion::VersionUnknown, seq![e]),
    }
}

/// Assembles an Elden Ring process from what was read about it: the memory
/// maps (executable path and module base), the environment (path, consulted
/// when the maps fail, with the default 64-bit image base), and the 64-bit
/// product-version read of the executable.
pub fn parse(
    pid: u32,
    comm: String,
    maps: Result<(String, u64), ParseError>,
    environ: Result<String, ParseError>,
    pe64: Result<(u16, u16, u16), ParseError>,
) -> (r: GameProcess)
    ensures
        r.pid == pid,
        r.comm == comm,
        r.address_size == AddressSize::Bits64,
        r.exe_path@ == match maps {
            Ok((path, _)) => path@,
            Err(_) => match environ {
                Ok(path) => path@,
                Err(_) => Seq::<char>::empty(),
            },
        },
        r.module_base == match maps {
            Ok((_, b)) => b,
            Err(_) => DEFAULT_BASE_64,
        },
        ({
            let (version, version_errors) = er_version(pe64);
            let location_errors = match maps {
                Ok(_) => Seq::<ParseError>::empty(),
                Err(e) => match environ {
                    Ok(_) => seq![e],
                    Err(e2) => seq![e, e2],
                },
            };
            &&& r.game_version == GameVersion::EldenRing(version)
            &&& r.parse_state.errors() == state_errors(location_errors + version_errors)
        }),
{
    let mut parse_errors: Vec<ParseError> = Vec::new();
    let (exe_path, module_base) = match maps {
        Ok((exe_path, module_base)) => (exe_path, module_base),
        Err(err) => {
            parse_errors.push(err);
            let exe_path = match environ {
                Ok(path) => path,
                Err(err) => {
                    parse_errors.push(err);
                    String::new()
                },
            };
            (exe_path, DEFAULT_BASE_64)
        },
    };
    let ghost location_errors = parse_errors@;
    let looked_up = match pe64 {
        Ok(v) => match_version(v),
        Err(err) => Err(err),
    };
    let version = match looked_up {
        Ok(v) => v,
        Err(err) => {
            parse_errors.push(err);
            EldenRingVersion::VersionUnknown
        },
    };
    assert(parse_errors@ =~= location_errors + er_version(pe64).1);
    let parse_state = if parse_errors.len() == 0 {
        ParseState::Valid
    } else {
        ParseState::Invalid(parse_errors)
    };
    GameProcess {
        pid,
        comm,
        exe_path,
        module_base,
        parse_state,
        game_version: GameVersion::EldenRing(version),
        address_size: AddressSize::Bits64,
    }
}

} // verus!
