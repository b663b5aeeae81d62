pub mod darksouls2_parse;
pub mod eldenring_parse;
pub mod parse;
pub mod proc_text;
pub mod process_manager;
pub mod singleton;

use vstd::prelude::*;
use crate::game_version::{Game, GameVersion};

verus! {

/// Whether the attached process is a 32-bit or a 64-bit program.
#[derive(Debug, Clone, Copy, PartialEq, Eq, Structural)]
pub enum AddressSize {
    Bits32,
    Bits64,
}

/// Why the PE parser could not give the product version of an executable.
#[derive(Debug)]
pub enum PeFindError {
    /// The file is a PE image of the other word size.
    PeMagic,
    /// The version resource has no fixed file information.
    NoFixedFileInfo,
    /// Any other parse failure, with the parser's description.
    Other(String),
}

/// Why reading the product version of an executable failed.
#[derive(Debug)]
pub enum ParsePeError {
    /// The file could not be opened; the I/O error kind.
    IoError(String),
    PeError(PeFindError),
}

/// What went wrong while reading the details of a game process.
#[derive(Debug)]
pub enum ParseError {
    ScanMaps { pid: u32, error_kind: Option<String> },
    ExeNotFound { pid: u32, error_kind: Option<String> },
    ParsePe { error: ParsePeError },
    MatchProductVersion { product_version: (u16, u16, u16) },
}

/// Whether the details of a process were read without error.
#[derive(Debug)]
pub enum ParseState {
    Valid,
    Invalid(Vec<ParseError>),
}

/// A running game process and what was read about it.
#[derive(Debug)]
pub struct GameProcess {
    pub pid: u32,
    pub game_version: GameVersion,
    pub comm: String,
    pub exe_path: String,
    pub module_base: u64,
    pub address_size: AddressSize,
    pub parse_state: ParseState,
}

/// Attaching succeeded, but the process was read with errors.
#[derive(Debug, Clone, Copy, PartialEq, Eq, Structural)]
pub struct AttachError {
    pub error_count: usize,
}

/// The number of errors that a parse state holds.
pub open spec fn error_count(state: ParseState) -> nat {
    match state.errors() {
        None => 0,
        Some(errors) => errors.len(),
    }
}

/// Turns the errors collected while reading a process into its parse state.
pub fn parse_state_of(errors: Vec<ParseError>) -> (r: ParseState)
    ensures
        errors@.len() == 0 ==> r is Valid,
        errors@.len() > 0 ==> (r matches ParseState::Invalid(e) && e@ == errors@),
{
    if errors.len() == 0 {
        ParseState::Valid
    } else {
        ParseState::Invalid(errors)
    }
}

fn copy_string(s: &String) -> (r: String)
    ensures
        r == *s,
{
    s.clone()
}

fn copy_optional_string(s: &Option<String>) -> (r: Option<String>)
    ensures
        r == *s,
{
    match s {
        Some(v) => Some(copy_string(v)),
        None => None,
    }
}

impl PeFindError {
    pub fn duplicate(&self) -> (r: PeFindError)
        ensures
            r == *self,
    {
        match self {
            PeFindError::PeMagic => PeFindError::PeMagic,
            PeFindError::NoFixedFileInfo => PeFindError::NoFixedFileInfo,
            PeFindError::Other(s) => PeFindError::Other(copy_string(s)),
        }
    }
}

impl ParsePeError {
    pub fn duplicate(&self) -> (r: ParsePeError)
        ensures
            r == *self,
    {
        match self {
            ParsePeError::IoError(s) => ParsePeError::IoError(copy_string(s)),
            ParsePeError::PeError(e) => ParsePeError::PeError(e.duplicate()),
        }
    }
}

impl ParseError {
    pub fn duplicate(&self) -> (r: ParseError)
        ensures
            r == *self,
    {
        match self {
            ParseError::ScanMaps { pid, error_kind } => ParseError::ScanMaps {
                pid: *pid,
                error_kind: copy_optional_string(error_kind),
            },
            ParseError::ExeNotFound { pid, error_kind } => ParseError::ExeNotFound {
                pid: *pid,
                error_kind: copy_optional_string(error_kind),
            },
            ParseError::ParsePe { error } => ParseError::ParsePe { error: error.duplicate() },
            ParseError::MatchProductVersion { product_version } => ParseError::MatchProductVersion {
                product_version: *product_version,
            },
        }
    }
}

impl ParseState {
    /// The errors of an invalid state; `None` when valid.
    pub open spec fn errors(self) -> Option<Seq<ParseError>> {
        match self {
            ParseState::Valid => None,
            ParseState::Invalid(errors) => Some(errors@),
        }
    }

    pub fn duplicate(&self) -> (r: ParseState)
        ensures
            r.errors() == self.errors(),
    {
        match self {
            ParseState::Valid => ParseState::Valid,
            ParseState::Invalid(errors) => {
                let mut out: Vec<ParseError> = Vec::new();
                let mut i: usize = 0;
                while i < errors.len()
                    invariant
                        i <= errors@.len(),
                        out@ == errors@.take(i as int),
                    decreases errors@.len() - i,
                {
                    out.push(errors[i].duplicate());
                    i = i + 1;
                    assert(out@ =~= errors@.take(i as int));
                }
                assert(errors@.take(errors@.len() as int) =~= errors@);
                ParseState::Invalid(out)
            },
        }
    }

    /// The number of errors collected while reading the process.
    pub fn error_count(&self) -> (r: usize)
        ensures
            r == error_count(*self),
    {
        match self {
            ParseState::Valid => 0,
            ParseState::Invalid(errors) => errors.len(),
        }
    }
}

impl GameProcess {
    /// Both describe the same process with the same details.
    pub open spec fn same_as(self, other: GameProcess) -> bool {
        &&& self.pid == other.pid
        &&& self.game_version == other.game_version
        &&& self.comm == other.comm
        &&& self.exe_path == other.exe_path
        &&& self.module_base == other.module_base
        &&& self.address_size == other.address_size
        &&& self.parse_state.errors() == other.parse_state.errors()
    }

    /// A field-by-field copy.
    pub fn duplicate(&self) -> (r: GameProcess)
        ensures
            r.same_as(*self),
    {
        GameProcess {
            pid: self.pid,
            game_version: self.game_version,
            comm: copy_string(&self.comm),
            exe_path: copy_string(&self.exe_path),
            module_base: self.module_base,
            address_size: self.address_size,
            parse_state: self.parse_state.duplicate(),
        }
    }

    pub open spec fn spec_game(&self) -> Game {
        self.game_version.spec_game()
    }
}

/// Makes `process` the attached process; reports the number of errors met
/// while it was read, if there were any. The process is attached either way.
pub fn attach_to_process(attached: &mut Option<GameProcess>, process: GameProcess) -> (r: Result<
    (),
    AttachError,
>)
    ensures
        *final(attached) == Some(process),
        error_count(process.parse_state) == 0 ==> r is Ok,
        error_count(process.parse_state) > 0 ==> r == Err::<(), AttachError>(
            AttachError { error_count: error_count(process.parse_state) as usize },
        ),
{
    let len = process.parse_state.error_count();
    *attached = Some(process);
    if len > 0 {
        return Err(AttachError { error_count: len });
    }
    Ok(())
}

/// Attaches to the last of the game processes found, if there is one.
pub fn auto_attach(attached: &mut Option<GameProcess>, processes: Vec<GameProcess>) -> (r: Option<
    Result<(), AttachError>,
>)
    ensures
        processes@.len() == 0 ==> r is None && *final(attached) == *old(attached),
        processes@.len() > 0 ==> {
            let p = processes@.last();
            &&& *final(attached) == Some(p)
            &&& r matches Some(res) && (error_count(p.parse_state) == 0 ==> res is Ok) && (error_count(
                p.parse_state,
            ) > 0 ==> res == Err::<(), AttachError>(
                AttachError { error_count: error_count(p.parse_state) as usize },
            ))
        },
{
    let mut processes = processes;
    if let Some(process) = processes.pop() {
        return Some(attach_to_process(attached, process));
    }
    None
}

} // verus!
