use vstd::prelude::*;

verus! {

/// The command line: a command to run once, or none to open the interface.
pub struct Cli {
    pub command: Option<Commands>,
}

/// What can be done from the command line.
#[derive(Debug, Clone, Copy, PartialEq, Eq, Structural)]
pub enum Commands {
    /// Quit to the main menu.
    Quitout,
    /// Kill the locked-on target.
    KillTarget,
    /// Do nothing, once attached.
    Test,
}

/// A switch given on the command line.
#[derive(Debug, Clone, Copy, PartialEq, Eq, Structural)]
pub enum OnOff {
    On,
    Off,
}

impl From<OnOff> for bool {
    fn from(val: OnOff) -> (r: bool) {
        match val {
            OnOff::On => true,
            OnOff::Off => false,
        }
    }
}

impl vstd::std_specs::convert::FromSpecImpl<OnOff> for bool {
    open spec fn obeys_from_spec() -> bool {
        true
    }

    open spec fn from_spec(v: OnOff) -> bool {
        v == OnOff::On
    }
}

/// What a run of the command line does first.
#[derive(Debug, Clone, Copy, PartialEq, Eq, Structural)]
pub enum CliAction {
    /// Open the interface.
    OpenInterface,
    /// Attach to the game, then run the command.
    AttachAndRun(Commands),
}

impl Cli {
    /// Without a command the interface opens; with one, the tool attaches to
    /// the game and runs it.
    pub fn action(&self) -> (r: CliAction)
        ensures
            match self.command {
                None => r == CliAction::OpenInterface,
                Some(c) => r == CliAction::AttachAndRun(c),
            },
    {
        match self.command {
            None => CliAction::OpenInterface,
            Some(c) => CliAction::AttachAndRun(c),
        }
    }
}

} // verus!
