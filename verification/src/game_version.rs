use vstd::prelude::*;

verus! {

/// The games that can be attached to.
#[derive(Debug, Clone, Copy, PartialEq, Eq, Structural)]
pub enum Game {
    DarkSouls2,
    EldenRing,
}

/// The releases of Dark Souls II that are told apart.
#[derive(Debug, Clone, Copy, PartialEq, Eq, Structural)]
pub enum DarkSouls2Version {
    Vanilla1_0_3,
    Vanilla1_0_4,
    Vanilla1_0_5,
    Vanilla1_0_7,
    Vanilla1_0_10,
    Vanilla1_0_11,
    Vanilla1_0_12,
    VanillaUnknown,
    Scholar1_0_1,
    Scholar1_0_2,
    Scholar1_0_3,
    ScholarUnknown,
}

/// The releases of Elden Ring that are told apart.
#[derive(Debug, Clone, Copy, PartialEq, Eq, Structural)]
pub enum EldenRingVersion {
    Version1_2_0,
    Version1_2_1,
    Version1_2_2,
    Version1_2_3,
    Version1_3_0,
    Version1_3_1,
    Version1_3_2,
    Version1_4_0,
    Version1_4_1,
    Version1_5_0,
    Version1_6_0,
    Version1_7_0,
    Version1_8_0,
    Version1_8_1,
    Version1_9_0,
    Version1_9_1,
    Version2_0_0,
    Version2_0_1,
    Version2_2_0,
    Version2_2_3,
    Version2_3_0,
    Version2_4_0,
    Version2_5_0,
    Version2_6_0,
    Version2_6_1,
    Version2_6_2,
    VersionUnknown,
}

/// The release numbers (major, minor, patch) that a Dark Souls II release is
/// named after; none for the unknown releases.
pub open spec fn ds2_release_numbers(v: DarkSouls2Version) -> Option<(u16, u16, u16)> {
    match v {
        DarkSouls2Version::Vanilla1_0_3 => Some((1, 0, 3)),
        DarkSouls2Version::Vanilla1_0_4 => Some((1, 0, 4)),
        DarkSouls2Version::Vanilla1_0_5 => Some((1, 0, 5)),
        DarkSouls2Version::Vanilla1_0_7 => Some((1, 0, 7)),
        DarkSouls2Version::Vanilla1_0_10 => Some((1, 0, 10)),
        DarkSouls2Version::Vanilla1_0_11 => Some((1, 0, 11)),
        DarkSouls2Version::Vanilla1_0_12 => Some((1, 0, 12)),
        DarkSouls2Version::Scholar1_0_1 => Some((1, 0, 1)),
        DarkSouls2Version::Scholar1_0_2 => Some((1, 0, 2)),
        DarkSouls2Version::Scholar1_0_3 => Some((1, 0, 3)),
        DarkSouls2Version::VanillaUnknown | DarkSouls2Version::ScholarUnknown => None,
    }
}

/// The release numbers (major, minor, patch) that an Elden Ring release is
/// named after; none for the unknown release.
pub open spec fn er_release_numbers(v: EldenRingVersion) -> Option<(u16, u16, u16)> {
    match v {
        EldenRingVersion::Version1_2_0 => Some((1, 2, 0)),
        EldenRingVersion::Version1_2_1 => Some((1, 2, 1)),
        EldenRingVersion::Version1_2_2 => Some((1, 2, 2)),
        EldenRingVersion::Version1_2_3 => Some((1, 2, 3)),
        EldenRingVersion::Version1_3_0 => Some((1, 3, 0)),
        EldenRingVersion::Version1_3_1 => Some((1, 3, 1)),
        EldenRingVersion::Version1_3_2 => Some((1, 3, 2)),
        EldenRingVersion::Version1_4_0 => Some((1, 4, 0)),
        EldenRingVersion::Version1_4_1 => Some((1, 4, 1)),
        EldenRingVersion::Version1_5_0 => Some((1, 5, 0)),
        EldenRingVersion::Version1_6_0 => Some((1, 6, 0)),
        EldenRingVersion::Version1_7_0 => Some((1, 7, 0)),
        EldenRingVersion::Version1_8_0 => Some((1, 8, 0)),
        EldenRingVersion::Version1_8_1 => Some((1, 8, 1)),
        EldenRingVersion::Version1_9_0 => Some((1, 9, 0)),
        EldenRingVersion::Version1_9_1 => Some((1, 9, 1)),
        EldenRingVersion::Version2_0_0 => Some((2, 0, 0)),
        EldenRingVersion::Version2_0_1 => Some((2, 0, 1)),
        EldenRingVersion::Version2_2_0 => Some((2, 2, 0)),
        EldenRingVersion::Version2_2_3 => Some((2, 2, 3)),
        EldenRingVersion::Version2_3_0 => Some((2, 3, 0)),
        EldenRingVersion::Version2_4_0 => Some((2, 4, 0)),
        EldenRingVersion::Version2_5_0 => Some((2, 5, 0)),
        EldenRingVersion::Version2_6_0 => Some((2, 6, 0)),
        EldenRingVersion::Version2_6_1 => Some((2, 6, 1)),
        EldenRingVersion::Version2_6_2 => Some((2, 6, 2)),
        EldenRingVersion::VersionUnknown => None,
    }
}

/// A game together with its release.
#[derive(Debug, Clone, Copy, PartialEq, Eq, Structural)]
pub enum GameVersion {
    DarkSouls2(DarkSouls2Version),
    EldenRing(EldenRingVersion),
}

impl GameVersion {
    pub open spec fn spec_game(self) -> Game {
        match self {
            GameVersion::DarkSouls2(_) => Game::DarkSouls2,
            GameVersion::EldenRing(_) => Game::EldenRing,
        }
    }

    /// The game of a release.
    pub fn game(&self) -> (r: Game)
        ensures
            r == self.spec_game(),
    {
        match self {
            GameVersion::DarkSouls2(_) => Game::DarkSouls2,
            GameVersion::EldenRing(_) => Game::EldenRing,
        }
    }
}

impl DarkSouls2Version {
    /// Scholar of the First Sin, the 64-bit edition.
    pub open spec fn spec_is_scholar(self) -> bool {
        match self {
            DarkSouls2Version::Scholar1_0_1 | DarkSouls2Version::Scholar1_0_2
            | DarkSouls2Version::Scholar1_0_3 | DarkSouls2Version::ScholarUnknown => true,
            _ => false,
        }
    }

    pub fn is_scholar(&self) -> (r: bool)
        ensures
            r == self.spec_is_scholar(),
    {
        match self {
            DarkSouls2Version::Scholar1_0_1 | DarkSouls2Version::Scholar1_0_2
            | DarkSouls2Version::Scholar1_0_3 | DarkSouls2Version::ScholarUnknown => true,
            _ => false,
        }
    }
}

/// The release type of one game, read out of a [`GameVersion`].
pub trait Version: Sized {
    spec fn spec_from_game_version(v: GameVersion) -> Option<Self>;

    fn from_game_version(v: &GameVersion) -> (r: Option<Self>)
        ensures
            r == Self::spec_from_game_version(*v),
    ;
}

impl Version for DarkSouls2Version {
    open spec fn spec_from_game_version(v: GameVersion) -> Option<Self> {
        match v {
            GameVersion::DarkSouls2(d) => Some(d),
            _ => None,
        }
    }

    fn from_game_version(v: &GameVersion) -> (r: Option<Self>) {
        match v {
            GameVersion::DarkSouls2(d) => Some(*d),
            _ => None,
        }
    }
}

impl Version for EldenRingVersion {
    open spec fn spec_from_game_version(v: GameVersion) -> Option<Self> {
        match v {
            GameVersion::EldenRing(e) => Some(e),
            _ => None,
        }
    }

    fn from_game_version(v: &GameVersion) -> (r: Option<Self>) {
        match v {
            GameVersion::EldenRing(e) => Some(*e),
            _ => None,
        }
    }
}

} // verus!
