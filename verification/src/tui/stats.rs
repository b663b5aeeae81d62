use vstd::prelude::*;

verus! {

/// The attributes of a Dark Souls II character.
#[derive(Debug, Clone, Copy, PartialEq, Eq, Structural)]
pub struct Ds2Stats {
    pub vigor: u16,
    pub endurance: u16,
    pub vitality: u16,
    pub attunement: u16,
    pub strength: u16,
    pub dexterity: u16,
    pub adaptability: u16,
    pub intelligence: u16,
    pub faith: u16,
}

/// The rows of the Dark Souls II stats list.
#[derive(Debug, Clone, Copy, PartialEq, Eq, Structural)]
pub enum StatsItems {
    Vigor,
    Endurance,
    Vitality,
    Attunement,
    Strength,
    Dexterity,
    Intelligence,
    Faith,
    Adaptability,
}

/// A value to store into one attribute.
#[derive(Debug, Clone, Copy, PartialEq, Eq, Structural)]
pub struct StatWrite {
    pub stat: StatsItems,
    pub value: u16,
}

/// The order of the rows: as the game's level-up screen lists them.
pub open spec fn stats_items_order() -> Seq<StatsItems> {
    seq![
        StatsItems::Vigor,
        StatsItems::Endurance,
        StatsItems::Vitality,
        StatsItems::Attunement,
        StatsItems::Strength,
        StatsItems::Dexterity,
        StatsItems::Adaptability,
        StatsItems::Intelligence,
        StatsItems::Faith,
    ]
}

/// `v` moved by `delta`, held within `0..=u16::MAX`.
pub open spec fn saturating_shift(v: u16, delta: i16) -> u16 {
    if v + delta < 0 {
        0
    } else if v + delta > u16::MAX {
        u16::MAX
    } else {
        (v + delta) as u16
    }
}

impl StatsItems {
    /// The attribute of `stats` that this row shows.
    pub open spec fn spec_current(self, stats: Ds2Stats) -> u16 {
        match self {
            StatsItems::Vigor => stats.vigor,
            StatsItems::Endurance => stats.endurance,
            StatsItems::Vitality => stats.vitality,
            StatsItems::Attunement => stats.attunement,
            StatsItems::Strength => stats.strength,
            StatsItems::Dexterity => stats.dexterity,
            StatsItems::Intelligence => stats.intelligence,
            StatsItems::Faith => stats.faith,
            StatsItems::Adaptability => stats.adaptability,
        }
    }

    /// The rows, in the order they are listed.
    pub fn array() -> (r: Vec<StatsItems>)
        ensures
            r@ == stats_items_order(),
    {
        let r: Vec<StatsItems> = vec![
            StatsItems::Vigor,
            StatsItems::Endurance,
            StatsItems::Vitality,
            StatsItems::Attunement,
            StatsItems::Strength,
            StatsItems::Dexterity,
            StatsItems::Adaptability,
            StatsItems::Intelligence,
            StatsItems::Faith,
        ];
        assert(r@ =~= stats_items_order());
        r
    }

    /// The attribute of `stats` that this row shows.
    pub fn current(&self, stats: &Ds2Stats) -> (r: u16)
        ensures
            r == self.spec_current(*stats),
    {
        match self {
            StatsItems::Vigor => stats.vigor,
            StatsItems::Endurance => stats.endurance,
            StatsItems::Vitality => stats.vitality,
            StatsItems::Attunement => stats.attunement,
            StatsItems::Strength => stats.strength,
            StatsItems::Dexterity => stats.dexterity,
            StatsItems::Intelligence => stats.intelligence,
            StatsItems::Faith => stats.faith,
            StatsItems::Adaptability => stats.adaptability,
        }
    }

    /// Sets this attribute to `val`.
    pub fn set_stat(&self, val: u16) -> (r: StatWrite)
        ensures
            r == (StatWrite { stat: *self, value: val }),
    {
        StatWrite { stat: *self, value: val }
    }

    /// Moves this attribute by `val`, held within the range of a `u16`.
    pub fn increment_stat(&self, stats: &Ds2Stats, val: i16) -> (r: StatWrite)
        ensures
            r == (StatWrite { stat: *self, value: saturating_shift(self.spec_current(*stats), val) }),
    {
        let cur = self.current(stats);
        let moved: i32 = cur as i32 + val as i32;
        let value: u16 = if moved < 0 {
            0
        } else if moved > u16::MAX as i32 {
            u16::MAX
        } else {
            moved as u16
        };
        self.set_stat(value)
    }
}

/// The attributes of an Elden Ring character, and the blessings of the
/// expansion.
#[derive(Debug, Clone, Copy, PartialEq, Eq, Structural)]
pub struct PlayerStats {
    pub vigor: i32,
    pub mind: i32,
    pub endurance: i32,
    pub strength: i32,
    pub dexterity: i32,
    pub intelligence: i32,
    pub faith: i32,
    pub arcane: i32,
    pub scadutree: u8,
    pub spirit_ash: u8,
    pub rune_memory: i32,
}

/// The rows of the Elden Ring stats list.
#[derive(Debug, Clone, Copy, PartialEq, Eq, Structural)]
pub enum Stats {
    Vigor,
    Mind,
    Endurance,
    Strength,
    Dexterity,
    Intelligence,
    Faith,
    Arcane,
    Scadutree,
    SpiritAsh,
    RuneLevel,
    RuneMem,
}

/// A value to store for an Elden Ring row.
#[derive(Debug, Clone, Copy, PartialEq, Eq, Structural)]
pub enum ErStatWrite {
    /// An attribute, as a 32-bit value.
    Attribute { stat: Stats, value: i32 },
    /// A blessing of the expansion, as a byte.
    Blessing { stat: Stats, level: u8 },
    /// Nothing is written for this row.
    Nothing,
}

/// The rows listed without the expansion.
pub open spec fn base_stats_order() -> Seq<Stats> {
    seq![
        Stats::Vigor,
        Stats::Mind,
        Stats::Endurance,
        Stats::Strength,
        Stats::Dexterity,
        Stats::Intelligence,
        Stats::Faith,
        Stats::Arcane,
    ]
}

/// The rows listed: the expansion adds its two blessings.
pub open spec fn er_stats_order(dlc: bool) -> Seq<Stats> {
    if dlc {
        base_stats_order() + seq![Stats::Scadutree, Stats::SpiritAsh]
    } else {
        base_stats_order()
    }
}

impl Stats {
    /// The value of this row in `stats`, for the rows that can be changed.
    pub open spec fn spec_current(self, stats: PlayerStats) -> Option<int> {
        match self {
            Stats::Vigor => Some(stats.vigor as int),
            Stats::Mind => Some(stats.mind as int),
            Stats::Endurance => Some(stats.endurance as int),
            Stats::Strength => Some(stats.strength as int),
            Stats::Dexterity => Some(stats.dexterity as int),
            Stats::Intelligence => Some(stats.intelligence as int),
            Stats::Faith => Some(stats.faith as int),
            Stats::Arcane => Some(stats.arcane as int),
            Stats::Scadutree => Some(stats.scadutree as int),
            Stats::SpiritAsh => Some(stats.spirit_ash as int),
            Stats::RuneLevel | Stats::RuneMem => None,
        }
    }

    /// What setting this row to `val` writes: the attributes take it whole,
    /// the blessings its low byte, the rune rows nothing.
    pub open spec fn spec_set(self, val: i32) -> ErStatWrite {
        match self {
            Stats::Scadutree | Stats::SpiritAsh => ErStatWrite::Blessing { stat: self, level: val as u8 },
            Stats::RuneLevel | Stats::RuneMem => ErStatWrite::Nothing,
            _ => ErStatWrite::Attribute { stat: self, value: val },
        }
    }

    /// The rows listed, with or without the expansion.
    pub fn array(dlc: bool) -> (r: Vec<Stats>)
        ensures
            r@ == er_stats_order(dlc),
    {
        let mut r: Vec<Stats> = vec![
            Stats::Vigor,
            Stats::Mind,
            Stats::Endurance,
            Stats::Strength,
            Stats::Dexterity,
            Stats::Intelligence,
            Stats::Faith,
            Stats::Arcane,
        ];
        if dlc {
            r.push(Stats::Scadutree);
            r.push(Stats::SpiritAsh);
        }
        assert(r@ =~= er_stats_order(dlc));
        r
    }

    /// What to write to set this row to `val`.
    pub fn set_stat(&self, val: i32) -> (r: ErStatWrite)
        ensures
            r == self.spec_set(val),
    {
        match self {
            Stats::Scadutree | Stats::SpiritAsh => ErStatWrite::Blessing { stat: *self, level: val as u8 },
            Stats::RuneLevel | Stats::RuneMem => ErStatWrite::Nothing,
            _ => ErStatWrite::Attribute { stat: *self, value: val },
        }
    }

    /// What to write to move this row by `val`: the row's own value in
    /// `stats` plus `val` (see [`lemma_er_rows_read_their_attribute`]);
    /// nothing for the rune rows.
    pub fn increment_stat(&self, stats: &PlayerStats, val: i32) -> (r: ErStatWrite)
        requires
            self.spec_current(*stats) matches Some(c) ==> i32::MIN <= c + val <= i32::MAX,
        ensures
            r == match self.spec_current(*stats) {
                Some(c) => self.spec_set((c + val) as i32),
                None => ErStatWrite::Nothing,
            },
    {
        match self {
            Stats::Vigor => self.set_stat(stats.vigor + val),
            Stats::Mind => self.set_stat(stats.mind + val),
            Stats::Endurance => self.set_stat(stats.endurance + val),
            Stats::Strength => self.set_stat(stats.strength + val),
            Stats::Dexterity => self.set_stat(stats.dexterity + val),
            Stats::Intelligence => self.set_stat(stats.intelligence + val),
            Stats::Faith => self.set_stat(stats.faith + val),
            Stats::Arcane => self.set_stat(stats.arcane + val),
            Stats::Scadutree => self.set_stat(stats.scadutree as i32 + val),
            Stats::SpiritAsh => self.set_stat(stats.spirit_ash as i32 + val),
            Stats::RuneLevel | Stats::RuneMem => ErStatWrite::Nothing,
        }
    }
}

/// The attributes of a Dark Souls II character, in the order they are
/// declared.
pub open spec fn ds2_stat_fields(s: Ds2Stats) -> Seq<u16> {
    seq![s.vigor, s.endurance, s.vitality, s.attunement, s.strength, s.dexterity, s.adaptability, s.intelligence, s.faith]
}

/// Each row of the Dark Souls II list shows, and is moved from, the
/// attribute in the same place of the character's attributes.
pub proof fn lemma_ds2_rows_read_their_attribute(s: Ds2Stats, i: int)
    requires
        0 <= i < 9,
    ensures
        stats_items_order()[i].spec_current(s) == ds2_stat_fields(s)[i],
{
}

/// The attributes and blessings of an Elden Ring character, in the order
/// they are declared.
pub open spec fn er_stat_fields(s: PlayerStats) -> Seq<int> {
    seq![
        s.vigor as int,
        s.mind as int,
        s.endurance as int,
        s.strength as int,
        s.dexterity as int,
        s.intelligence as int,
        s.faith as int,
        s.arcane as int,
        s.scadutree as int,
        s.spirit_ash as int,
    ]
}

/// Each row of the Elden Ring list (with the expansion's) starts from the
/// value in the same place of the character's attributes: moving it by
/// `val` writes that row with that value plus `val`, an attribute whole and
/// a blessing as its low byte. The rune rows write nothing.
pub proof fn lemma_er_rows_read_their_attribute(s: PlayerStats, i: int, val: i32)
    requires
        0 <= i < 10,
        i32::MIN <= er_stat_fields(s)[i] + val <= i32::MAX,
    ensures
        er_stats_order(true)[i].spec_current(s) == Some(er_stat_fields(s)[i]),
        i < 8 ==> er_stats_order(true)[i].spec_set((er_stat_fields(s)[i] + val) as i32) == (ErStatWrite::Attribute {
            stat: er_stats_order(true)[i],
            value: (er_stat_fields(s)[i] + val) as i32,
        }),
        i >= 8 ==> er_stats_order(true)[i].spec_set((er_stat_fields(s)[i] + val) as i32) == (ErStatWrite::Blessing {
            stat: er_stats_order(true)[i],
            level: ((er_stat_fields(s)[i] + val) as i32) as u8,
        }),
        Stats::RuneLevel.spec_current(s) is None,
        Stats::RuneMem.spec_current(s) is None,
{
    assert(er_stats_order(true) =~= seq![
        Stats::Vigor,
        Stats::Mind,
        Stats::Endurance,
        Stats::Strength,
        Stats::Dexterity,
        Stats::Intelligence,
        Stats::Faith,
        Stats::Arcane,
        Stats::Scadutree,
        Stats::SpiritAsh,
    ]);
}

} // verus!
