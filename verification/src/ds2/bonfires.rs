use vstd::prelude::*;

verus! {

/// A bonfire of Dark Souls II: its name, the area it is in, and the id the
/// game knows it by.
pub struct Bonfire {
    pub name: &'static str,
    pub main_area: &'static str,
    pub bonfire_id: i32,
}

impl Bonfire {
    /// The bonfire's line in the travel list: marked with `(*)` when it is
    /// the one the player revives at.
    pub fn list_name(&self, revive_bonfire_id: i32) -> (r: String)
        ensures
            r@ == if self.bonfire_id == revive_bonfire_id {
                "(*) "@ + self.name@
            } else {
                self.name@
            },
    {
        if self.bonfire_id == revive_bonfire_id {
            let mut r = String::from_str("(*) ");
            r.append(self.name);
            r
        } else {
            String::from_str(self.name)
        }
    }
}

/// The number of bonfires.
pub const BONFIRE_COUNT: usize = 77;

/// The ids of the bonfires, in the order of the game's areas.
pub open spec fn bonfire_ids() -> Seq<i32> {
    seq![2650i32, 4650i32, 10670i32, 10655i32, 10660i32, 10675i32, 31655i32, 31650i32, 31660i32, 18650i32, 16655i32, 16670i32, 16675i32, 16650i32, 16660i32, 16685i32, 16665i32, 23650i32, 23655i32, 23660i32, 23665i32, 17665i32, 17650i32, 17655i32, 17670i32, 17675i32, 19655i32, 19650i32, 19660i32, 19665i32, 29650i32, 32655i32, 32660i32, 33655i32, 33660i32, 14655i32, 14660i32, 14650i32, 34655i32, 34650i32, 25665i32, 25655i32, 25650i32, 25660i32, 21650i32, 21660i32, 21665i32, 21655i32, 11650i32, 11655i32, 11660i32, 11670i32, 24655i32, 24650i32, 15650i32, 15655i32, 27650i32, 27655i32, 35650i32, 35685i32, 35655i32, 35670i32, 35675i32, 35680i32, 35665i32, 36650i32, 36660i32, 36655i32, 36670i32, 36675i32, 36665i32, 37650i32, 37660i32, 37685i32, 37665i32, 37675i32, 37670i32]
}

/// Every bonfire, in the order of the game's areas.
pub fn bonfires() -> (r: Vec<Bonfire>)
    ensures
        r@.len() == BONFIRE_COUNT,
        forall|i: int| 0 <= i < r@.len() ==> #[trigger] r@[i].bonfire_id == bonfire_ids()[i],
{
    let mut r: Vec<Bonfire> = Vec::new();
    r.push(Bonfire { name: "Fire Keeper's Dwelling", main_area: "Things Betwixt", bonfire_id: 2650 });
    r.push(Bonfire { name: "Far Fire", main_area: "Majula", bonfire_id: 4650 });
    r.push(Bonfire { name: "Crestfallen's Retreat", main_area: "Forest of Fallen Giants", bonfire_id: 10670 });
    r.push(Bonfire { name: "Cardinal Tower", main_area: "Forest of Fallen Giants", bonfire_id: 10655 });
    r.push(Bonfire { name: "Soldier's Rest", main_area: "Forest of Fallen Giants", bonfire_id: 10660 });
    r.push(Bonfire { name: "The Place Unbeknownst", main_area: "Forest of Fallen Giants", bonfire_id: 10675 });
    r.push(Bonfire { name: "Heide's Ruin", main_area: "Heide's Tower of Flame", bonfire_id: 31655 });
    r.push(Bonfire { name: "Tower of Flame", main_area: "Heide's Tower of Flame", bonfire_id: 31650 });
    r.push(Bonfire { name: "Cathedral of Blue", main_area: "Heide's Tower of Flame", bonfire_id: 31660 });
    r.push(Bonfire { name: "Unseen Path to Heide's", main_area: "No-man's Wharf", bonfire_id: 18650 });
    r.push(Bonfire { name: "Exile Holding Cells", main_area: "The Lost Bastille", bonfire_id: 16655 });
    r.push(Bonfire { name: "McDuff's Workshop", main_area: "The Lost Bastille", bonfire_id: 16670 });
    r.push(Bonfire { name: "Servant's Quarters", main_area: "The Lost Bastille", bonfire_id: 16675 });
    r.push(Bonfire { name: "Straid's Cell", main_area: "The Lost Bastille", bonfire_id: 16650 });
    r.push(Bonfire { name: "The Tower Apart", main_area: "The Lost Bastille", bonfire_id: 16660 });
    r.push(Bonfire { name: "The Saltfort", main_area: "Sinners' Rise", bonfire_id: 16685 });
    r.push(Bonfire { name: "Upper Ramparts", main_area: "Belfry Luna", bonfire_id: 16665 });
    r.push(Bonfire { name: "Undead Refuge", main_area: "Huntsman's Copse", bonfire_id: 23650 });
    r.push(Bonfire { name: "Bridge Approach", main_area: "Huntsman's Copse", bonfire_id: 23655 });
    r.push(Bonfire { name: "Undead Lockaway", main_area: "Huntsman's Copse", bonfire_id: 23660 });
    r.push(Bonfire { name: "Undead Purgatory", main_area: "Undead Purgatory", bonfire_id: 23665 });
    r.push(Bonfire { name: "Poison Pool", main_area: "Harvest Valley", bonfire_id: 17665 });
    r.push(Bonfire { name: "The Mines", main_area: "Harvest Valley", bonfire_id: 17650 });
    r.push(Bonfire { name: "Lower Earthen Peak", main_area: "Earthen Peak", bonfire_id: 17655 });
    r.push(Bonfire { name: "Central Earthen Peak", main_area: "Earthen Peak", bonfire_id: 17670 });
    r.push(Bonfire { name: "Upper Earthen Peak", main_area: "Earthen Peak", bonfire_id: 17675 });
    r.push(Bonfire { name: "Threshold Bridge", main_area: "Iron Keep", bonfire_id: 19655 });
    r.push(Bonfire { name: "Ironhearth Hall", main_area: "Iron Keep", bonfire_id: 19650 });
    r.push(Bonfire { name: "Eygil's Idol", main_area: "Iron Keep", bonfire_id: 19660 });
    r.push(Bonfire { name: "Belfry Sol Approach", main_area: "Belfry Sol", bonfire_id: 19665 });
    r.push(Bonfire { name: "Old Akelarre", main_area: "Shaded Woods", bonfire_id: 29650 });
    r.push(Bonfire { name: "Ruined Fork Road", main_area: "Shaded Woods", bonfire_id: 32655 });
    r.push(Bonfire { name: "Shaded Ruins", main_area: "Shaded Woods", bonfire_id: 32660 });
    r.push(Bonfire { name: "Gyrm's Respite", main_area: "Doors of Pharros", bonfire_id: 33655 });
    r.push(Bonfire { name: "Ordeal's End", main_area: "Doors of Pharros", bonfire_id: 33660 });
    r.push(Bonfire { name: "Royal Army Campsite", main_area: "Brightstone Cove Tseldora", bonfire_id: 14655 });
    r.push(Bonfire { name: "Chapel Threshold", main_area: "Brightstone Cove Tseldora", bonfire_id: 14660 });
    r.push(Bonfire { name: "Lower Brightstone Cove", main_area: "Brightstone Cove Tseldora", bonfire_id: 14650 });
    r.push(Bonfire { name: "Harvel's Resting Place", main_area: "Grave of Saints", bonfire_id: 34655 });
    r.push(Bonfire { name: "Grave Entrance", main_area: "Grave of Saints", bonfire_id: 34650 });
    r.push(Bonfire { name: "Upper Gutter", main_area: "The Gutter", bonfire_id: 25665 });
    r.push(Bonfire { name: "Central Gutter", main_area: "The Gutter", bonfire_id: 25655 });
    r.push(Bonfire { name: "Black Gulch Mouth", main_area: "Black Gulch", bonfire_id: 25650 });
    r.push(Bonfire { name: "Hidden Chamber", main_area: "Black Gulch", bonfire_id: 25660 });
    r.push(Bonfire { name: "King's Gate", main_area: "Drangleic Castle", bonfire_id: 21650 });
    r.push(Bonfire { name: "Forgotten Chamber", main_area: "Drangleic Castle", bonfire_id: 21660 });
    r.push(Bonfire { name: "Under Castle Drangleic", main_area: "Drangleic Castle", bonfire_id: 21665 });
    r.push(Bonfire { name: "Central Castle Drangleic", main_area: "Drangleic Castle", bonfire_id: 21655 });
    r.push(Bonfire { name: "Tower of Prayer", main_area: "Shrine of Amana", bonfire_id: 11650 });
    r.push(Bonfire { name: "Crumbled Ruins", main_area: "Shrine of Amana", bonfire_id: 11655 });
    r.push(Bonfire { name: "Rhoy's Resting Place", main_area: "Shrine of Amana", bonfire_id: 11660 });
    r.push(Bonfire { name: "Rise of the Dead", main_area: "Shrine of Amana", bonfire_id: 11670 });
    r.push(Bonfire { name: "Undead Crypt Entrance", main_area: "Undead Crypt", bonfire_id: 24655 });
    r.push(Bonfire { name: "Undead Ditch", main_area: "Undead Crypt", bonfire_id: 24650 });
    r.push(Bonfire { name: "Foregarden", main_area: "Aldia's Keep", bonfire_id: 15650 });
    r.push(Bonfire { name: "Ritual Site", main_area: "Aldia's Keep", bonfire_id: 15655 });
    r.push(Bonfire { name: "Dragon Aerie", main_area: "Dragon Aerie", bonfire_id: 27650 });
    r.push(Bonfire { name: "Shrine Entrance", main_area: "Dragon Shrine", bonfire_id: 27655 });
    r.push(Bonfire { name: "Sanctum Walk", main_area: "Shulva, Sanctum City", bonfire_id: 35650 });
    r.push(Bonfire { name: "Tower of Prayer", main_area: "Shulva, Sanctum City", bonfire_id: 35685 });
    r.push(Bonfire { name: "Priestess's Chamber", main_area: "Shulva, Sanctum City", bonfire_id: 35655 });
    r.push(Bonfire { name: "Hidden Sanctum Chamber", main_area: "Dragon's Sanctum", bonfire_id: 35670 });
    r.push(Bonfire { name: "Lair of the Imperfect", main_area: "Dragon's Sanctum", bonfire_id: 35675 });
    r.push(Bonfire { name: "Sanctum Interior", main_area: "Dragon's Sanctum", bonfire_id: 35680 });
    r.push(Bonfire { name: "Sanctum Nadir", main_area: "Dragon's Rest", bonfire_id: 35665 });
    r.push(Bonfire { name: "Throne Floor", main_area: "Brume Tower", bonfire_id: 36650 });
    r.push(Bonfire { name: "Upper Floor", main_area: "Brume Tower", bonfire_id: 36660 });
    r.push(Bonfire { name: "Foyer", main_area: "Brume Tower", bonfire_id: 36655 });
    r.push(Bonfire { name: "Lowermost Floor", main_area: "Brume Tower", bonfire_id: 36670 });
    r.push(Bonfire { name: "The Smelter Throne", main_area: "Brume Tower", bonfire_id: 36675 });
    r.push(Bonfire { name: "Iron Passage", main_area: "Iron Passage", bonfire_id: 36665 });
    r.push(Bonfire { name: "Outer Wall", main_area: "Frozen Eleum Loyce", bonfire_id: 37650 });
    r.push(Bonfire { name: "Abandoned Dwelling", main_area: "Frozen Eleum Loyce", bonfire_id: 37660 });
    r.push(Bonfire { name: "Inner Wall", main_area: "Frozen Eleum Loyce", bonfire_id: 37685 });
    r.push(Bonfire { name: "Lower Garrison", main_area: "Frozen Eleum Loyce", bonfire_id: 37665 });
    r.push(Bonfire { name: "Expulsion Chamber", main_area: "Frozen Eleum Loyce", bonfire_id: 37675 });
    r.push(Bonfire { name: "Grand Cathedral", main_area: "Grand Cathedral", bonfire_id: 37670 });
    assert(r@.map_values(|b: Bonfire| b.bonfire_id) =~= bonfire_ids());
    proof {
        assert forall|i: int| 0 <= i < r@.len() implies #[trigger] r@[i].bonfire_id == bonfire_ids()[i] by {
            assert(r@.map_values(|b: Bonfire| b.bonfire_id)[i] == r@[i].bonfire_id);
        }
    }
    r
}

} // verus!
