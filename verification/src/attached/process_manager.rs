use vstd::prelude::*;
use crate::attached::{AttachError, GameProcess, ParseState};
use crate::attached::parse::{comm_game, valid_comm_game};
use crate::attached::singleton;
use crate::game_version::Game;

verus! {

/// The game processes that were found, with what was read about each.
pub struct ProcessManager {
    processes: Vec<GameProcess>,
}

/// Whether one of `ps` has process id `pid`.
pub open spec fn has_pid(ps: Seq<GameProcess>, pid: u32) -> bool {
    exists|i: int| 0 <= i < ps.len() && (#[trigger] ps[i]).pid == pid
}

/// Whether one of the candidates has process id `pid`.
pub open spec fn candidate_has_pid(cs: Seq<(Game, u32, String)>, pid: u32) -> bool {
    exists|i: int| 0 <= i < cs.len() && (#[trigger] cs[i]).1 == pid
}

/// The running processes of a listing that are new game processes, in listing
/// order: a game's process name, and a process id that neither a known process
/// nor an earlier candidate has.
pub open spec fn candidates(known: Seq<GameProcess>, listing: Seq<(u32, String)>) -> Seq<(Game, u32, String)>
    decreases listing.len(),
{
    if listing.len() == 0 {
        Seq::empty()
    } else {
        let prev = candidates(known, listing.drop_last());
        let (pid, name) = listing.last();
        match comm_game(name@) {
            Some(g) => if !has_pid(known, pid) && !candidate_has_pid(prev, pid) {
                prev.push((g, pid, name))
            } else {
                prev
            },
            None => prev,
        }
    }
}

/// The processes whose flag in `alive` is set, in order.
pub open spec fn kept(ps: Seq<GameProcess>, alive: Seq<bool>) -> Seq<GameProcess>
    decreases ps.len(),
{
    if ps.len() == 0 {
        Seq::empty()
    } else {
        let prev = kept(ps.drop_last(), alive);
        if alive[ps.len() - 1] {
            prev.push(ps.last())
        } else {
            prev
        }
    }
}

/// The index of the first process that was read without error.
pub open spec fn first_valid(ps: Seq<GameProcess>) -> Option<int> {
    if exists|i: int| 0 <= i < ps.len() && (#[trigger] ps[i]).parse_state is Valid {
        Some(
            choose|i: int|
                0 <= i < ps.len() && (#[trigger] ps[i]).parse_state is Valid && forall|j: int|
                    0 <= j < i ==> (#[trigger] ps[j]).parse_state !is Valid,
        )
    } else {
        None
    }
}

/// Whether no two of `ps` have the same process id.
pub open spec fn distinct_pids(ps: Seq<GameProcess>) -> bool {
    forall|i: int, j: int| 0 <= i < j < ps.len() ==> #[trigger] ps[i].pid != #[trigger] ps[j].pid
}

/// Whether every one of `ps` carries the process name of a game.
pub open spec fn game_comms(ps: Seq<GameProcess>) -> bool {
    forall|i: int| 0 <= i < ps.len() ==> (#[trigger] comm_game(ps[i].comm@)) is Some
}

proof fn lemma_candidates_are_games(known: Seq<GameProcess>, listing: Seq<(u32, String)>)
    ensures
        forall|i: int|
            0 <= i < candidates(known, listing).len() ==> comm_game(
                (#[trigger] candidates(known, listing)[i]).2@,
            ) == Some(candidates(known, listing)[i].0),
    decreases listing.len(),
{
    if listing.len() > 0 {
        lemma_candidates_are_games(known, listing.drop_last());
        let prev = candidates(known, listing.drop_last());
        let cs = candidates(known, listing);
        assert forall|i: int| 0 <= i < cs.len() implies comm_game((#[trigger] cs[i]).2@) == Some(cs[i].0) by {
            if i < prev.len() {
                assert(cs[i] == prev[i]);
            }
        }
    }
}

proof fn lemma_kept_from(ps: Seq<GameProcess>, alive: Seq<bool>)
    ensures
        forall|i: int| 0 <= i < kept(ps, alive).len() ==> ps.contains(#[trigger] kept(ps, alive)[i]),
    decreases ps.len(),
{
    if ps.len() > 0 {
        let rest = ps.drop_last();
        lemma_kept_from(rest, alive);
        let prev = kept(rest, alive);
        let k = kept(ps, alive);
        assert forall|i: int| 0 <= i < k.len() implies ps.contains(#[trigger] k[i]) by {
            if i < prev.len() {
                assert(k[i] == prev[i]);
                assert(rest.contains(prev[i]));
                let w = choose|j: int| 0 <= j < rest.len() && rest[j] == prev[i];
                assert(ps[w] == rest[w]);
            } else {
                assert(ps[ps.len() - 1] == k[i]);
            }
        }
    }
}

/// A refresh keeps every known process a game's process: the new ones read
/// carry the names of their candidates, which are games' names.
pub proof fn lemma_refresh_keeps_game_comms(
    known: Seq<GameProcess>,
    listing: Seq<(u32, String)>,
    parsed: Seq<GameProcess>,
    alive: Seq<bool>,
)
    requires
        game_comms(known),
        parsed.len() == candidates(known, listing).len(),
        forall|i: int| 0 <= i < parsed.len() ==> (#[trigger] parsed[i]).comm@ == candidates(known, listing)[i].2@,
    ensures
        game_comms(kept(known + parsed, alive)),
{
    lemma_candidates_are_games(known, listing);
    let cs = candidates(known, listing);
    let all = known + parsed;
    assert forall|i: int| 0 <= i < all.len() implies (#[trigger] comm_game(all[i].comm@)) is Some by {
        if i < known.len() {
            assert(all[i] == known[i]);
        } else {
            assert(all[i] == parsed[i - known.len()]);
            assert(comm_game(cs[i - known.len()].2@) is Some);
        }
    }
    lemma_kept_from(all, alive);
    let k = kept(all, alive);
    assert forall|i: int| 0 <= i < k.len() implies (#[trigger] comm_game(k[i].comm@)) is Some by {
        assert(all.contains(k[i]));
        let w = choose|j: int| 0 <= j < all.len() && all[j] == k[i];
        assert(comm_game(all[w].comm@) is Some);
    }
}

proof fn lemma_candidates_are_new(known: Seq<GameProcess>, listing: Seq<(u32, String)>)
    ensures
        ({
            let cs = candidates(known, listing);
            &&& forall|i: int, j: int| 0 <= i < j < cs.len() ==> #[trigger] cs[i].1 != #[trigger] cs[j].1
            &&& forall|i: int| 0 <= i < cs.len() ==> !has_pid(known, #[trigger] cs[i].1)
        }),
    decreases listing.len(),
{
    if listing.len() > 0 {
        lemma_candidates_are_new(known, listing.drop_last());
        let prev = candidates(known, listing.drop_last());
        let cs = candidates(known, listing);
        if cs.len() > prev.len() {
            assert forall|i: int| 0 <= i < prev.len() implies #[trigger] cs[i] == prev[i] by {}
            assert forall|i: int| 0 <= i < prev.len() implies (#[trigger] cs[i]).1 != cs[prev.len() as int].1 by {
                if cs[i].1 == cs[prev.len() as int].1 {
                    assert(candidate_has_pid(prev, cs[prev.len() as int].1));
                }
            }
        }
    }
}

proof fn lemma_kept_keeps_pids(ps: Seq<GameProcess>, alive: Seq<bool>)
    requires
        distinct_pids(ps),
        alive.len() >= ps.len(),
    ensures
        distinct_pids(kept(ps, alive)),
        forall|i: int| 0 <= i < kept(ps, alive).len() ==> has_pid(ps, #[trigger] kept(ps, alive)[i].pid),
    decreases ps.len(),
{
    if ps.len() > 0 {
        let rest = ps.drop_last();
        assert(distinct_pids(rest)) by {
            assert forall|i: int, j: int| 0 <= i < j < rest.len() implies #[trigger] rest[i].pid != #[trigger] rest[j].pid by {
                assert(rest[i] == ps[i] && rest[j] == ps[j]);
            }
        }
        lemma_kept_keeps_pids(rest, alive);
        let prev = kept(rest, alive);
        let k = kept(ps, alive);
        assert forall|i: int| 0 <= i < prev.len() implies has_pid(ps, #[trigger] prev[i].pid) by {
            let w = choose|m: int| 0 <= m < rest.len() && (#[trigger] rest[m]).pid == prev[i].pid;
            assert(ps[w] == rest[w]);
        }
        if alive[ps.len() - 1] {
            assert forall|i: int| 0 <= i < prev.len() implies (#[trigger] prev[i]).pid != ps.last().pid by {
                let w = choose|m: int| 0 <= m < rest.len() && (#[trigger] rest[m]).pid == prev[i].pid;
                assert(ps[w] == rest[w]);
                assert(ps[w].pid != ps[ps.len() - 1].pid);
            }
            assert forall|i: int| 0 <= i < k.len() implies has_pid(ps, #[trigger] k[i].pid) by {
                if i < prev.len() {
                    assert(k[i] == prev[i]);
                } else {
                    assert(ps[ps.len() - 1].pid == k[i].pid);
                }
            }
            assert forall|i: int, j: int| 0 <= i < j < k.len() implies #[trigger] k[i].pid != #[trigger] k[j].pid by {
                assert(k[i] == prev[i]);
                if j < prev.len() {
                    assert(k[j] == prev[j]);
                }
            }
        }
    }
}

/// A refresh (the new candidates of a listing, read as `parsed`, added
/// after the known processes, then only those still running kept, in order)
/// keeps the process ids distinct, and every process it keeps was known or
/// is one of the new candidates.
pub proof fn lemma_refresh_keeps_pids_distinct(
    known: Seq<GameProcess>,
    listing: Seq<(u32, String)>,
    parsed: Seq<GameProcess>,
    alive: Seq<bool>,
)
    requires
        distinct_pids(known),
        parsed.len() == candidates(known, listing).len(),
        forall|i: int| 0 <= i < parsed.len() ==> (#[trigger] parsed[i]).pid == candidates(known, listing)[i].1,
        alive.len() == known.len() + parsed.len(),
    ensures
        distinct_pids(kept(known + parsed, alive)),
        forall|i: int|
            0 <= i < kept(known + parsed, alive).len() ==> has_pid(
                known + parsed,
                #[trigger] kept(known + parsed, alive)[i].pid,
            ),
{
    lemma_candidates_are_new(known, listing);
    let cs = candidates(known, listing);
    let all = known + parsed;
    assert forall|i: int, j: int| 0 <= i < j < all.len() implies #[trigger] all[i].pid != #[trigger] all[j].pid by {
        if j < known.len() {
            assert(all[i] == known[i] && all[j] == known[j]);
        } else if i < known.len() {
            assert(all[i] == known[i]);
            assert(all[j] == parsed[j - known.len()]);
            assert(!has_pid(known, cs[j - known.len()].1));
        } else {
            assert(all[i] == parsed[i - known.len()] && all[j] == parsed[j - known.len()]);
            assert(cs[i - known.len()].1 != cs[j - known.len()].1);
        }
    }
    lemma_kept_keeps_pids(all, alive);
}

impl ProcessManager {
    /// The known processes, in the order they were found.
    pub closed spec fn spec_processes(&self) -> Seq<GameProcess> {
        self.processes@
    }

    pub fn new() -> (r: Self)
        ensures
            r.spec_processes() == Seq::<GameProcess>::empty(),
    {
        Self { processes: Vec::new() }
    }

    /// The entries of a process listing (id and name) that a refresh reads
    /// and adds, with the game of each.
    pub fn new_candidates(&self, listing: &Vec<(u32, String)>) -> (r: Vec<(Game, u32, String)>)
        ensures
            r@ == candidates(self.spec_processes(), listing@),
    {
        let mut out: Vec<(Game, u32, String)> = Vec::new();
        let mut i: usize = 0;
        while i < listing.len()
            invariant
                i <= listing@.len(),
                out@ == candidates(self.processes@, listing@.take(i as int)),
            decreases listing@.len() - i,
        {
            let ghost prefix = listing@.take(i + 1);
            assert(prefix.drop_last() =~= listing@.take(i as int));
            let pid = listing[i].0;
            let name = &listing[i].1;
            assert(prefix.last() == listing@[i as int]);
            match valid_comm_game(name.as_str()) {
                Some(game) => {
                    let mut known = false;
                    let mut j: usize = 0;
                    while j < self.processes.len()
                        invariant
                            j <= self.processes@.len(),
                            known == exists|k: int|
                                0 <= k < j && (#[trigger] self.processes@[k]).pid == pid,
                        decreases self.processes@.len() - j,
                    {
                        if self.processes[j].pid == pid {
                            known = true;
                        }
                        j = j + 1;
                    }
                    let mut listed = false;
                    let mut k: usize = 0;
                    while k < out.len()
                        invariant
                            k <= out@.len(),
                            listed == exists|m: int| 0 <= m < k && (#[trigger] out@[m]).1 == pid,
                        decreases out@.len() - k,
                    {
                        if out[k].1 == pid {
                            listed = true;
                        }
                        k = k + 1;
                    }
                    if !known && !listed {
                        out.push((game, pid, name.clone()));
                    }
                },
                None => {},
            }
            i = i + 1;
        }
        assert(listing@.take(listing@.len() as int) =~= listing@);
        out
    }

    /// Adds a process that was read during a refresh.
    pub fn add_process(&mut self, process: GameProcess)
        ensures
            final(self).spec_processes() == old(self).spec_processes().push(process),
    {
        self.processes.push(process);
    }

    /// Keeps the processes that still run; `alive` has one flag per known
    /// process, in order.
    pub fn retain_alive(&mut self, alive: &Vec<bool>)
        requires
            alive@.len() == old(self).spec_processes().len(),
        ensures
            final(self).spec_processes() == kept(old(self).spec_processes(), alive@),
    {
        let mut old_processes: Vec<GameProcess> = Vec::new();
        std::mem::swap(&mut old_processes, &mut self.processes);
        let ghost ps = old_processes@;
        let mut out: Vec<GameProcess> = Vec::new();
        let mut rest = old_processes;
        let mut remaining: Vec<GameProcess> = Vec::new();
        while rest.len() > 0
            invariant
                rest@.len() <= ps.len(),
                rest@ =~= ps.take(rest@.len() as int),
                remaining@ =~= ps.skip(rest@.len() as int).reverse(),
            decreases rest@.len(),
        {
            let p = rest.pop().unwrap();
            remaining.push(p);
            assert(remaining@ =~= ps.skip(rest@.len() as int).reverse());
        }
        let total = alive.len();
        let mut i: usize = 0;
        while remaining.len() > 0
            invariant
                i <= ps.len(),
                ps.len() == total,
                alive@.len() == ps.len(),
                remaining@.len() == ps.len() - i,
                remaining@ =~= ps.skip(i as int).reverse(),
                out@ == kept(ps.take(i as int), alive@),
            decreases remaining@.len(),
        {
            let p = remaining.pop().unwrap();
            assert(p == ps[i as int]);
            let ghost next = ps.take(i + 1);
            assert(next.drop_last() =~= ps.take(i as int));
            if alive[i] {
                out.push(p);
            }
            i = i + 1;
            assert(remaining@ =~= ps.skip(i as int).reverse());
        }
        assert(ps.take(ps.len() as int) =~= ps);
        self.processes = out;
    }

    /// Attaches to the first known process that was read without error; `None`
    /// when there is none.
    pub fn try_auto_attach(&self, attached: &mut Option<GameProcess>) -> (r: Option<
        Result<(), AttachError>,
    >)
        ensures
            match first_valid(self.spec_processes()) {
                Some(i) => r == Some(Ok::<(), AttachError>(())) && final(attached).is_some()
                    && final(attached).unwrap().same_as(self.spec_processes()[i]),
                None => r is None && *final(attached) == *old(attached),
            },
    {
        let mut i: usize = 0;
        while i < self.processes.len()
            invariant
                i <= self.processes@.len(),
                *attached == *old(attached),
                forall|j: int| 0 <= j < i ==> (#[trigger] self.processes@[j]).parse_state !is Valid,
            decreases self.processes@.len() - i,
        {
            match self.processes[i].parse_state {
                ParseState::Valid => {
                    let ghost ps = self.processes@;
                    proof {
                        let w = choose|k: int|
                            0 <= k < ps.len() && (#[trigger] ps[k]).parse_state is Valid && forall|
                                j: int,
                            |
                                0 <= j < k ==> (#[trigger] ps[j]).parse_state !is Valid;
                        assert(0 <= i < ps.len() && ps[i as int].parse_state is Valid && forall|
                            j: int,
                        |
                            0 <= j < i ==> (#[trigger] ps[j]).parse_state !is Valid);
                        if w < i {
                            assert(ps[w].parse_state !is Valid);
                        }
                        if i < w {
                            assert(ps[i as int].parse_state !is Valid);
                        }
                    }
                    singleton::attach_to_process(attached, self.processes[i].duplicate());
                    return Some(Ok(()));
                },
                ParseState::Invalid(_) => {},
            }
            i = i + 1;
        }
        None
    }

    /// Detaches when the attached process no longer runs (`alive`, as
    /// checked by the caller), returning the game it was.
    pub fn detach_if_invalid(&self, attached: &mut Option<GameProcess>, alive: bool) -> (r: Option<Game>)
        ensures
            match *old(attached) {
                Some(p) => if alive {
                    r is None && *final(attached) == *old(attached)
                } else {
                    r == Some(p.game_version.spec_game()) && *final(attached) == None::<GameProcess>
                },
                None => r is None && *final(attached) == *old(attached),
            },
    {
        if let Some(exists) = singleton::process_exists(attached, alive) {
            if !exists {
                let game = singleton::game(attached);
                singleton::detach(attached);
                return game;
            }
        }
        None
    }

    /// Refreshes the known processes: `parsed` holds what was read of each
    /// new candidate of `listing`, in order, each with its candidate's process
    /// id and name; `alive` tells, for the known processes followed by the new
    /// ones, which still run. The new ones are added after the known ones,
    /// then only those still running are kept, in order; process ids stay
    /// distinct and every process kept carries a game's process name.
    pub fn refresh(&mut self, listing: &Vec<(u32, String)>, parsed: Vec<GameProcess>, alive: &Vec<bool>)
        requires
            parsed@.len() == candidates(old(self).spec_processes(), listing@).len(),
            forall|i: int|
                0 <= i < parsed@.len() ==> (#[trigger] parsed@[i]).pid == candidates(
                    old(self).spec_processes(),
                    listing@,
                )[i].1,
            forall|i: int|
                0 <= i < parsed@.len() ==> (#[trigger] parsed@[i]).comm@ == candidates(
                    old(self).spec_processes(),
                    listing@,
                )[i].2@,
            alive@.len() == old(self).spec_processes().len() + parsed@.len(),
        ensures
            final(self).spec_processes() == kept(old(self).spec_processes() + parsed@, alive@),
            distinct_pids(old(self).spec_processes()) ==> distinct_pids(final(self).spec_processes()),
            game_comms(old(self).spec_processes()) ==> game_comms(final(self).spec_processes()),
    {
        let ghost known = self.processes@;
        let ghost added = parsed@;
        let mut rest = parsed;
        let mut reversed: Vec<GameProcess> = Vec::new();
        while rest.len() > 0
            invariant
                rest@.len() <= added.len(),
                rest@ =~= added.take(rest@.len() as int),
                reversed@ =~= added.skip(rest@.len() as int).reverse(),
            decreases rest@.len(),
        {
            let p = rest.pop().unwrap();
            reversed.push(p);
        }
        while reversed.len() > 0
            invariant
                reversed@.len() <= added.len(),
                reversed@ =~= added.skip(added.len() - reversed@.len()).reverse(),
                self.processes@ =~= known + added.take(added.len() - reversed@.len()),
            decreases reversed@.len(),
        {
            let p = reversed.pop().unwrap();
            self.add_process(p);
        }
        assert(added.take(added.len() as int) =~= added);
        proof {
            if distinct_pids(known) {
                lemma_refresh_keeps_pids_distinct(known, listing@, added, alive@);
            }
            if game_comms(known) {
                lemma_refresh_keeps_game_comms(known, listing@, added, alive@);
            }
        }
        self.retain_alive(alive);
    }

    pub fn valid_processes(&self) -> (r: &Vec<GameProcess>)
        ensures
            r@ == self.spec_processes(),
    {
        &self.processes
    }
}

} // verus!
