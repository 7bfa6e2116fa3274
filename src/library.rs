//! The game library: the list of known ROMs and their metadata.
use vstd::prelude::*;
use vstd::string::StringSliceAdditionalSpecFns;
use crate::emulator::SystemType;

verus! {

/// One ROM known to the launcher.
#[derive(Clone, Debug)]
pub struct Game {
    pub title: String,
    /// "NES", "SNES" or "Genesis".
    pub system: String,
    pub rom_path: String,
    pub box_art_path: Option<String>,
    pub description: Option<String>,
    pub year: Option<u16>,
}

/// The known games, in the order they were added.
#[derive(Debug)]
pub struct GameLibrary {
    pub games: Vec<Game>,
}

/// The games of `s` whose system is `system`, in order.
pub open spec fn games_of(s: Seq<Game>, system: Seq<char>) -> Seq<Game>
    decreases s.len(),
{
    if s.len() == 0 {
        Seq::empty()
    } else {
        let rest = games_of(s.drop_last(), system);
        if s.last().system@ == system {
            rest.push(s.last())
        } else {
            rest
        }
    }
}

/// An ASCII letter in lower case; other bytes unchanged.
pub open spec fn ascii_lower(b: u8) -> u8 {
    if 65 <= b <= 90 {
        (b + 32) as u8
    } else {
        b
    }
}

/// Whether `e`, read without regard to ASCII case, spells `word`.
pub open spec fn spells(e: Seq<u8>, word: Seq<u8>) -> bool {
    e.len() == word.len() && forall|i: int| 0 <= i < e.len() ==> ascii_lower(e[i]) == word[i]
}

/// The system whose ROMs carry file extension `e`: nes; sfc or smc; gen or md.
pub open spec fn system_of_extension(e: Seq<u8>) -> Option<SystemType> {
    if spells(e, seq![110u8, 101, 115]) {
        Some(SystemType::NES)
    } else if spells(e, seq![115u8, 102, 99]) || spells(e, seq![115u8, 109, 99]) {
        Some(SystemType::SNES)
    } else if spells(e, seq![103u8, 101, 110]) || spells(e, seq![109u8, 100]) {
        Some(SystemType::Genesis)
    } else {
        None
    }
}

fn lower(b: u8) -> (r: u8)
    ensures
        r == ascii_lower(b),
{
    if 65 <= b && b <= 90 {
        b + 32
    } else {
        b
    }
}

fn spells_word(e: &[u8], word: &[u8]) -> (r: bool)
    ensures
        r == spells(e@, word@),
{
    if e.len() != word.len() {
        return false;
    }
    let mut i: usize = 0;
    while i < e.len()
        invariant
            e@.len() == word@.len(),
            i <= e@.len(),
            forall|j: int| 0 <= j < i ==> ascii_lower(e@[j]) == word@[j],
        decreases e@.len() - i,
    {
        if lower(e[i]) != word[i] {
            return false;
        }
        i = i + 1;
    }
    true
}

/// The system a ROM file extension names, ignoring ASCII case.
pub fn system_for_extension(ext: &str) -> (r: Option<SystemType>)
    ensures
        r == system_of_extension(ext.spec_bytes()),
{
    let e = ext.as_bytes();
    let nes: [u8; 3] = [110, 101, 115];
    let sfc: [u8; 3] = [115, 102, 99];
    let smc: [u8; 3] = [115, 109, 99];
    let gen: [u8; 3] = [103, 101, 110];
    let md: [u8; 2] = [109, 100];
    assert(nes@ =~= seq![110u8, 101, 115]);
    assert(sfc@ =~= seq![115u8, 102, 99]);
    assert(smc@ =~= seq![115u8, 109, 99]);
    assert(gen@ =~= seq![103u8, 101, 110]);
    assert(md@ =~= seq![109u8, 100]);
    if spells_word(e, nes.as_slice()) {
        Some(SystemType::NES)
    } else if spells_word(e, sfc.as_slice()) || spells_word(e, smc.as_slice()) {
        Some(SystemType::SNES)
    } else if spells_word(e, gen.as_slice()) || spells_word(e, md.as_slice()) {
        Some(SystemType::Genesis)
    } else {
        None
    }
}

impl GameLibrary {
    /// An empty library.
    pub fn new() -> (r: GameLibrary)
        ensures
            r.games@.len() == 0,
    {
        GameLibrary { games: Vec::new() }
    }

    /// Appends `game`.
    pub fn add_game(&mut self, game: Game)
        ensures
            final(self).games@ == old(self).games@.push(game),
    {
        self.games.push(game);
    }

    /// The games for `system`, in library order.
    pub fn get_games_by_system(&self, system: &str) -> (r: Vec<&Game>)
        ensures
            r@.map_values(|g: &Game| *g) == games_of(self.games@, system@),
    {
        let wanted = system.to_owned();
        let mut r: Vec<&Game> = Vec::new();
        let mut i: usize = 0;
        while i < self.games.len()
            invariant
                i <= self.games@.len(),
                wanted@ == system@,
                r@.map_values(|g: &Game| *g) == games_of(self.games@.subrange(0, i as int), system@),
            decreases self.games@.len() - i,
        {
            let g = &self.games[i];
            assert(self.games@.subrange(0, i + 1).drop_last() =~= self.games@.subrange(0, i as int));
            let ghost prev = r@;
            if g.system == wanted {
                r.push(g);
                assert(r@.map_values(|g: &Game| *g) =~= prev.map_values(|g: &Game| *g).push(*g));
            }
            i = i + 1;
        }
        assert(self.games@.subrange(0, self.games@.len() as int) =~= self.games@);
        r
    }
}


impl GameLibrary {
    /// Whether some game already points at `rom_path`.
    pub fn contains_rom(&self, rom_path: &str) -> (r: bool)
        ensures
            r == exists|i: int| 0 <= i < self.games@.len() && self.games@[i].rom_path@ == rom_path@,
    {
        let wanted = rom_path.to_owned();
        let mut i: usize = 0;
        while i < self.games.len()
            invariant
                i <= self.games@.len(),
                wanted@ == rom_path@,
                forall|j: int| 0 <= j < i ==> self.games@[j].rom_path@ != rom_path@,
            decreases self.games@.len() - i,
        {
            if self.games[i].rom_path == wanted {
                return true;
            }
            i = i + 1;
        }
        false
    }
}

} // verus!
