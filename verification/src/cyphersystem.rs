//! Non-player characters: their statistics, and the pruning of a creature's
//! record to what one stat block shows.

use crate::pokemon::{AggregationError, Move, MoveModel, Pokemon};
use crate::random::{distinct_indices, drawn_from, gen_range, pick_index, pick_indices, selects};
use rand::rngs::ThreadRng;
use vstd::prelude::*;

verus! {

/// How far a character moves in one turn.
#[derive(Debug, Clone)]
pub enum Movement {
    Immediate,
    Short,
    Long,
    VeryLong,
    Other(String),
}

impl Movement {
    /// The words that stand for the movement in a stat block.
    pub open spec fn text(&self) -> Seq<char> {
        match self {
            Movement::Immediate => "Immediate"@,
            Movement::Short => "Short"@,
            Movement::Long => "Long"@,
            Movement::VeryLong => "Very Long"@,
            Movement::Other(other) => other@,
        }
    }

    /// Writes the movement out in words.
    pub fn to_string(&self) -> (words: String)
        ensures
            words@ == self.text(),
    {
        match self {
            Movement::Immediate => String::from_str("Immediate"),
            Movement::Short => String::from_str("Short"),
            Movement::Long => String::from_str("Long"),
            Movement::VeryLong => String::from_str("Very Long"),
            Movement::Other(other) => other.clone(),
        }
    }
}

/// Something a character can do.
#[derive(Debug, Clone)]
pub struct Ability {
    name: String,
    description: Option<String>,
}

/// A non-player character.
#[derive(Debug, Clone)]
pub struct NPC {
    pub name: String,
    pub description: Option<String>,
    pub level: u8,
    pub health: u8,
    pub damage: u8,
    pub armor: u8,
    pub movement: Option<Movement>,
    pub abilities: Option<Vec<Ability>>,
    pub interaction: Option<String>,
    pub loot: Option<String>,
    pub motive: Option<String>,
}

/// The health of a character: three times its level.
pub fn health(level: u8) -> (points: u8)
    requires
        level <= 85,
    ensures
        points == 3 * level,
{
    level * 3
}

impl NPC {
    /// The statistics keep to their ranges: a level from 1 to 6, a health of three
    /// times the level, and an armor of at most 2.
    pub open spec fn wf(&self) -> bool {
        &&& 1 <= self.level <= 6
        &&& self.health == 3 * self.level
        &&& self.armor <= 2
    }

    /// The character of a name, a level and an armor: its health is three times
    /// the level, its damage the level, its movement short, and nothing else is
    /// set.
    pub open spec fn stat_block(name: String, level: u8, armor: u8) -> NPC {
        NPC {
            name,
            description: None,
            level,
            health: (3 * level) as u8,
            damage: level,
            armor,
            movement: Some(Movement::Short),
            abilities: None,
            interaction: None,
            loot: None,
            motive: None,
        }
    }

    /// A character of the given level, without armor.
    pub fn new(name: String, level: u8) -> (npc: NPC)
        requires
            1 <= level <= 6,
        ensures
            npc == NPC::stat_block(name, level, 0),
            npc.health == 3 * level,
            npc.wf(),
    {
        NPC::with_stats(name, level, 0)
    }

    /// A character of the given level and armor.
    pub fn with_stats(name: String, level: u8, armor: u8) -> (npc: NPC)
        requires
            1 <= level <= 6,
            armor <= 2,
        ensures
            npc == NPC::stat_block(name, level, armor),
            npc.health == 3 * level,
            npc.wf(),
    {
        NPC {
            name,
            description: None,
            level,
            health: health(level),
            damage: level,
            armor,
            movement: Some(Movement::Short),
            abilities: None,
            interaction: None,
            loot: None,
            motive: None,
        }
    }

    /// A character whose level, from 1 to 6, and armor, from 0 to 2, are drawn
    /// from the generator.
    pub fn new_random(name: String, rng: ThreadRng) -> (npc: NPC)
        ensures
            1 <= npc.level <= 6,
            npc.armor <= 2,
            npc == NPC::stat_block(name, npc.level, npc.armor),
            npc.health == 3 * npc.level,
            npc.wf(),
    {
        let mut rng = rng;
        let level: u8 = gen_range(&mut rng, 1, 7);
        let armor: u8 = gen_range(&mut rng, 0, 3);
        NPC::with_stats(name, level, armor)
    }

    /// Sets the level and, with it, the health.
    pub fn level(&mut self, level: u8)
        requires
            1 <= level <= 6,
        ensures
            *final(self) == (NPC { level, health: (3 * level) as u8, ..*old(self) }),
            final(self).health == 3 * final(self).level,
            old(self).armor <= 2 ==> final(self).wf(),
    {
        self.level = level;
        self.health = health(level);
    }
}

/// The bound on a number of moves, where the number fits a byte.
pub fn max_moves_from(count: usize) -> (bound: Result<u8, AggregationError>)
    ensures
        count <= 255 ==> bound == Ok::<u8, AggregationError>(count as u8),
        count > 255 ==> bound == Err::<u8, AggregationError>(AggregationError::ConversionError),
{
    if count <= 255 {
        Ok(count as u8)
    } else {
        Err(AggregationError::ConversionError)
    }
}

/// A creature as a non-player character.
#[derive(Debug, Clone)]
pub struct PokemonNPC {
    pub npc: NPC,
    pub flavor: Vec<String>,
    pub types: Vec<String>,
    pub abilities: Vec<crate::pokemon::Ability>,
    pub moves: Vec<Move>,
}

/// The moves at the picked positions, in the order of the picks; all moves where
/// nothing is picked.
pub open spec fn picked_moves(moves: Seq<MoveModel>, picks: Option<Vec<usize>>) -> Seq<MoveModel> {
    match picks {
        Some(picks) => picks@.map_values(|i: usize| moves[i as int]),
        None => moves,
    }
}

/// The one flavor text at the picked position; all of them where none is picked.
pub open spec fn picked_flavor(flavor: Seq<Seq<char>>, pick: Option<usize>) -> Seq<Seq<char>> {
    match pick {
        Some(i) => seq![flavor[i as int]],
        None => flavor,
    }
}

/// Moves picked at different positions are drawn from the moves, each from a
/// position of its own.
pub proof fn lemma_picked_moves_drawn(moves: Seq<MoveModel>, picks: Vec<usize>)
    requires
        distinct_indices(picks@, moves.len()),
    ensures
        picked_moves(moves, Some(picks)).len() == picks@.len(),
        drawn_from(picked_moves(moves, Some(picks)), moves),
{
    let at = picks@.map_values(|i: usize| i as int);
    assert(selects(at, picked_moves(moves, Some(picks)), moves));
}

impl PokemonNPC {
    /// The character of a creature's record, at level 1.
    pub fn new_from_pokemon(pokemon: Pokemon) -> (made: PokemonNPC)
        ensures
            made == (PokemonNPC {
                npc: NPC::stat_block(pokemon.name, 1, 0),
                flavor: pokemon.flavor,
                types: pokemon.types,
                abilities: pokemon.abilities,
                moves: pokemon.moves,
            }),
            made.npc.wf(),
    {
        let npc = NPC::new(pokemon.name, 1);
        PokemonNPC {
            npc,
            flavor: pokemon.flavor,
            types: pokemon.types,
            abilities: pokemon.abilities,
            moves: pokemon.moves,
        }
    }

    /// Keeps the moves at the picked positions and the flavor text at the picked
    /// position. Where no moves are picked all moves stay, and where no flavor
    /// text is picked all flavor texts stay. The rest is kept as it is.
    pub fn select(self, move_picks: Option<Vec<usize>>, flavor_pick: Option<usize>) -> (pruned:
        PokemonNPC)
        requires
            move_picks matches Some(picks) ==> forall|k: int|
                0 <= k < picks@.len() ==> #[trigger] picks@[k] < self.moves.len(),
            flavor_pick matches Some(i) ==> i < self.flavor.len(),
        ensures
            pruned.npc == self.npc,
            pruned.types == self.types,
            pruned.abilities == self.abilities,
            pruned.moves.deep_view() == picked_moves(self.moves.deep_view(), move_picks),
            pruned.flavor.deep_view() == picked_flavor(self.flavor.deep_view(), flavor_pick),
            pruned.moves.len() == (match move_picks {
                Some(picks) => picks.len(),
                None => self.moves.len(),
            }),
            pruned.flavor.len() == (match flavor_pick {
                Some(_) => 1,
                None => self.flavor.len(),
            }),
    {
        let moves = match &move_picks {
            Some(picks) => {
                let mut kept: Vec<Move> = Vec::new();
                let mut k: usize = 0;
                while k < picks.len()
                    invariant
                        k <= picks.len(),
                        kept.len() == k,
                        forall|j: int|
                            0 <= j < picks@.len() ==> #[trigger] picks@[j] < self.moves.len(),
                        forall|j: int|
                            0 <= j < k ==> (#[trigger] kept[j]).deep_view()
                                == self.moves[picks@[j] as int].deep_view(),
                    decreases picks.len() - k,
                {
                    let source = &self.moves[picks[k]];
                    kept.push(
                        Move {
                            name: source.name.clone(),
                            description: source.description.clone(),
                            type_: source.type_.clone(),
                        },
                    );
                    k += 1;
                }
                proof {
                    assert(kept.deep_view() =~= picked_moves(self.moves.deep_view(), move_picks));
                }
                kept
            },
            None => self.moves,
        };
        let flavor = match flavor_pick {
            Some(i) => {
                let mut one: Vec<String> = Vec::new();
                one.push(self.flavor[i].clone());
                proof {
                    assert(one.deep_view() =~= picked_flavor(
                        self.flavor.deep_view(),
                        flavor_pick,
                    ));
                }
                one
            },
            None => self.flavor,
        };
        PokemonNPC { npc: self.npc, flavor, types: self.types, abilities: self.abilities, moves }
    }

    /// Randomly prunes the flavor texts to one, and the moves to `max_moves` of
    /// them. A bound above the number of moves leaves the moves as they are.
    pub fn prune(self, max_moves: u8, rng: ThreadRng) -> (pruned: PokemonNPC)
        ensures
            pruned.npc == self.npc,
            pruned.types == self.types,
            pruned.abilities == self.abilities,
            max_moves <= self.moves.len() ==> pruned.moves.len() == max_moves && drawn_from(
                pruned.moves.deep_view(),
                self.moves.deep_view(),
            ),
            max_moves > self.moves.len() ==> pruned.moves.len() == self.moves.len()
                && pruned.moves.deep_view() == self.moves.deep_view(),
            self.flavor.len() > 0 ==> pruned.flavor.len() == 1 && self.flavor.deep_view().contains(
                pruned.flavor.deep_view()[0],
            ),
            self.flavor.len() == 0 ==> pruned.flavor.len() == 0,
    {
        let mut rng = rng;
        let max_moves = max_moves as usize;
        let move_picks = if max_moves <= self.moves.len() {
            Some(pick_indices(&mut rng, self.moves.len(), max_moves))
        } else {
            None
        };
        let flavor_pick = pick_index(&mut rng, self.flavor.len());
        let ghost picks = move_picks;
        let pruned = self.select(move_picks, flavor_pick);
        proof {
            if let Some(picks) = picks {
                lemma_picked_moves_drawn(self.moves.deep_view(), picks);
            }
            assert(pruned.moves.deep_view().len() == pruned.moves.len());
            assert(pruned.flavor.deep_view().len() == pruned.flavor.len());
            assert(self.flavor.deep_view().len() == self.flavor.len());
            if let Some(i) = flavor_pick {
                assert(self.flavor.deep_view()[i as int] == pruned.flavor.deep_view()[0]);
            }
        }
        pruned
    }

    /// Prunes the moves to as many as the character's level.
    pub fn prune_by_level(self, rng: ThreadRng) -> (pruned: PokemonNPC)
        ensures
            pruned.npc == self.npc,
            pruned.types == self.types,
            pruned.abilities == self.abilities,
            pruned.moves.len() == if self.npc.level <= self.moves.len() {
                self.npc.level as nat
            } else {
                self.moves.len() as nat
            },
            self.npc.level <= self.moves.len() ==> drawn_from(
                pruned.moves.deep_view(),
                self.moves.deep_view(),
            ),
            self.npc.level > self.moves.len() ==> pruned.moves.deep_view()
                == self.moves.deep_view(),
            self.flavor.len() > 0 ==> pruned.flavor.len() == 1 && self.flavor.deep_view().contains(
                pruned.flavor.deep_view()[0],
            ),
            self.flavor.len() == 0 ==> pruned.flavor.len() == 0,
    {
        let max_moves = self.npc.level;
        let pruned = self.prune(max_moves, rng);
        proof {
            assert(pruned.moves.deep_view().len() == pruned.moves.len());
            assert(self.moves.deep_view().len() == self.moves.len());
        }
        pruned
    }

    /// The first flavor text, or the empty text where there is none.
    pub fn flavor(self) -> (first: String)
        ensures
            first@ == if self.flavor.len() > 0 {
                self.flavor[0]@
            } else {
                Seq::<char>::empty()
            },
    {
        if self.flavor.len() > 0 {
            self.flavor[0].clone()
        } else {
            String::new()
        }
    }
}

} // verus!
