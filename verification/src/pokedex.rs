//! The Pokedex answers: a species' stat ranges and the moves it learns.

use vstd::prelude::*;

use crate::emoji::{DOT_EMPTY, DOT_FILLED};
use crate::text::{join, nat_digits, push_char, push_joined, push_str, push_u64, str_eq, views};

verus! {

/// The Pokerole rank at which a move is learned.
#[derive(Clone, Copy, Debug, PartialEq, Eq, Structural)]
pub enum PokeRoleRank {
    Starter,
    Beginner,
    Amateur,
    Ace,
    Pro,
    Master,
    Champion,
}

/// A move that a species learns, and from which rank.
pub struct PokeLearnEntry {
    pub poke_move: String,
    pub rank: PokeRoleRank,
}

/// The moves a species learns by rank.
pub struct PokeLearn {
    pub pokemon_name: String,
    pub moves: Vec<PokeLearnEntry>,
}

/// The moves a species can learn in the games, by source.
pub struct PokemonLearnableMoves {
    pub pokemon_name: String,
    pub machine: Vec<String>,
    pub egg: Vec<String>,
    pub tutor: Vec<String>,
    pub level_up: Vec<String>,
}

/// A stat line: filled dots up to the minimum, empty ones up to the maximum, then the
/// numbers.
pub open spec fn stat_line(attribute: Seq<char>, min: u8, max: u8) -> Seq<char> {
    "**"@ + attribute + "**: "@ + Seq::new(min as nat, |i: int| DOT_FILLED) + Seq::new(
        (max - min) as nat,
        |i: int| DOT_EMPTY,
    ) + " `"@ + nat_digits(min as nat) + seq!['/'] + nat_digits(max as nat) + "`\n"@
}

/// Appends the stat line of one stat.
pub fn print_stat(result: &mut String, attribute: &str, min: u8, max: u8)
    requires
        min <= max,
    ensures
        final(result)@ == old(result)@ + stat_line(attribute@, min, max),
{
    push_str(result, "**");
    push_str(result, attribute);
    push_str(result, "**: ");
    let ghost head = result@;
    let mut i: u8 = 0;
    while i < min
        invariant
            i <= min,
            result@ == head + Seq::new(i as nat, |k: int| DOT_FILLED),
        decreases min - i,
    {
        push_char(result, DOT_FILLED);
        i = i + 1;
        assert(result@ =~= head + Seq::new(i as nat, |k: int| DOT_FILLED));
    }
    let ghost filled = result@;
    let mut j: u8 = 0;
    while j < max - min
        invariant
            min <= max,
            j <= max - min,
            result@ == filled + Seq::new(j as nat, |k: int| DOT_EMPTY),
        decreases max - min - j,
    {
        push_char(result, DOT_EMPTY);
        j = j + 1;
        assert(result@ =~= filled + Seq::new(j as nat, |k: int| DOT_EMPTY));
    }
    push_str(result, " `");
    push_u64(result, min as u64);
    push_str(result, "/");
    push_u64(result, max as u64);
    push_str(result, "`\n");
    proof {
        reveal_strlit("/");
    }
    assert(result@ =~= old(result)@ + stat_line(attribute@, min, max));
}

/// A section of moves: the title and the names separated by bars, or nothing where
/// that text is empty.
pub open spec fn moves_section(title: Seq<char>, moves: Seq<Seq<char>>) -> Seq<char> {
    let text = join(moves, "  |  "@);
    if text.len() == 0 {
        Seq::empty()
    } else {
        title + text + seq!['\n']
    }
}

/// Appends a section of moves.
pub fn append_moves(result: &mut String, title: &str, moves: Vec<String>)
    ensures
        final(result)@ == old(result)@ + moves_section(title@, views(moves@)),
{
    let mut text = String::new();
    push_joined(&mut text, &moves, "  |  ");
    if text.as_str().unicode_len() == 0 {
        return;
    }
    push_str(result, title);
    push_str(result, text.as_str());
    push_char(result, '\n');
}

/// The names of the entries for which `keep` holds, in order.
pub open spec fn kept_names(entries: Seq<PokeLearnEntry>, keep: Seq<bool>) -> Seq<Seq<char>>
    decreases entries.len(),
{
    if entries.len() == 0 {
        Seq::empty()
    } else {
        kept_names(entries.drop_last(), keep.take(entries.len() - 1)) + if keep[entries.len() - 1] {
            seq![entries.last().poke_move@]
        } else {
            Seq::empty()
        }
    }
}

/// Appends the section of the moves for which `filter` answers true.
pub fn filter_moves<F>(result: &mut String, title: &str, learns: &PokeLearn, filter: F)
    where
        F: Fn(&PokeLearnEntry) -> bool,
    requires
        forall|i: int| 0 <= i < learns.moves.len() ==> filter.requires((#[trigger] &learns.moves@[i],)),
    ensures
        exists|keep: Seq<bool>| {
            &&& keep.len() == learns.moves.len()
            &&& forall|i: int| 0 <= i < learns.moves.len() ==> filter.ensures((#[trigger] &learns.moves@[i],), keep[i])
            &&& final(result)@ == old(result)@ + moves_section(title@, kept_names(learns.moves@, keep))
        },
{
    let mut moves: Vec<String> = Vec::new();
    let ghost mut keep: Seq<bool> = Seq::empty();
    let mut i: usize = 0;
    while i < learns.moves.len()
        invariant
            i <= learns.moves.len(),
            keep.len() == i,
            forall|k: int| 0 <= k < learns.moves.len() ==> filter.requires((#[trigger] &learns.moves@[k],)),
            forall|k: int| 0 <= k < i ==> filter.ensures((#[trigger] &learns.moves@[k],), keep[k]),
            views(moves@) == kept_names(learns.moves@.subrange(0, i as int), keep),
        decreases learns.moves.len() - i,
    {
        let entry = &learns.moves[i];
        let k = filter(entry);
        let ghost before = views(moves@);
        if k {
            let mut name = String::new();
            push_str(&mut name, entry.poke_move.as_str());
            moves.push(name);
            assert(views(moves@) =~= before.push(entry.poke_move@));
        }
        proof {
            let next = learns.moves@.subrange(0, i + 1);
            let keep2 = keep.push(k);
            assert(next.drop_last() =~= learns.moves@.subrange(0, i as int));
            assert(keep2.take(i as int) =~= keep);
            keep = keep2;
        }
        i = i + 1;
    }
    assert(learns.moves@.subrange(0, i as int) =~= learns.moves@);
    append_moves(result, title, moves);
}

/// The moves learned in the games by level-up that the species does not learn by rank,
/// in order.
pub open spec fn level_up_moves_not_learned(level_up: Seq<Seq<char>>, learned: Seq<PokeLearnEntry>) -> Seq<Seq<char>>
    decreases level_up.len(),
{
    if level_up.len() == 0 {
        Seq::empty()
    } else {
        level_up_moves_not_learned(level_up.drop_last(), learned) + if exists|k: int| 0 <= k < learned.len()
            && (#[trigger] learned[k]).poke_move@ == level_up.last() {
            Seq::empty()
        } else {
            seq![level_up.last()]
        }
    }
}

/// Whether any entry learns the move.
fn learns_move(learns: &PokeLearn, name: &str) -> (b: bool)
    ensures
        b == exists|k: int| 0 <= k < learns.moves.len() && (#[trigger] learns.moves@[k]).poke_move@ == name@,
{
    let mut i: usize = 0;
    while i < learns.moves.len()
        invariant
            i <= learns.moves.len(),
            forall|k: int| 0 <= k < i ==> (#[trigger] learns.moves@[k]).poke_move@ != name@,
        decreases learns.moves.len() - i,
    {
        if str_eq(learns.moves[i].poke_move.as_str(), name) {
            return true;
        }
        i = i + 1;
    }
    false
}

fn copy_all(v: &Vec<String>) -> (r: Vec<String>)
    ensures
        views(r@) == views(v@),
{
    let mut r: Vec<String> = Vec::new();
    let mut i: usize = 0;
    while i < v.len()
        invariant
            i <= v.len(),
            views(r@) == views(v@).subrange(0, i as int),
        decreases v.len() - i,
    {
        let mut s = String::new();
        push_str(&mut s, v[i].as_str());
        let ghost before = views(r@);
        r.push(s);
        assert(views(r@) =~= before.push(v@[i as int]@));
        assert(views(r@) =~= views(v@).subrange(0, i + 1));
        i = i + 1;
    }
    assert(views(v@).subrange(0, i as int) =~= views(v@));
    r
}

/// The sections of the moves learnable in the games: machines, eggs, tutors, and the
/// level-up moves that the species does not learn by rank.
pub open spec fn learnable_sections(learns: PokeLearn, all: PokemonLearnableMoves) -> Seq<char> {
    moves_section("\n**TM Moves**\n"@, views(all.machine@)) + moves_section(
        "\n**Egg Moves**\n"@,
        views(all.egg@),
    ) + moves_section("\n**Tutor**\n"@, views(all.tutor@)) + moves_section(
        "\n**Learned in Game through level up, but not here**\n"@,
        level_up_moves_not_learned(views(all.level_up@), learns.moves@),
    )
}

/// Appends the sections of the moves learnable in the games.
pub fn append_all_learnable_moves(learns: &PokeLearn, result: &mut String, all_learnable_moves: &PokemonLearnableMoves)
    ensures
        final(result)@ == old(result)@ + learnable_sections(*learns, *all_learnable_moves),
{
    append_moves(result, "\n**TM Moves**\n", copy_all(&all_learnable_moves.machine));
    append_moves(result, "\n**Egg Moves**\n", copy_all(&all_learnable_moves.egg));
    append_moves(result, "\n**Tutor**\n", copy_all(&all_learnable_moves.tutor));
    let level_up = &all_learnable_moves.level_up;
    let mut missing: Vec<String> = Vec::new();
    let mut i: usize = 0;
    while i < level_up.len()
        invariant
            i <= level_up.len(),
            views(missing@) == level_up_moves_not_learned(views(level_up@).subrange(0, i as int), learns.moves@),
        decreases level_up.len() - i,
    {
        let ghost next = views(level_up@).subrange(0, i + 1);
        assert(next.drop_last() =~= views(level_up@).subrange(0, i as int));
        assert(next.last() == level_up@[i as int]@);
        if !learns_move(learns, level_up[i].as_str()) {
            let mut s = String::new();
            push_str(&mut s, level_up[i].as_str());
            let ghost before = views(missing@);
            missing.push(s);
            assert(views(missing@) =~= before.push(level_up@[i as int]@));
        }
        i = i + 1;
    }
    assert(views(level_up@).subrange(0, i as int) =~= views(level_up@));
    append_moves(result, "\n**Learned in Game through level up, but not here**\n", missing);
    assert(result@ =~= old(result)@ + learnable_sections(*learns, *all_learnable_moves));
}

} // verus!
