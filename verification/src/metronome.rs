//! Metronome: the description of a move drawn at random.

use vstd::prelude::*;

use crate::random::choose_item;
use crate::text::{lowercase, push_str, str_eq, to_lowercase};

verus! {

/// A move of the game data under its lowercase name, with its description.
pub struct MoveDescription {
    pub key: String,
    pub text: String,
}

/// The description stored under a key: that of the first entry with the key, if any.
pub open spec fn description_for(moves: Seq<MoveDescription>, key: Seq<char>) -> Option<Seq<char>>
    decreases moves.len(),
{
    if moves.len() == 0 {
        None
    } else if moves[0].key@ == key {
        Some(moves[0].text@)
    } else {
        description_for(moves.drop_first(), key)
    }
}

/// The answer for a move name: the description of the move under its lowercase name, or
/// an error naming the move where there is none.
pub open spec fn metronome_answer(move_name: Seq<char>, moves: Seq<MoveDescription>) -> Seq<char> {
    match description_for(moves, lowercase(move_name)) {
        Some(text) => text,
        None => "Error: randomness rolled "@ + move_name
            + ", but there was no move with that name defined? This should never happen. D:"@,
    }
}

/// The answer for a drawn move name.
pub fn metronome_text(move_name: &str, moves: &Vec<MoveDescription>) -> (s: String)
    ensures
        s@ == metronome_answer(move_name@, moves@),
{
    let key = to_lowercase(move_name);
    let mut i: usize = 0;
    assert(moves@.skip(0) =~= moves@);
    while i < moves.len()
        invariant
            i <= moves.len(),
            key@ == lowercase(move_name@),
            description_for(moves@.skip(i as int), key@) == description_for(moves@, key@),
        decreases moves.len() - i,
    {
        assert(moves@.skip(i as int).drop_first() =~= moves@.skip(i + 1));
        assert(moves@.skip(i as int)[0] == moves@[i as int]);
        if str_eq(moves[i].key.as_str(), key.as_str()) {
            let mut s = String::new();
            push_str(&mut s, moves[i].text.as_str());
            assert(description_for(moves@.skip(i as int), key@) == Some(moves@[i as int].text@));
            assert(s@ =~= moves@[i as int].text@);
            return s;
        }
        i = i + 1;
    }
    assert(moves@.skip(i as int).len() == 0);
    let mut s = String::new();
    push_str(&mut s, "Error: randomness rolled ");
    push_str(&mut s, move_name);
    push_str(&mut s, ", but there was no move with that name defined? This should never happen. D:");
    s
}

/// The description of a move drawn at random from the move names. Which name is drawn is
/// left to chance.
pub fn get_metronome_text(move_names: &Vec<String>, moves: &Vec<MoveDescription>) -> (s: String)
    requires
        move_names.len() > 0,
    ensures
        exists|i: int| 0 <= i < move_names.len() && s@ == metronome_answer(#[trigger] move_names@[i]@, moves@),
{
    let name = choose_item(move_names).unwrap();
    let s = metronome_text(name.as_str(), moves);
    proof {
        let i = choose|i: int| 0 <= i < move_names@.len() && move_names@[i] == *name;
        assert(s@ == metronome_answer(move_names@[i]@, moves@));
    }
    s
}

} // verus!
