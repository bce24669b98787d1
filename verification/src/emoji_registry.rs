//! Keeping track of the emoji uploaded for species: which stored emoji were deleted from
//! the server, what an existing emoji's name tells, and where sprites are found.

use vstd::prelude::*;

use crate::autocompletion::{chars_contain, is_substring};
use crate::game::{Gender, Pokemon};
use crate::text::{join, nat_digits, push_joined, push_str, push_u64, str_eq, to_chars, views};

verus! {

/// The stored emoji that the server no longer has, in their stored order.
pub open spec fn missing_emojis(stored: Seq<Seq<char>>, existing: Seq<Seq<char>>) -> Seq<Seq<char>>
    decreases stored.len(),
{
    if stored.len() == 0 {
        Seq::empty()
    } else {
        missing_emojis(stored.drop_last(), existing) + if existing.contains(stored.last()) {
            Seq::empty()
        } else {
            seq![stored.last()]
        }
    }
}

fn contains_text(v: &Vec<String>, s: &str) -> (b: bool)
    ensures
        b == views(v@).contains(s@),
{
    let mut i: usize = 0;
    while i < v.len()
        invariant
            i <= v.len(),
            forall|k: int| 0 <= k < i ==> v@[k]@ != s@,
        decreases v.len() - i,
    {
        if str_eq(v[i].as_str(), s) {
            assert(views(v@)[i as int] == s@);
            return true;
        }
        i = i + 1;
    }
    proof {
        if views(v@).contains(s@) {
            let k = choose|k: int| 0 <= k < views(v@).len() && views(v@)[k] == s@;
            assert(v@[k]@ == s@);
        }
    }
    false
}

/// The stored emoji that the server no longer has.
pub fn missing_emoji_strings(stored: &Vec<String>, existing: &Vec<String>) -> (r: Vec<String>)
    ensures
        views(r@) == missing_emojis(views(stored@), views(existing@)),
{
    let mut r: Vec<String> = Vec::new();
    let mut i: usize = 0;
    while i < stored.len()
        invariant
            i <= stored.len(),
            views(r@) == missing_emojis(views(stored@).subrange(0, i as int), views(existing@)),
        decreases stored.len() - i,
    {
        assert(views(stored@).subrange(0, i + 1).drop_last() =~= views(stored@).subrange(0, i as int));
        assert(views(stored@).subrange(0, i + 1).last() == stored@[i as int]@);
        if !contains_text(existing, stored[i].as_str()) {
            let mut s = String::new();
            push_str(&mut s, stored[i].as_str());
            let ghost before = views(r@);
            r.push(s);
            assert(views(r@) =~= before.push(stored@[i as int]@));
        }
        i = i + 1;
    }
    assert(views(stored@).subrange(0, i as int) =~= views(stored@));
    r
}

/// The report of removed emoji, or that none were.
pub fn prune_report(removed: &Vec<String>) -> (s: String)
    ensures
        s@ == if removed.len() == 0 {
            "Didn't find any deleted emojis!"@
        } else {
            "Removed "@ + nat_digits(removed.len() as nat) + " emojis.\n```"@ + join(views(removed@), seq!['\n'])
                + "```"@
        },
{
    let mut s = String::new();
    if removed.len() == 0 {
        push_str(&mut s, "Didn't find any deleted emojis!");
        return s;
    }
    push_str(&mut s, "Removed ");
    push_u64(&mut s, removed.len() as u64);
    push_str(&mut s, " emojis.\n```");
    push_joined(&mut s, removed, "\n");
    push_str(&mut s, "```");
    proof {
        reveal_strlit("\n");
        assert("\n"@ =~= seq!['\n']);
    }
    assert(s@ =~= "Removed "@ + nat_digits(removed.len() as nat) + " emojis.\n```"@ + join(views(removed@), seq!['\n'])
        + "```"@);
    s
}

/// What an existing emoji's name tells: female where it contains `female`, shiny where it
/// contains `shiny`.
pub fn emoji_name_traits(name: &str) -> (r: (Gender, bool))
    ensures
        r.0 == if is_substring(name@, "female"@) { Gender::Female } else { Gender::Male },
        r.1 == is_substring(name@, "shiny"@),
{
    let chars = to_chars(name);
    let female = to_chars("female");
    let shiny = to_chars("shiny");
    let gender = if chars_contain(&chars, &female) { Gender::Female } else { Gender::Male };
    (gender, chars_contain(&chars, &shiny))
}

/// Where a sprite lies below the sprite directory: the animated folder, `shiny/`,
/// `female/`, then the species' id.
pub open spec fn sprite_path_text(base: Seq<char>, id: u16, is_female: bool, is_shiny: bool, is_animated: bool) -> Seq<char> {
    base + (if is_animated { "versions/generation-v/black-white/animated/"@ } else { Seq::empty() })
        + "/sprites/pokemon/"@ + (if is_shiny { "shiny/"@ } else { Seq::empty() }) + (if is_female {
        "female/"@
    } else {
        Seq::empty()
    }) + nat_digits(id as nat) + ".png"@
}

/// The path of a species' sprite below the sprite directory `base`.
pub fn local_emoji_path(base: &str, pokemon: &Pokemon, is_female: bool, is_shiny: bool, is_animated: bool) -> (s: String)
    ensures
        s@ == sprite_path_text(base@, pokemon.poke_api_id, is_female, is_shiny, is_animated),
{
    let mut s = String::new();
    push_str(&mut s, base);
    if is_animated {
        push_str(&mut s, "versions/generation-v/black-white/animated/");
    }
    push_str(&mut s, "/sprites/pokemon/");
    if is_shiny {
        push_str(&mut s, "shiny/");
    }
    if is_female {
        push_str(&mut s, "female/");
    }
    push_u64(&mut s, pokemon.poke_api_id as u64);
    push_str(&mut s, ".png");
    assert(s@ =~= sprite_path_text(base@, pokemon.poke_api_id, is_female, is_shiny, is_animated));
    s
}

} // verus!
