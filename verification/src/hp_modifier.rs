//! The HP thresholds of moves whose dice depend on the user's remaining HP.

use vstd::prelude::*;

use crate::encounter::{push_right_aligned_2, right_aligned_2};
use crate::text::{nat_digits, push_str, push_u64};

verus! {

/// `k` fifths of `max_hp`, rounded up: what `(max_hp as f32 * 0.2 * k).ceil()` gives for
/// every `u8`.
pub open spec fn fifths_rounded_up(max_hp: u8, k: int) -> int {
    (k * max_hp + 4) / 5
}

/// The thresholds between the five dice counts: four fifths, three, two and one fifth
/// of the maximum HP, each rounded up.
pub fn get_hp_segments(max_hp: u8) -> (s: [u8; 4])
    ensures
        s[0] == fifths_rounded_up(max_hp, 4),
        s[1] == fifths_rounded_up(max_hp, 3),
        s[2] == fifths_rounded_up(max_hp, 2),
        s[3] == fifths_rounded_up(max_hp, 1),
{
    let n = max_hp as u32;
    [((4 * n + 4) / 5) as u8, ((3 * n + 4) / 5) as u8, ((2 * n + 4) / 5) as u8, ((n + 4) / 5) as u8]
}

/// The thresholds descend from at most the maximum HP down to at least one: each range
/// of the table starts no lower than the next.
pub proof fn law_hp_segments_descend(max_hp: u8)
    requires
        max_hp >= 1,
    ensures
        max_hp >= fifths_rounded_up(max_hp, 4),
        fifths_rounded_up(max_hp, 4) >= fifths_rounded_up(max_hp, 3),
        fifths_rounded_up(max_hp, 3) >= fifths_rounded_up(max_hp, 2),
        fifths_rounded_up(max_hp, 2) >= fifths_rounded_up(max_hp, 1),
        fifths_rounded_up(max_hp, 1) >= 1,
{
}

/// One line of the table: a range of HP and its dice.
pub open spec fn hp_line(from: int, to: int, dice: nat) -> Seq<char> {
    right_aligned_2(from as nat) + " - "@ + right_aligned_2(to as nat) + " -> "@ + nat_digits(dice) + " dice\n"@
}

/// The table of HP ranges: from the maximum down to one, five dice for the lowest fifth.
pub open spec fn hp_table_text(max_hp: u8) -> Seq<char> {
    "With "@ + nat_digits(max_hp as nat) + " max hp, you have the following die thresholds depending on your current hp: ```\n"@
        + hp_line(fifths_rounded_up(max_hp, 4), max_hp - 1, 1)
        + hp_line(fifths_rounded_up(max_hp, 3), fifths_rounded_up(max_hp, 4), 2)
        + hp_line(fifths_rounded_up(max_hp, 2), fifths_rounded_up(max_hp, 3), 3)
        + hp_line(fifths_rounded_up(max_hp, 1), fifths_rounded_up(max_hp, 2), 4)
        + hp_line(1, fifths_rounded_up(max_hp, 1), 5) + "```"@
}

fn push_hp_line(s: &mut String, from: u8, to: u8, dice: u64)
    ensures
        final(s)@ == old(s)@ + hp_line(from as int, to as int, dice as nat),
{
    push_right_aligned_2(s, from);
    push_str(s, " - ");
    push_right_aligned_2(s, to);
    push_str(s, " -> ");
    push_u64(s, dice);
    push_str(s, " dice\n");
    assert(s@ =~= old(s)@ + hp_line(from as int, to as int, dice as nat));
}

/// The table of HP ranges for a maximum HP of at least one.
pub fn build_string(max_hp: u8) -> (s: String)
    requires
        max_hp >= 1,
    ensures
        s@ == hp_table_text(max_hp),
{
    let segments = get_hp_segments(max_hp);
    let mut s = String::new();
    push_str(&mut s, "With ");
    push_u64(&mut s, max_hp as u64);
    push_str(&mut s, " max hp, you have the following die thresholds depending on your current hp: ```\n");
    push_hp_line(&mut s, segments[0], max_hp - 1, 1);
    push_hp_line(&mut s, segments[1], segments[0], 2);
    push_hp_line(&mut s, segments[2], segments[1], 3);
    push_hp_line(&mut s, segments[3], segments[2], 4);
    push_hp_line(&mut s, 1, segments[3], 5);
    push_str(&mut s, "```");
    assert(s@ =~= hp_table_text(max_hp));
    s
}

} // verus!
