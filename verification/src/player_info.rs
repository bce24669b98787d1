//! The player overview: a player's characters, their levels, and the character slots
//! the levels earn.

use vstd::prelude::*;

use crate::character_stats::fits_i64;
use crate::text::{int_text, nat_digits, push_i64, push_str, push_u64};

verus! {

/// What the overview shows of one character.
pub struct PlayerCharacter {
    /// The species' emoji followed by a space, or nothing.
    pub emoji: String,
    pub name: String,
    pub stat_channel_id: i64,
    pub level: i64,
    /// The experience within the current level.
    pub current_experience: i64,
    /// All experience gained.
    pub experience: i64,
}

/// A link to a channel, as Discord writes a channel mention.
pub open spec fn channel_link(id: u64) -> Seq<char> {
    "<#"@ + nat_digits(id as nat) + seq!['>']
}

/// The entry of a character: a heading with the link to its sheet, then its level.
pub open spec fn character_entry(c: PlayerCharacter) -> Seq<char> {
    "### "@ + c.emoji@ + c.name@ + " – "@ + channel_link(c.stat_channel_id as u64) + "\n        Level: "@
        + int_text(c.level as int) + " ("@ + int_text(c.current_experience as int) + " exp)\n"@
}

pub open spec fn character_entries(cs: Seq<PlayerCharacter>) -> Seq<char>
    decreases cs.len(),
{
    if cs.len() == 0 {
        Seq::empty()
    } else {
        character_entries(cs.drop_last()) + character_entry(cs.last())
    }
}

pub open spec fn total_levels(cs: Seq<PlayerCharacter>) -> int
    decreases cs.len(),
{
    if cs.len() == 0 {
        0
    } else {
        total_levels(cs.drop_last()) + cs.last().level
    }
}

pub open spec fn total_experience(cs: Seq<PlayerCharacter>) -> int
    decreases cs.len(),
{
    if cs.len() == 0 {
        0
    } else {
        total_experience(cs.drop_last()) + cs.last().experience
    }
}

/// The character slots a player has: one, and one more per five levels of all their
/// characters together (the quotient rounded toward zero, as integer division does).
pub open spec fn character_slots(levels: int) -> int {
    1 + if levels >= 0 { levels / 5 } else { -((-levels) / 5) }
}

/// The overview of a player.
pub open spec fn player_info_text(
    display_name: Seq<char>,
    joined: Option<Seq<char>>,
    cs: Seq<PlayerCharacter>,
    hosted_quest_count: Option<i32>,
    gm_experience: Option<i64>,
) -> Seq<char> {
    "## "@ + display_name + "\n**Joined at**: "@ + match joined {
        Some(j) => j,
        None => "Unknown"@,
    } + "\n**Total Character Level**: "@ + int_text(total_levels(cs)) + " \n**Total Experience**: "@
        + int_text(total_experience(cs)) + "\n**Character Slots**: "@ + nat_digits(cs.len()) + seq!['/']
        + int_text(character_slots(total_levels(cs))) + match hosted_quest_count {
        Some(n) => "\n**Hosted Quests:** "@ + int_text(n as int),
        None => Seq::empty(),
    } + match gm_experience {
        Some(x) => "\n**GM Experience**: "@ + int_text(x as int),
        None => Seq::empty(),
    } + seq!['\n'] + character_entries(cs)
}

/// Whether the sums over the characters fit in an `i64` at every step.
pub open spec fn totals_fit(cs: Seq<PlayerCharacter>) -> bool {
    forall|k: int| 0 <= k <= cs.len() ==> fits_i64(#[trigger] total_levels(cs.subrange(0, k)))
        && fits_i64(total_experience(cs.subrange(0, k)))
}

fn push_entry(s: &mut String, c: &PlayerCharacter)
    requires
        c.stat_channel_id != 0,
    ensures
        final(s)@ == old(s)@ + character_entry(*c),
{
    push_str(s, "### ");
    push_str(s, c.emoji.as_str());
    push_str(s, c.name.as_str());
    push_str(s, " – ");
    push_str(s, "<#");
    push_u64(s, c.stat_channel_id as u64);
    push_str(s, ">");
    push_str(s, "\n        Level: ");
    push_i64(s, c.level);
    push_str(s, " (");
    push_i64(s, c.current_experience);
    push_str(s, " exp)\n");
    proof {
        reveal_strlit(">");
    }
    assert(s@ =~= old(s)@ + character_entry(*c));
}

/// The overview of a player: their name, when they joined, the levels and experience of
/// their characters, the slots used and earned, quests hosted, GM experience, and an
/// entry per character.
pub fn build_player_info(
    display_name: &str,
    joined: Option<&str>,
    characters: &Vec<PlayerCharacter>,
    hosted_quest_count: Option<i32>,
    gm_experience: Option<i64>,
) -> (s: String)
    requires
        totals_fit(characters@),
        forall|k: int| 0 <= k < characters.len() ==> (#[trigger] characters@[k]).stat_channel_id != 0,
    ensures
        s@ == player_info_text(
            display_name@,
            match joined {
                Some(j) => Some(j@),
                None => None,
            },
            characters@,
            hosted_quest_count,
            gm_experience,
        ),
{
    let mut list = String::new();
    let mut levels: i64 = 0;
    let mut experience: i64 = 0;
    let mut i: usize = 0;
    while i < characters.len()
        invariant
            i <= characters.len(),
            totals_fit(characters@),
            forall|k: int| 0 <= k < characters.len() ==> (#[trigger] characters@[k]).stat_channel_id != 0,
            levels == total_levels(characters@.subrange(0, i as int)),
            experience == total_experience(characters@.subrange(0, i as int)),
            list@ == character_entries(characters@.subrange(0, i as int)),
        decreases characters.len() - i,
    {
        let ghost next = characters@.subrange(0, i + 1);
        assert(next.drop_last() =~= characters@.subrange(0, i as int));
        assert(fits_i64(total_levels(next)) && fits_i64(total_experience(next)));
        experience = experience + characters[i].experience;
        levels = levels + characters[i].level;
        push_entry(&mut list, &characters[i]);
        i = i + 1;
    }
    assert(characters@.subrange(0, i as int) =~= characters@);
    let mut s = String::new();
    push_str(&mut s, "## ");
    push_str(&mut s, display_name);
    push_str(&mut s, "\n**Joined at**: ");
    match joined {
        Some(j) => push_str(&mut s, j),
        None => push_str(&mut s, "Unknown"),
    }
    push_str(&mut s, "\n**Total Character Level**: ");
    push_i64(&mut s, levels);
    push_str(&mut s, " \n**Total Experience**: ");
    push_i64(&mut s, experience);
    push_str(&mut s, "\n**Character Slots**: ");
    push_u64(&mut s, characters.len() as u64);
    push_str(&mut s, "/");
    let slots: i64 = if levels >= 0 {
        1 + levels / 5
    } else {
        let magnitude: u64 = (-(levels + 1)) as u64 + 1;
        1 - ((magnitude / 5) as i64)
    };
    push_i64(&mut s, slots);
    match hosted_quest_count {
        Some(n) => {
            push_str(&mut s, "\n**Hosted Quests:** ");
            push_i64(&mut s, n as i64);
        },
        None => {},
    }
    match gm_experience {
        Some(x) => {
            push_str(&mut s, "\n**GM Experience**: ");
            push_i64(&mut s, x);
        },
        None => {},
    }
    push_str(&mut s, "\n");
    push_str(&mut s, list.as_str());
    proof {
        reveal_strlit("/");
        reveal_strlit("\n");
    }
    assert(s@ =~= player_info_text(
        display_name@,
        match joined {
            Some(j) => Some(j@),
            None => None,
        },
        characters@,
        hosted_quest_count,
        gm_experience,
    ));
    s
}

} // verus!
