//! Quests: creating one per channel, completing it, and listing quests.

use vstd::prelude::*;

use crate::autocompletion::{chars_contain, is_substring};
use crate::text::{int_text, nat_digits, push_i64, push_str, push_u64, str_eq, to_chars};

verus! {

/// The answer when a quest exists already in the channel.
pub const QUEST_EXISTS: &'static str = "A quest was already created for this channel!";

/// The error when the quest could not be stored.
pub const QUEST_NOT_PERSISTED: &'static str = "Unable to persist quest entry!";

/// The error when a quest is completed in a channel without one.
pub const NO_QUEST_IN_CHANNEL: &'static str = "Doesn't look like there was a quest created within this channel!";

/// The answer when every quest is completed.
pub const ALL_QUESTS_COMPLETED: &'static str = "All quests have been completed! Nothing to do here.";

/// The database's words for a second quest in a channel.
pub const UNIQUE_CONSTRAINT: &'static str = "UNIQUE constraint failed";

/// The outcome of storing a quest: `Ok` with the rows stored, or the database's error.
pub open spec fn quest_store_error(result: Result<u64, Seq<char>>) -> Option<Seq<char>> {
    match result {
        Ok(rows) => if rows > 0 { None } else { Some(QUEST_NOT_PERSISTED@) },
        Err(e) => Some("**Something went wrong!**\n"@ + e),
    }
}

/// The error of storing a quest, if any: none where a row was stored.
pub fn check_quest_stored(result: Result<u64, &str>) -> (r: Result<(), String>)
    ensures
        match quest_store_error(match result { Ok(n) => Ok(n), Err(e) => Err(e@) }) {
            Some(e) => r matches Err(m) && m@ == e,
            None => r is Ok,
        },
{
    match result {
        Ok(rows) => if rows > 0 {
            Ok(())
        } else {
            let mut m = String::new();
            push_str(&mut m, QUEST_NOT_PERSISTED);
            Err(m)
        },
        Err(e) => {
            let mut m = String::new();
            push_str(&mut m, "**Something went wrong!**\n");
            push_str(&mut m, e);
            Err(m)
        },
    }
}

/// What the quest post shows when creating the quest failed: that the channel has a
/// quest already, where the database says so, else the error itself.
pub fn quest_creation_error_text(error: &str) -> (s: String)
    ensures
        s@ == if is_substring(error@, UNIQUE_CONSTRAINT@) { QUEST_EXISTS@ } else { error@ },
{
    let e = to_chars(error);
    let pattern = to_chars(UNIQUE_CONSTRAINT);
    let mut s = String::new();
    if chars_contain(&e, &pattern) {
        push_str(&mut s, QUEST_EXISTS);
    } else {
        push_str(&mut s, error);
    }
    s
}

/// The message of a completed quest.
pub fn quest_completed_message(character_list: &str) -> (s: String)
    ensures
        s@ == character_list@ + " completed a quest!"@,
{
    let mut s = String::new();
    push_str(&mut s, character_list);
    push_str(&mut s, " completed a quest!");
    s
}

/// Which of a character's quests to list.
#[derive(Clone, Copy, Debug, PartialEq, Eq, Structural)]
pub enum QuestFilter {
    /// Every quest the character signed up for.
    SignedUp,
    /// The quests the character was accepted for.
    Accepted,
    /// The quests the character was accepted for and has not completed.
    AcceptedAndNotCompleted,
}

/// The filter that the user picked: the two named ones, and everything else lists all.
pub fn parse_quest_filter(filter: Option<&str>) -> (f: QuestFilter)
    ensures
        f == match filter {
            Some(t) => if t@ == "Accepted"@ {
                QuestFilter::Accepted
            } else if t@ == "Accepted and not completed"@ {
                QuestFilter::AcceptedAndNotCompleted
            } else {
                QuestFilter::SignedUp
            },
            None => QuestFilter::SignedUp,
        },
{
    match filter {
        Some(t) => if str_eq(t, "Accepted") {
            QuestFilter::Accepted
        } else if str_eq(t, "Accepted and not completed") {
            QuestFilter::AcceptedAndNotCompleted
        } else {
            QuestFilter::SignedUp
        },
        None => QuestFilter::SignedUp,
    }
}

/// The links to the quests' channels, one per line.
pub open spec fn quest_links(ids: Seq<i64>) -> Seq<char>
    decreases ids.len(),
{
    if ids.len() == 0 {
        Seq::empty()
    } else {
        quest_links(ids.drop_last()) + "<#"@ + int_text(ids.last() as int) + ">\n"@
    }
}

fn push_quest_links(s: &mut String, ids: &Vec<i64>)
    ensures
        final(s)@ == old(s)@ + quest_links(ids@),
{
    let ghost start = s@;
    let mut i: usize = 0;
    while i < ids.len()
        invariant
            i <= ids.len(),
            s@ == start + quest_links(ids@.subrange(0, i as int)),
        decreases ids.len() - i,
    {
        push_str(s, "<#");
        push_i64(s, ids[i]);
        push_str(s, ">\n");
        assert(ids@.subrange(0, i + 1).drop_last() =~= ids@.subrange(0, i as int));
        i = i + 1;
    }
    assert(ids@.subrange(0, i as int) =~= ids@);
}

/// The list of a character's quests, or that there are none.
pub fn character_quests_message(name: &str, quest_ids: &Vec<i64>) -> (s: String)
    ensures
        s@ == if quest_ids.len() == 0 {
            "Character '"@ + name@ + "' is not part of any quests."@
        } else {
            "Accepted quests for character '"@ + name@ + "':\n"@ + quest_links(quest_ids@)
        },
{
    let mut s = String::new();
    if quest_ids.len() == 0 {
        push_str(&mut s, "Character '");
        push_str(&mut s, name);
        push_str(&mut s, "' is not part of any quests.");
        return s;
    }
    push_str(&mut s, "Accepted quests for character '");
    push_str(&mut s, name);
    push_str(&mut s, "':\n");
    push_quest_links(&mut s, quest_ids);
    s
}

/// The list of unfinished quests, or that all are completed.
pub fn unfinished_quests_message(quest_ids: &Vec<i64>) -> (s: String)
    ensures
        s@ == if quest_ids.len() == 0 {
            ALL_QUESTS_COMPLETED@
        } else {
            "**Unfinished quests ("@ + nat_digits(quest_ids.len() as nat) + "):**\n"@ + quest_links(quest_ids@)
        },
{
    let mut s = String::new();
    if quest_ids.len() == 0 {
        push_str(&mut s, ALL_QUESTS_COMPLETED);
        return s;
    }
    push_str(&mut s, "**Unfinished quests (");
    push_u64(&mut s, quest_ids.len() as u64);
    push_str(&mut s, "):**\n");
    push_quest_links(&mut s, quest_ids);
    s
}

} // verus!
