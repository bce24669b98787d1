//! Polls: a question, numbered options, and one reaction per option.

use vstd::prelude::*;

use crate::sprites::{replace_all, replace_chars};
use crate::text::{from_chars, push_str, to_chars};

verus! {

/// The number emoji of the options, in order.
pub open spec fn number_emoji() -> Seq<Seq<char>> {
    seq!["1️⃣"@, "2️⃣"@, "3️⃣"@, "4️⃣"@, "5️⃣"@, "6️⃣"@, "7️⃣"@, "8️⃣"@, "9️⃣"@]
}

fn number_emoji_at(i: usize) -> (s: &'static str)
    requires
        i < 9,
    ensures
        s@ == number_emoji()[i as int],
{
    if i == 0 { "1️⃣" }
    else if i == 1 { "2️⃣" }
    else if i == 2 { "3️⃣" }
    else if i == 3 { "4️⃣" }
    else if i == 4 { "5️⃣" }
    else if i == 5 { "6️⃣" }
    else if i == 6 { "7️⃣" }
    else if i == 7 { "8️⃣" }
    else { "9️⃣" }
}

/// A poll: its text and the reactions to add, in order.
pub struct Poll {
    pub text: String,
    pub reactions: Vec<String>,
}

/// The lines of the options that are given, each with the emoji of its position.
pub open spec fn option_lines(options: Seq<Option<String>>, k: int) -> Seq<char>
    decreases k,
{
    if k <= 0 {
        Seq::empty()
    } else {
        option_lines(options, k - 1) + match options[k - 1] {
            Some(o) => number_emoji()[k - 1] + "   "@ + o@ + seq!['\n'],
            None => Seq::empty(),
        }
    }
}

/// The emoji of the options that are given.
pub open spec fn option_reactions(options: Seq<Option<String>>, k: int) -> Seq<Seq<char>>
    decreases k,
{
    if k <= 0 {
        Seq::empty()
    } else {
        option_reactions(options, k - 1) + match options[k - 1] {
            Some(o) => seq![number_emoji()[k - 1]],
            None => Seq::empty(),
        }
    }
}

/// How many of the first `k` options are given.
pub open spec fn given_options(options: Seq<Option<String>>, k: int) -> int
    decreases k,
{
    if k <= 0 {
        0
    } else {
        given_options(options, k - 1) + if options[k - 1] is Some { 1int } else { 0 }
    }
}

proof fn lemma_number_emoji_distinct()
    ensures
        forall|a: int, b: int| 0 <= a < b < 9 ==> number_emoji()[a] != number_emoji()[b],
{
    reveal_strlit("1️⃣");
    reveal_strlit("2️⃣");
    reveal_strlit("3️⃣");
    reveal_strlit("4️⃣");
    reveal_strlit("5️⃣");
    reveal_strlit("6️⃣");
    reveal_strlit("7️⃣");
    reveal_strlit("8️⃣");
    reveal_strlit("9️⃣");
    assert forall|a: int, b: int| 0 <= a < b < 9 implies number_emoji()[a] != number_emoji()[b] by {
        assert(number_emoji()[a][0] != number_emoji()[b][0]);
    }
}

/// Every given option gets one reaction, and no two options get the same one.
pub proof fn law_one_reaction_per_option(options: Seq<Option<String>>, k: int)
    requires
        0 <= k <= 9,
        k <= options.len(),
    ensures
        option_reactions(options, k).len() == given_options(options, k),
        forall|i: int| 0 <= i < option_reactions(options, k).len()
            ==> exists|m: int| 0 <= m < k && #[trigger] option_reactions(options, k)[i] == #[trigger] number_emoji()[m],
        forall|i: int, j: int| 0 <= i < j < option_reactions(options, k).len()
            ==> option_reactions(options, k)[i] != option_reactions(options, k)[j],
    decreases k,
{
    if k > 0 {
        law_one_reaction_per_option(options, k - 1);
        lemma_number_emoji_distinct();
        let before = option_reactions(options, k - 1);
        let after = option_reactions(options, k);
        if options[k - 1] is Some {
            assert(after =~= before.push(number_emoji()[k - 1]));
            assert forall|i: int| 0 <= i < after.len()
                implies exists|m: int| 0 <= m < k && #[trigger] after[i] == #[trigger] number_emoji()[m] by {
                if i < before.len() {
                    let m = choose|m: int| 0 <= m < k - 1 && before[i] == #[trigger] number_emoji()[m];
                    assert(after[i] == number_emoji()[m]);
                } else {
                    assert(after[i] == number_emoji()[k - 1]);
                }
            }
            assert forall|i: int, j: int| 0 <= i < j < after.len() implies after[i] != after[j] by {
                if j < before.len() {
                    assert(after[i] == before[i] && after[j] == before[j]);
                } else {
                    let m = choose|m: int| 0 <= m < k - 1 && before[i] == #[trigger] number_emoji()[m];
                    assert(after[i] == number_emoji()[m]);
                    assert(after[j] == number_emoji()[k - 1]);
                }
            }
        } else {
            assert(after =~= before);
        }
    }
}

/// The text of a poll: the question in bold, with `\n` typed by the user turned into line
/// breaks, then the options.
pub open spec fn poll_text(question: Seq<char>, options: Seq<Option<String>>) -> Seq<char> {
    "**"@ + replace_all(question, seq!['\\', 'n'], seq!['\n']) + "**\n"@ + option_lines(options, options.len() as int)
}

/// Builds a poll from a question and up to nine options; the first two are given, the
/// others may be.
pub fn build_poll(question: &str, options: &Vec<Option<String>>) -> (p: Poll)
    requires
        2 <= options.len() <= 9,
        options@[0] is Some,
        options@[1] is Some,
    ensures
        p.text@ == poll_text(question@, options@),
        p.reactions@.map_values(|r: String| r@) == option_reactions(options@, options.len() as int),
{
    proof {
        reveal_strlit("\\n");
        reveal_strlit("\n");
    }
    let q = to_chars(question);
    let replaced = replace_chars(&q, "\\n", "\n");
    let mut text = String::new();
    push_str(&mut text, "**");
    let question_text = from_chars(replaced.as_slice());
    push_str(&mut text, question_text.as_str());
    push_str(&mut text, "**\n");
    assert(seq!['\\', 'n'] =~= "\\n"@);
    assert(seq!['\n'] =~= "\n"@);
    let ghost head = text@;
    let mut reactions: Vec<String> = Vec::new();
    let mut i: usize = 0;
    while i < options.len()
        invariant
            i <= options.len() <= 9,
            text@ == head + option_lines(options@, i as int),
            reactions@.map_values(|r: String| r@) == option_reactions(options@, i as int),
        decreases options.len() - i,
    {
        match &options[i] {
            Some(o) => {
                let emoji = number_emoji_at(i);
                push_str(&mut text, emoji);
                push_str(&mut text, "   ");
                push_str(&mut text, o.as_str());
                push_str(&mut text, "\n");
                let mut r = String::new();
                push_str(&mut r, emoji);
                let ghost before = reactions@.map_values(|x: String| x@);
                reactions.push(r);
                assert(reactions@.map_values(|x: String| x@) =~= before.push(emoji@));
            },
            None => {},
        }
        proof {
            reveal_strlit("\n");
        }
        i = i + 1;
        assert(text@ =~= head + option_lines(options@, i as int));
    }
    assert(text@ =~= poll_text(question@, options@));
    Poll { text, reactions }
}

} // verus!
