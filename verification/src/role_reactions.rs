//! Role reaction posts: a post that lists roles by emoji, the summary for the
//! moderator who made it, and the reactions to add.

use vstd::prelude::*;

use crate::text::{nat_digits, push_str, push_u64};

verus! {

/// The only user who may create role reaction posts for now.
pub const ROLE_POST_AUTHOR_ID: u64 = 878982444412448829;

/// The answer to anyone else.
pub const ROLE_POST_WIP: &'static str = "This command is currently highly WIP and requires some manual hacks to work. Sowwie! Contact Lilo if you really need to use it.";

/// A role picked for the post: its id and its name.
pub struct RoleChoice {
    pub id: u64,
    pub name: String,
}

/// An emoji and the role it stands for.
pub struct RoleReaction {
    pub emoji: String,
    pub role: RoleChoice,
}

/// The three texts of a role reaction post.
pub struct RoleReactionPost {
    /// The post: the title in bold, then one line per role.
    pub reaction_message: String,
    /// The summary for the moderator: emoji, role id and role name per role.
    pub command_response: String,
    /// The emoji to react with, in order.
    pub reactions: Vec<String>,
}

/// Whether a user may create a role reaction post.
pub fn may_create_role_reaction_post(author_id: u64) -> (b: bool)
    ensures
        b == (author_id == ROLE_POST_AUTHOR_ID),
{
    author_id == ROLE_POST_AUTHOR_ID
}

/// The line of a role in the post: `{emoji} {name}`.
pub open spec fn post_line(r: RoleReaction) -> Seq<char> {
    r.emoji@ + seq![' '] + r.role.name@ + seq!['\n']
}

/// The summary of a role: the emoji, the id in code, and the mention text in code.
pub open spec fn response_line(r: RoleReaction) -> Seq<char> {
    r.emoji@ + seq!['`'] + nat_digits(r.role.id as nat) + seq!['`', ' ', '`', '@'] + r.role.name@ + seq!['`', '\n']
}

pub open spec fn post_lines(roles: Seq<RoleReaction>) -> Seq<char>
    decreases roles.len(),
{
    if roles.len() == 0 {
        Seq::empty()
    } else {
        post_lines(roles.drop_last()) + post_line(roles.last())
    }
}

pub open spec fn response_lines(roles: Seq<RoleReaction>) -> Seq<char>
    decreases roles.len(),
{
    if roles.len() == 0 {
        Seq::empty()
    } else {
        response_lines(roles.drop_last()) + response_line(roles.last())
    }
}

/// The roles of the post, the two required ones first, then each optional one for which
/// an emoji is given.
pub open spec fn chosen_roles(required: Seq<RoleReaction>, optional: Seq<(Option<String>, Option<RoleChoice>)>) -> Seq<RoleReaction>
    decreases optional.len(),
{
    if optional.len() == 0 {
        required
    } else {
        let rest = chosen_roles(required, optional.drop_last());
        match optional.last().0 {
            Some(e) => rest.push(RoleReaction { emoji: e, role: optional.last().1->0 }),
            None => rest,
        }
    }
}

/// Builds the post for a title and its roles: two required ones, and optional ones
/// where an emoji is given (each such one must come with its role).
pub fn build_role_reaction_post(
    text: &str,
    first: &RoleReaction,
    second: &RoleReaction,
    optional: &Vec<(Option<String>, Option<RoleChoice>)>,
) -> (p: RoleReactionPost)
    requires
        forall|k: int| 0 <= k < optional.len() ==> (#[trigger] optional@[k]).0 is Some ==> optional@[k].1 is Some,
    ensures
        p.reaction_message@ == "**"@ + text@ + "**\n"@ + post_lines(chosen_roles(seq![*first, *second], optional@)),
        p.command_response@ == response_lines(chosen_roles(seq![*first, *second], optional@)),
        p.reactions@.map_values(|e: String| e@) == chosen_roles(seq![*first, *second], optional@).map_values(
            |r: RoleReaction| r.emoji@,
        ),
{
    let mut reaction_message = String::new();
    let mut command_response = String::new();
    let mut reactions: Vec<String> = Vec::new();
    push_str(&mut reaction_message, "**");
    push_str(&mut reaction_message, text);
    push_str(&mut reaction_message, "**\n");
    let ghost head = reaction_message@;
    add_role(&mut reaction_message, &mut command_response, &mut reactions, &first.emoji, &first.role);
    add_role(&mut reaction_message, &mut command_response, &mut reactions, &second.emoji, &second.role);
    assert(post_lines(seq![*first, *second]) =~= post_line(*first) + post_line(*second)) by {
        assert(seq![*first, *second].drop_last() =~= seq![*first]);
        assert(seq![*first].drop_last() =~= Seq::<RoleReaction>::empty());
        assert(post_lines(Seq::<RoleReaction>::empty()) =~= Seq::<char>::empty());
        assert(post_lines(seq![*first]) =~= post_line(*first));
        assert(post_lines(seq![*first, *second]) =~= post_lines(seq![*first]) + post_line(*second));
    }
    assert(response_lines(seq![*first, *second]) =~= response_line(*first) + response_line(*second)) by {
        assert(seq![*first, *second].drop_last() =~= seq![*first]);
        assert(seq![*first].drop_last() =~= Seq::<RoleReaction>::empty());
        assert(response_lines(Seq::<RoleReaction>::empty()) =~= Seq::<char>::empty());
        assert(response_lines(seq![*first]) =~= response_line(*first));
        assert(response_lines(seq![*first, *second]) =~= response_lines(seq![*first]) + response_line(*second));
    }
    assert(reaction_message@ =~= head + post_lines(seq![*first, *second]));
    assert(reactions@.map_values(|e: String| e@) =~= seq![*first, *second].map_values(|r: RoleReaction| r.emoji@));
    let mut i: usize = 0;
    while i < optional.len()
        invariant
            i <= optional.len(),
            forall|k: int| 0 <= k < optional.len() ==> (#[trigger] optional@[k]).0 is Some ==> optional@[k].1 is Some,
            reaction_message@ == head + post_lines(chosen_roles(seq![*first, *second], optional@.subrange(0, i as int))),
            command_response@ == response_lines(chosen_roles(seq![*first, *second], optional@.subrange(0, i as int))),
            reactions@.map_values(|e: String| e@) == chosen_roles(seq![*first, *second], optional@.subrange(0, i as int)).map_values(
                |r: RoleReaction| r.emoji@,
            ),
        decreases optional.len() - i,
    {
        let ghost before = chosen_roles(seq![*first, *second], optional@.subrange(0, i as int));
        assert(optional@.subrange(0, i + 1).drop_last() =~= optional@.subrange(0, i as int));
        let entry = &optional[i];
        match &entry.0 {
            Some(emoji) => {
                let role = match &entry.1 {
                    Some(r) => r,
                    None => {
                        assert(false);
                        &first.role
                    },
                };
                add_role(&mut reaction_message, &mut command_response, &mut reactions, emoji, role);
                let ghost added = RoleReaction { emoji: *emoji, role: *role };
                assert(chosen_roles(seq![*first, *second], optional@.subrange(0, i + 1)) == before.push(added));
                assert(before.push(added).drop_last() =~= before);
                assert(before.push(added).map_values(|r: RoleReaction| r.emoji@) =~= before.map_values(
                    |r: RoleReaction| r.emoji@,
                ).push(emoji@));
            },
            None => {},
        }
        i = i + 1;
    }
    assert(optional@.subrange(0, i as int) =~= optional@);
    RoleReactionPost { reaction_message, command_response, reactions }
}

fn add_role(
    reaction_message: &mut String,
    command_response: &mut String,
    all_emojis: &mut Vec<String>,
    emoji: &String,
    role: &RoleChoice,
)
    ensures
        final(reaction_message)@ == old(reaction_message)@ + post_line(RoleReaction { emoji: *emoji, role: *role }),
        final(command_response)@ == old(command_response)@ + response_line(
            RoleReaction { emoji: *emoji, role: *role },
        ),
        final(all_emojis)@.map_values(|e: String| e@) == old(all_emojis)@.map_values(|e: String| e@).push(emoji@),
{
    push_str(command_response, emoji.as_str());
    push_str(command_response, "`");
    push_u64(command_response, role.id);
    push_str(command_response, "` `@");
    push_str(command_response, role.name.as_str());
    push_str(command_response, "`\n");
    push_str(reaction_message, emoji.as_str());
    push_str(reaction_message, " ");
    push_str(reaction_message, role.name.as_str());
    push_str(reaction_message, "\n");
    let mut e = String::new();
    push_str(&mut e, emoji.as_str());
    let ghost before = all_emojis@;
    all_emojis.push(e);
    proof {
        reveal_strlit("`");
        reveal_strlit("` `@");
        reveal_strlit("`\n");
        reveal_strlit(" ");
        reveal_strlit("\n");
    }
    assert(all_emojis@.map_values(|x: String| x@) =~= before.map_values(|x: String| x@).push(emoji@));
    assert(reaction_message@ =~= old(reaction_message)@ + post_line(RoleReaction { emoji: *emoji, role: *role }));
    assert(command_response@ =~= old(command_response)@ + response_line(RoleReaction { emoji: *emoji, role: *role }));
}

/// The reply after the post is sent: its id and the summary.
pub fn role_post_reply(message_id: u64, command_response: &str) -> (s: String)
    ensures
        s@ == "Message created.\nMessageId: `"@ + nat_digits(message_id as nat) + "`\n"@ + command_response@,
{
    let mut s = String::new();
    push_str(&mut s, "Message created.\nMessageId: `");
    push_u64(&mut s, message_id);
    push_str(&mut s, "`\n");
    push_str(&mut s, command_response);
    s
}

} // verus!
