//! Helpers shared by the bot's commands: variadic arguments, character lookup by the
//! name a user typed, money and ownership checks.

use crate::cache::{autocomplete_name_spec, CharacterCacheItem};
use crate::random::string_views;
use crate::emoji::POKE_COIN;
use crate::errors::{ParseError, ValidationError};
use crate::wallets::character_not_found;
use crate::text::{int_text, lowercase, push_i64, push_str, str_eq, to_lowercase};
use vstd::prelude::*;

verus! {

/// The values that are present, in order.
pub open spec fn somes<T>(options: Seq<Option<T>>) -> Seq<T>
    decreases options.len(),
{
    if options.len() == 0 {
        Seq::<T>::empty()
    } else {
        match options.last() {
            Some(x) => somes(options.drop_last()).push(x),
            None => somes(options.drop_last()),
        }
    }
}

proof fn lemma_somes_push<T>(options: Seq<Option<T>>, o: Option<T>)
    ensures
        somes(options.push(o)) == match o {
            Some(x) => somes(options).push(x),
            None => somes(options),
        },
{
    assert(options.push(o).drop_last() =~= options);
}

/// Collects a command's first argument and whichever of its optional further arguments
/// were given, in order.
#[allow(clippy::too_many_arguments)]
pub fn parse_variadic_args<T>(
    arg1: T,
    arg2: Option<T>,
    arg3: Option<T>,
    arg4: Option<T>,
    arg5: Option<T>,
    arg6: Option<T>,
    arg7: Option<T>,
    arg8: Option<T>,
    arg9: Option<T>,
) -> (result: Vec<T>)
    ensures
        result@ == seq![arg1] + somes(seq![arg2, arg3, arg4, arg5, arg6, arg7, arg8, arg9]),
{
    let ghost options = seq![arg2, arg3, arg4, arg5, arg6, arg7, arg8, arg9];
    let mut result = Vec::new();
    result.push(arg1);
    proof {
        assert(options.subrange(0, 0) =~= Seq::<Option<T>>::empty());
        assert(result@ =~= seq![arg1] + somes(options.subrange(0, 0)));
    }
    add_if_some(&mut result, arg2);
    proof {
        lemma_somes_push(options.subrange(0, 0), options[0]);
        assert(options.subrange(0, 1) =~= options.subrange(0, 0).push(options[0]));
        assert(result@ =~= seq![arg1] + somes(options.subrange(0, 1)));
    }
    add_if_some(&mut result, arg3);
    proof {
        lemma_somes_push(options.subrange(0, 1), options[1]);
        assert(options.subrange(0, 2) =~= options.subrange(0, 1).push(options[1]));
        assert(result@ =~= seq![arg1] + somes(options.subrange(0, 2)));
    }
    add_if_some(&mut result, arg4);
    proof {
        lemma_somes_push(options.subrange(0, 2), options[2]);
        assert(options.subrange(0, 3) =~= options.subrange(0, 2).push(options[2]));
        assert(result@ =~= seq![arg1] + somes(options.subrange(0, 3)));
    }
    add_if_some(&mut result, arg5);
    proof {
        lemma_somes_push(options.subrange(0, 3), options[3]);
        assert(options.subrange(0, 4) =~= options.subrange(0, 3).push(options[3]));
        assert(result@ =~= seq![arg1] + somes(options.subrange(0, 4)));
    }
    add_if_some(&mut result, arg6);
    proof {
        lemma_somes_push(options.subrange(0, 4), options[4]);
        assert(options.subrange(0, 5) =~= options.subrange(0, 4).push(options[4]));
        assert(result@ =~= seq![arg1] + somes(options.subrange(0, 5)));
    }
    add_if_some(&mut result, arg7);
    proof {
        lemma_somes_push(options.subrange(0, 5), options[5]);
        assert(options.subrange(0, 6) =~= options.subrange(0, 5).push(options[5]));
        assert(result@ =~= seq![arg1] + somes(options.subrange(0, 6)));
    }
    add_if_some(&mut result, arg8);
    proof {
        lemma_somes_push(options.subrange(0, 6), options[6]);
        assert(options.subrange(0, 7) =~= options.subrange(0, 6).push(options[6]));
        assert(result@ =~= seq![arg1] + somes(options.subrange(0, 7)));
    }
    add_if_some(&mut result, arg9);
    proof {
        lemma_somes_push(options.subrange(0, 7), options[7]);
        assert(options.subrange(0, 8) =~= options.subrange(0, 7).push(options[7]));
        assert(result@ =~= seq![arg1] + somes(options.subrange(0, 8)));
    }
    proof {
        assert(options.subrange(0, 8) =~= options);
    }
    result
}

/// Appends the value, if there is one.
pub fn add_if_some<T>(vec: &mut Vec<T>, option: Option<T>)
    ensures
        final(vec)@ == match option {
            Some(x) => old(vec)@.push(x),
            None => old(vec)@,
        },
{
    if let Some(x) = option {
        vec.push(x);
    }
}

/// Whether a cache item is the character of that guild whose autocomplete name is `text`.
pub open spec fn is_autocomplete_match(c: CharacterCacheItem, guild_id: u64, text: Seq<char>) -> bool {
    c.guild_id == guild_id && c.autocomplete_name() == text
}

/// The first position at which a character matches its autocomplete name.
pub open spec fn first_autocomplete_match(chars: Seq<CharacterCacheItem>, guild_id: u64, text: Seq<char>) -> Option<
    int,
>
    decreases chars.len(),
{
    if chars.len() == 0 {
        None
    } else if is_autocomplete_match(chars[0], guild_id, text) {
        Some(0)
    } else {
        match first_autocomplete_match(chars.drop_first(), guild_id, text) {
            Some(i) => Some(i + 1),
            None => None,
        }
    }
}

/// The lowercase forms of the characters' names.
pub open spec fn character_names_lowered(chars: Seq<CharacterCacheItem>) -> Seq<Seq<char>> {
    chars.map_values(|c: CharacterCacheItem| lowercase(c.name@))
}

/// The positions of the characters of that guild whose lowercase name (given in
/// `lowered`, position by position) is `lowered_text`.
pub open spec fn name_match_positions_in(
    chars: Seq<CharacterCacheItem>,
    lowered: Seq<Seq<char>>,
    guild_id: u64,
    lowered_text: Seq<char>,
) -> Seq<int>
    decreases chars.len(),
{
    if chars.len() == 0 {
        Seq::<int>::empty()
    } else {
        let rest = name_match_positions_in(chars.drop_last(), lowered.subrange(0, chars.len() - 1), guild_id, lowered_text);
        if chars.last().guild_id == guild_id && lowered[chars.len() - 1] == lowered_text {
            rest.push(chars.len() - 1)
        } else {
            rest
        }
    }
}

/// The positions of the characters whose name matches, ignoring case.
pub open spec fn name_match_positions(chars: Seq<CharacterCacheItem>, guild_id: u64, text: Seq<char>) -> Seq<int> {
    name_match_positions_in(chars, character_names_lowered(chars), guild_id, lowercase(text))
}

/// The character meant by `text`, given the lowercase forms of the names and of the text:
/// the first one of that guild whose autocomplete name it is; else the only one of that
/// guild whose lowercase name is the lowercase text. `None` where neither exists.
pub open spec fn find_character_in(
    chars: Seq<CharacterCacheItem>,
    lowered: Seq<Seq<char>>,
    guild_id: u64,
    text: Seq<char>,
    lowered_text: Seq<char>,
) -> Option<int> {
    match first_autocomplete_match(chars, guild_id, text) {
        Some(i) => Some(i),
        None => {
            let m = name_match_positions_in(chars, lowered, guild_id, lowered_text);
            if m.len() == 1 { Some(m[0]) } else { None }
        }
    }
}

/// The character that a user means by `text`: the first one of that guild whose
/// autocomplete name it is; else the only one of that guild with that name, ignoring
/// case. `None` where neither exists (no match, or several).
pub open spec fn find_character_spec(chars: Seq<CharacterCacheItem>, guild_id: u64, text: Seq<char>) -> Option<int> {
    find_character_in(chars, character_names_lowered(chars), guild_id, text, lowercase(text))
}

/// The same character, field by field.
pub open spec fn same_character(a: CharacterCacheItem, b: CharacterCacheItem) -> bool {
    &&& a.id == b.id
    &&& a.name@ == b.name@
    &&& a.is_retired == b.is_retired
    &&& a.guild_id == b.guild_id
    &&& a.user_id == b.user_id
    &&& a.autocomplete_name() == b.autocomplete_name()
}

proof fn lemma_first_match(chars: Seq<CharacterCacheItem>, guild_id: u64, text: Seq<char>, i: int)
    requires
        0 <= i <= chars.len(),
        forall|j: int| 0 <= j < i ==> !is_autocomplete_match(#[trigger] chars[j], guild_id, text),
    ensures
        i < chars.len() && is_autocomplete_match(chars[i], guild_id, text) ==> first_autocomplete_match(
            chars,
            guild_id,
            text,
        ) == Some(i),
        i == chars.len() ==> first_autocomplete_match(chars, guild_id, text) is None,
    decreases chars.len(),
{
    if chars.len() > 0 && i > 0 {
        assert(!is_autocomplete_match(chars[0], guild_id, text));
        let rest = chars.drop_first();
        assert forall|j: int| 0 <= j < i - 1 implies !is_autocomplete_match(#[trigger] rest[j], guild_id, text) by {
            assert(rest[j] == chars[j + 1]);
        }
        lemma_first_match(rest, guild_id, text, i - 1);
        if i < chars.len() {
            assert(rest[i - 1] == chars[i]);
        }
    }
}

/// Finds the character that a user means by `text`, given the lowercase forms of the
/// characters' names (position by position) and of the text; see `find_character_in`.
pub fn find_character_lowered(
    characters: &Vec<CharacterCacheItem>,
    lowered_names: &Vec<String>,
    guild_id: u64,
    text: &str,
    lowered_text: &str,
) -> (r: Option<CharacterCacheItem>)
    requires
        lowered_names.len() == characters.len(),
    ensures
        match find_character_in(characters@, string_views(lowered_names@), guild_id, text@, lowered_text@) {
            Some(i) => r is Some && same_character(r->0, characters@[i]),
            None => r is None,
        },
{
    let ghost lows = string_views(lowered_names@);
    let mut i: usize = 0;
    while i < characters.len()
        invariant
            i <= characters.len(),
            forall|j: int| 0 <= j < i ==> !is_autocomplete_match(#[trigger] characters@[j], guild_id, text@),
        decreases characters.len() - i,
    {
        let x = &characters[i];
        if x.guild_id == guild_id && str_eq(text, x.get_autocomplete_name().as_str()) {
            proof {
                lemma_first_match(characters@, guild_id, text@, i as int);
            }
            return Some(x.duplicate());
        }
        i = i + 1;
    }
    proof {
        lemma_first_match(characters@, guild_id, text@, characters@.len() as int);
    }

    // The user didn't use an autocomplete name.
    let mut matches: Vec<usize> = Vec::new();
    let mut k: usize = 0;
    while k < characters.len()
        invariant
            k <= characters.len(),
            lowered_names.len() == characters.len(),
            lows == string_views(lowered_names@),
            matches@.len() == name_match_positions_in(characters@.subrange(0, k as int), lows.subrange(0, k as int), guild_id, lowered_text@).len(),
            forall|m: int| 0 <= m < matches@.len() ==> #[trigger] matches@[m] as int
                == name_match_positions_in(characters@.subrange(0, k as int), lows.subrange(0, k as int), guild_id, lowered_text@)[m],
            forall|m: int| 0 <= m < matches@.len() ==> #[trigger] matches@[m] < k,
        decreases characters.len() - k,
    {
        let x = &characters[k];
        proof {
            let prefix = characters@.subrange(0, k + 1);
            assert(prefix.drop_last() =~= characters@.subrange(0, k as int));
            assert(prefix.last() == characters@[k as int]);
            assert(lows.subrange(0, k + 1).subrange(0, k as int) =~= lows.subrange(0, k as int));
            assert(lows.subrange(0, k + 1)[k as int] == lowered_names@[k as int]@);
        }
        if x.guild_id == guild_id {
            if str_eq(lowered_names[k].as_str(), lowered_text) {
                matches.push(k);
            }
        }
        k = k + 1;
    }
    proof {
        assert(characters@.subrange(0, characters@.len() as int) =~= characters@);
        assert(lows.subrange(0, characters@.len() as int) =~= lows);
    }
    if matches.len() != 1 {
        None
    } else {
        Some(characters[matches[0]].duplicate())
    }
}

/// Finds the character that a user means by `text` among the cached characters; see
/// `find_character_spec`.
pub fn parse_user_input_to_character(characters: &Vec<CharacterCacheItem>, guild_id: u64, text: &str) -> (r: Option<
    CharacterCacheItem,
>)
    ensures
        match find_character_spec(characters@, guild_id, text@) {
            Some(i) => r is Some && same_character(r->0, characters@[i]),
            None => r is None,
        },
{
    let mut lowered: Vec<String> = Vec::new();
    let mut i: usize = 0;
    while i < characters.len()
        invariant
            i <= characters.len(),
            lowered.len() == i,
            forall|k: int| 0 <= k < i ==> (#[trigger] lowered@[k])@ == lowercase(characters@[k].name@),
        decreases characters.len() - i,
    {
        lowered.push(to_lowercase(characters[i].name.as_str()));
        i = i + 1;
    }
    assert(string_views(lowered@) =~= character_names_lowered(characters@));
    let lowercase_input = to_lowercase(text);
    find_character_lowered(characters, &lowered, guild_id, text, lowercase_input.as_str())
}

/// The character that a user means by `text`, or the error that names the text.
pub fn find_character(characters: &Vec<CharacterCacheItem>, guild_id: u64, text: &str) -> (r: Result<
    CharacterCacheItem,
    ParseError,
>)
    ensures
        match find_character_spec(characters@, guild_id, text@) {
            Some(i) => r is Ok && same_character(r->Ok_0, characters@[i]),
            None => r is Err && r->Err_0.message@ == "Unable to find a character named "@ + text@,
        },
{
    match parse_user_input_to_character(characters, guild_id, text) {
        Some(c) => Ok(c),
        None => Err(character_not_found(text)),
    }
}

/// `sqlx::Error`: a failed database request.
#[verifier::external_type_specification]
#[verifier::external_body]
pub struct ExSqlxError(sqlx::Error);

/// How much money a character or wallet owns, as read from the database.
pub struct MoneyRecord {
    pub money: i64,
}

/// The answer when someone wants to spend more than they own.
pub open spec fn not_enough_money_text(entity_name: Seq<char>, amount: i64, verb: Seq<char>, money: i64) -> Seq<char> {
    "**Unable to "@ + verb + " "@ + int_text(amount as int) + " "@ + POKE_COIN@ + ".**\n*"@ + entity_name
        + " only owns "@ + int_text(money as int) + " "@ + POKE_COIN@ + ".*"@
}

/// The answer when the money could not be read.
pub open spec fn money_lookup_failed_text(entity_name: Seq<char>) -> Seq<char> {
    "**Something went wrong when checking how much money "@ + entity_name
        + " has. Please try again. Let me know if this ever happens.**"@
}

/// Checks that the record shows at least `amount` money: `Ok` exactly then; otherwise
/// the error says how much is owned, or that the record could not be read.
pub fn ensure_money_record_has_money(
    entity_name: &str,
    amount: i64,
    verb: &str,
    character_record: Result<MoneyRecord, sqlx::Error>,
) -> (r: Result<(), ValidationError>)
    ensures
        match character_record {
            Ok(record) => if record.money >= amount {
                r is Ok
            } else {
                r is Err && r->Err_0.message@ == not_enough_money_text(entity_name@, amount, verb@, record.money)
            },
            Err(_) => r is Err && r->Err_0.message@ == money_lookup_failed_text(entity_name@),
        },
{
    if let Ok(character_record) = character_record {
        if character_record.money >= amount {
            Ok(())
        } else {
            let mut m = String::new();
            push_str(&mut m, "**Unable to ");
            push_str(&mut m, verb);
            push_str(&mut m, " ");
            push_i64(&mut m, amount);
            push_str(&mut m, " ");
            push_str(&mut m, POKE_COIN);
            push_str(&mut m, ".**\n*");
            push_str(&mut m, entity_name);
            push_str(&mut m, " only owns ");
            push_i64(&mut m, character_record.money);
            push_str(&mut m, " ");
            push_str(&mut m, POKE_COIN);
            push_str(&mut m, ".*");
            Err(ValidationError::from_string(m))
        }
    } else {
        let mut m = String::new();
        push_str(&mut m, "**Something went wrong when checking how much money ");
        push_str(&mut m, entity_name);
        push_str(&mut m, " has. Please try again. Let me know if this ever happens.**");
        Err(ValidationError::from_string(m))
    }
}

/// The answer when a user does not own the character they act for.
pub open spec fn not_owner_text(name: Seq<char>) -> Seq<char> {
    "You don't seem to own a character named "@ + name + " on this server."@
}

/// Checks that the user owns the character.
pub fn ensure_user_owns_character(user_id: u64, giver: &CharacterCacheItem) -> (r: Result<(), ValidationError>)
    ensures
        r is Ok <==> giver.user_id == user_id,
        r is Err ==> r->Err_0.message@ == not_owner_text(giver.name@),
{
    if giver.user_id == user_id {
        Ok(())
    } else {
        let mut m = String::new();
        push_str(&mut m, "You don't seem to own a character named ");
        push_str(&mut m, giver.name.as_str());
        push_str(&mut m, " on this server.");
        Err(ValidationError::from_string(m))
    }
}

/// The role of the server's admins.
pub const ADMIN_ROLE_ID: u64 = 1113123557292134480;

/// The role of the server's game masters.
pub const GM_ROLE_ID: u64 = 1114261188323319878;

/// The role of the server's trial game masters.
pub const TRIAL_GM_ROLE_ID: u64 = 1119538793310068787;

/// Whether a role makes its holder an admin or a game master.
pub open spec fn is_staff_role(role: u64) -> bool {
    role == ADMIN_ROLE_ID || role == GM_ROLE_ID || role == TRIAL_GM_ROLE_ID
}

/// Whether a member with these roles is an admin or a game master.
pub fn is_user_admin_or_gm(roles: &Vec<u64>) -> (r: bool)
    ensures
        r == exists|i: int| 0 <= i < roles@.len() && is_staff_role(#[trigger] roles@[i]),
{
    let mut i: usize = 0;
    while i < roles.len()
        invariant
            i <= roles.len(),
            forall|j: int| 0 <= j < i ==> !is_staff_role(#[trigger] roles@[j]),
        decreases roles.len() - i,
    {
        let r = roles[i];
        if r == ADMIN_ROLE_ID || r == GM_ROLE_ID || r == TRIAL_GM_ROLE_ID {
            assert(is_staff_role(roles@[i as int]));
            return true;
        }
        i = i + 1;
    }
    false
}

} // verus!

verus! {

/// The positions of the characters meant by the names, or the position of the first
/// name that matches no character.
pub open spec fn lookup_names(chars: Seq<CharacterCacheItem>, guild_id: u64, names: Seq<Seq<char>>) -> Result<
    Seq<int>,
    int,
>
    decreases names.len(),
{
    if names.len() == 0 {
        Ok(Seq::<int>::empty())
    } else {
        match lookup_names(chars, guild_id, names.drop_last()) {
            Err(k) => Err(k),
            Ok(found) => match find_character_spec(chars, guild_id, names.last()) {
                Some(i) => Ok(found.push(i)),
                None => Err(names.len() - 1),
            },
        }
    }
}

/// The first position whose id occurred before it.
pub open spec fn first_duplicate(ids: Seq<i64>) -> Option<int>
    decreases ids.len(),
{
    if ids.len() == 0 {
        None
    } else {
        match first_duplicate(ids.drop_last()) {
            Some(p) => Some(p),
            None => if ids.drop_last().contains(ids.last()) { Some(ids.len() - 1) } else { None },
        }
    }
}

/// The characters meant by a list of names: each name must match a character, and no
/// character may be named twice. The error names the first name without a match, else
/// the first character named a second time.
pub open spec fn parse_character_names_spec(chars: Seq<CharacterCacheItem>, guild_id: u64, names: Seq<Seq<char>>) -> Result<
    Seq<int>,
    Seq<char>,
> {
    match lookup_names(chars, guild_id, names) {
        Err(k) => Err("Unable to find a character named "@ + names[k]),
        Ok(found) => match first_duplicate(found.map_values(|i: int| chars[i].id)) {
            Some(p) => Err("Duplicate character: "@ + chars[found[p]].autocomplete_name()),
            None => Ok(found),
        },
    }
}

proof fn lemma_no_duplicate_distinct(ids: Seq<i64>)
    requires
        first_duplicate(ids) is None,
    ensures
        forall|i: int, j: int| 0 <= i < j < ids.len() ==> ids[i] != ids[j],
    decreases ids.len(),
{
    if ids.len() > 0 {
        let prev = ids.drop_last();
        lemma_no_duplicate_distinct(prev);
        assert forall|i: int, j: int| 0 <= i < j < ids.len() implies ids[i] != ids[j] by {
            if j == ids.len() - 1 {
                assert(prev[i] == ids[i]);
                if ids[i] == ids[j] {
                    assert(prev.contains(ids.last()));
                }
            } else {
                assert(prev[i] == ids[i] && prev[j] == ids[j]);
            }
        }
    }
}

/// No character is named twice: the characters that a list of names resolves to all
/// have different ids.
pub proof fn law_no_character_named_twice(chars: Seq<CharacterCacheItem>, guild_id: u64, names: Seq<Seq<char>>)
    ensures
        parse_character_names_spec(chars, guild_id, names) matches Ok(found) ==> forall|i: int, j: int|
            0 <= i < j < found.len() ==> chars[found[i]].id != chars[found[j]].id,
{
    if let Ok(found) = parse_character_names_spec(chars, guild_id, names) {
        let ids = found.map_values(|i: int| chars[i].id);
        lemma_no_duplicate_distinct(ids);
        assert forall|i: int, j: int| 0 <= i < j < found.len() implies chars[found[i]].id != chars[found[j]].id by {
            assert(ids[i] == chars[found[i]].id);
            assert(ids[j] == chars[found[j]].id);
        }
    }
}

proof fn lemma_lookup_names_bounds(chars: Seq<CharacterCacheItem>, guild_id: u64, names: Seq<Seq<char>>)
    ensures
        match lookup_names(chars, guild_id, names) {
            Ok(found) => found.len() == names.len() && forall|j: int| 0 <= j < found.len() ==> 0 <= #[trigger] found[j] < chars.len(),
            Err(k) => 0 <= k < names.len(),
        },
    decreases names.len(),
{
    if names.len() > 0 {
        lemma_lookup_names_bounds(chars, guild_id, names.drop_last());
        lemma_find_bounds(chars, guild_id, names.last());
        match lookup_names(chars, guild_id, names.drop_last()) {
            Ok(found) => {
                match find_character_spec(chars, guild_id, names.last()) {
                    Some(i) => {
                        assert forall|j: int| 0 <= j < found.push(i).len() implies 0 <= #[trigger] found.push(i)[j] < chars.len() by {
                            if j < found.len() {
                                assert(found.push(i)[j] == found[j]);
                            }
                        }
                    },
                    None => {},
                }
            },
            Err(_) => {},
        }
    }
}

proof fn lemma_first_match_bounds(chars: Seq<CharacterCacheItem>, guild_id: u64, text: Seq<char>)
    ensures
        first_autocomplete_match(chars, guild_id, text) matches Some(i) ==> 0 <= i < chars.len(),
    decreases chars.len(),
{
    if chars.len() > 0 {
        lemma_first_match_bounds(chars.drop_first(), guild_id, text);
    }
}

proof fn lemma_name_positions_bounds(
    chars: Seq<CharacterCacheItem>,
    lowered: Seq<Seq<char>>,
    guild_id: u64,
    lowered_text: Seq<char>,
)
    ensures
        forall|j: int| 0 <= j < name_match_positions_in(chars, lowered, guild_id, lowered_text).len()
            ==> 0 <= #[trigger] name_match_positions_in(chars, lowered, guild_id, lowered_text)[j] < chars.len(),
    decreases chars.len(),
{
    if chars.len() > 0 {
        let lw = lowered.subrange(0, chars.len() - 1);
        lemma_name_positions_bounds(chars.drop_last(), lw, guild_id, lowered_text);
        let rest = name_match_positions_in(chars.drop_last(), lw, guild_id, lowered_text);
        if chars.last().guild_id == guild_id && lowered[chars.len() - 1] == lowered_text {
            assert forall|j: int| 0 <= j < rest.push(chars.len() - 1).len() implies 0 <= #[trigger] rest.push(
                chars.len() - 1,
            )[j] < chars.len() by {
                if j < rest.len() {
                    assert(rest.push(chars.len() - 1)[j] == rest[j]);
                }
            }
        }
    }
}

/// The character found for a name is one of the cached characters.
pub proof fn lemma_find_bounds(chars: Seq<CharacterCacheItem>, guild_id: u64, text: Seq<char>)
    ensures
        find_character_spec(chars, guild_id, text) matches Some(i) ==> 0 <= i < chars.len(),
{
    lemma_first_match_bounds(chars, guild_id, text);
    lemma_name_positions_bounds(chars, character_names_lowered(chars), guild_id, lowercase(text));
}

/// Finds the characters meant by a list of names; see `parse_character_names_spec`.
pub fn parse_character_names(characters: &Vec<CharacterCacheItem>, guild_id: u64, names: &Vec<String>) -> (r: Result<
    Vec<CharacterCacheItem>,
    String,
>)
    ensures
        match parse_character_names_spec(characters@, guild_id, views_of(names@)) {
            Ok(found) => r is Ok && r->Ok_0@.len() == found.len() && forall|j: int|
                0 <= j < found.len() ==> same_character(#[trigger] r->Ok_0@[j], characters@[found[j]]),
            Err(message) => r is Err && r->Err_0@ == message,
        },
{
    let ghost all_names = views_of(names@);
    let mut result: Vec<CharacterCacheItem> = Vec::new();
    let mut i: usize = 0;
    while i < names.len()
        invariant
            all_names == views_of(names@),
            i <= names.len(),
            lookup_names(characters@, guild_id, all_names.subrange(0, i as int)) is Ok,
            result@.len() == i,
            forall|j: int| 0 <= j < i ==> same_character(#[trigger] result@[j], characters@[lookup_names(characters@, guild_id, all_names.subrange(0, i as int))->Ok_0[j]]),
        decreases names.len() - i,
    {
        proof {
            assert(all_names.subrange(0, i + 1).drop_last() =~= all_names.subrange(0, i as int));
            assert(all_names.subrange(0, i + 1).last() == names@[i as int]@);
            lemma_find_bounds(characters@, guild_id, names@[i as int]@);
        }
        match parse_user_input_to_character(characters, guild_id, names[i].as_str()) {
            Some(character) => {
                proof {
                    let prev = lookup_names(characters@, guild_id, all_names.subrange(0, i as int))->Ok_0;
                    let idx = find_character_spec(characters@, guild_id, names@[i as int]@)->Some_0;
                    lemma_lookup_names_bounds(characters@, guild_id, all_names.subrange(0, i as int));
                    assert(prev.len() == i);
                    assert(lookup_names(characters@, guild_id, all_names.subrange(0, i + 1)) == Ok::<Seq<int>, int>(prev.push(idx)));
                }
                result.push(character);
                proof {
                    let prev = lookup_names(characters@, guild_id, all_names.subrange(0, i as int))->Ok_0;
                    let idx = find_character_spec(characters@, guild_id, names@[i as int]@)->Some_0;
                    let now = lookup_names(characters@, guild_id, all_names.subrange(0, i + 1))->Ok_0;
                    lemma_lookup_names_bounds(characters@, guild_id, all_names.subrange(0, i as int));
                    assert(prev.len() == i);
                    assert(now == prev.push(idx));
                    assert forall|j: int| 0 <= j < i + 1 implies same_character(#[trigger] result@[j], characters@[now[j]]) by {
                        if j < i {
                            assert(now[j] == prev[j]);
                        }
                    }
                }
            },
            None => {
                proof {
                    assert(lookup_names(characters@, guild_id, all_names.subrange(0, i + 1)) == Err::<Seq<int>, int>(i as int));
                    lemma_lookup_prefix_error(characters@, guild_id, all_names, i as int + 1);
                }
                let mut m = String::new();
                push_str(&mut m, "Unable to find a character named ");
                push_str(&mut m, names[i].as_str());
                return Err(m);
            },
        }
        i = i + 1;
    }
    proof {
        assert(all_names.subrange(0, names@.len() as int) =~= all_names);
    }
    let ghost found = lookup_names(characters@, guild_id, all_names)->Ok_0;
    let ghost ids = found.map_values(|k: int| characters@[k].id);
    proof {
        lemma_lookup_names_bounds(characters@, guild_id, all_names);
        assert(lookup_names(characters@, guild_id, all_names) == Ok::<Seq<int>, int>(found));
    }

    let mut seen: Vec<i64> = Vec::new();
    let mut p: usize = 0;
    while p < result.len()
        invariant
            p <= result.len(),
            result@.len() == found.len(),
            ids == found.map_values(|k: int| characters@[k].id),
            all_names == views_of(names@),
            lookup_names(characters@, guild_id, all_names) == Ok::<Seq<int>, int>(found),
            forall|j: int| 0 <= j < result@.len() ==> same_character(#[trigger] result@[j], characters@[found[j]]),
            seen@ == ids.subrange(0, p as int),
            first_duplicate(ids.subrange(0, p as int)) is None,
        decreases result.len() - p,
    {
        let id = result[p].id;
        proof {
            assert(ids.subrange(0, p + 1).drop_last() =~= ids.subrange(0, p as int));
            assert(ids.subrange(0, p + 1).last() == id);
        }
        let mut q: usize = 0;
        let mut duplicate = false;
        while q < seen.len()
            invariant_except_break
                !duplicate,
            invariant
                q <= seen.len(),
                forall|j: int| 0 <= j < q ==> seen@[j] != id,
            ensures
                duplicate ==> seen@.contains(id),
                !duplicate ==> !seen@.contains(id),
            decreases seen.len() - q,
        {
            if seen[q] == id {
                duplicate = true;
                assert(seen@[q as int] == id);
                break;
            }
            q = q + 1;
        }
        if duplicate {
            proof {
                assert(same_character(result@[p as int], characters@[found[p as int]]));
                assert(ids[p as int] == id);
                assert(seen@.contains(id));
                assert(first_duplicate(ids.subrange(0, p + 1)) == Some(p as int));
                lemma_duplicate_prefix(ids, p as int + 1);
                assert(first_duplicate(ids) == Some(p as int));
                assert(lookup_names(characters@, guild_id, views_of(names@)) == Ok::<Seq<int>, int>(found));
                assert(found.map_values(|k: int| characters@[k].id) =~= ids);
                assert(parse_character_names_spec(characters@, guild_id, views_of(names@)) == Err::<Seq<int>, Seq<char>>(
                    "Duplicate character: "@ + characters@[found[p as int]].autocomplete_name()));
            }
            let mut m = String::new();
            push_str(&mut m, "Duplicate character: ");
            push_str(&mut m, result[p].get_autocomplete_name().as_str());
            return Err(m);
        }
        seen.push(id);
        p = p + 1;
    }
    proof {
        assert(ids.subrange(0, result@.len() as int) =~= ids);
    }
    Ok(result)
}

/// The views of a list of strings.
pub open spec fn views_of(v: Seq<String>) -> Seq<Seq<char>> {
    v.map_values(|x: String| x@)
}

proof fn lemma_lookup_prefix_error(chars: Seq<CharacterCacheItem>, guild_id: u64, names: Seq<Seq<char>>, n: int)
    requires
        0 < n <= names.len(),
        lookup_names(chars, guild_id, names.subrange(0, n)) is Err,
    ensures
        lookup_names(chars, guild_id, names) == lookup_names(chars, guild_id, names.subrange(0, n)),
    decreases names.len() - n,
{
    if n < names.len() {
        assert(names.subrange(0, n + 1).drop_last() =~= names.subrange(0, n));
        lemma_lookup_prefix_error(chars, guild_id, names, n + 1);
    } else {
        assert(names.subrange(0, n) =~= names);
    }
}

proof fn lemma_duplicate_prefix(ids: Seq<i64>, n: int)
    requires
        0 < n <= ids.len(),
        first_duplicate(ids.subrange(0, n)) is Some,
    ensures
        first_duplicate(ids) == first_duplicate(ids.subrange(0, n)),
    decreases ids.len() - n,
{
    if n < ids.len() {
        assert(ids.subrange(0, n + 1).drop_last() =~= ids.subrange(0, n));
        lemma_duplicate_prefix(ids, n + 1);
    } else {
        assert(ids.subrange(0, n) =~= ids);
    }
}

} // verus!
