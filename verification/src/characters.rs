//! What the character commands decide and write: the action log, terastallization
//! charges, name lists and the validation of user input.

use vstd::prelude::*;

use crate::cache::CharacterCacheItem;
use crate::emoji::{BATTLE_POINT, PARTYING_FACE, PARTY_POPPER, POKE_COIN};
use crate::game::{rank_index, rank_name, MysteryDungeonRank};
use crate::game::{column_suffix, type_label, with_shadow, PokemonTypeWithoutShadow};
use crate::text::{byte_len, byte_len_exceeds, int_text, join, push_i64, push_str, str_eq, to_chars};

verus! {

/// The backpack slots that every character starts with.
pub const DEFAULT_BACKPACK_SLOTS: i64 = 6;

/// The kind of change that an action-log entry reports.
#[derive(Clone, Copy, Debug, PartialEq, Eq, Structural)]
pub enum ActionType {
    Initialization,
    Reward,
    Payment,
    BackpackUpgrade,
    HiddenAbilityUnlock,
    TradeOutgoing,
    TradeIncoming,
    WalletChange,
    WalletPayment,
    WalletWithdrawal,
    Undo,
    Spar,
    NewPlayerCombatTutorial,
    NewPlayerTour,
    WalletEdit,
    CharacterEdit,
    CharacterStatReset,
    CharacterRetirement,
    CharacterUnRetirement,
    TerastallizationUnlock,
}

/// The label that starts an action-log entry of this kind.
pub open spec fn action_label(a: ActionType) -> Seq<char> {
    match a {
        ActionType::Initialization => "🌟 [Init]"@,
        ActionType::Reward => "✨ [Reward]"@,
        ActionType::BackpackUpgrade => "🎒 [Upgrade]"@,
        ActionType::HiddenAbilityUnlock => "💊 [HA Unlock]"@,
        ActionType::Payment => "💰 [Payment]"@,
        ActionType::TradeOutgoing => "➡️ [Trade]"@,
        ActionType::TradeIncoming => "⬅️ [Trade]"@,
        ActionType::WalletChange => "👛 [Wallet]"@,
        ActionType::WalletPayment => "👛⬅️ [Payment]"@,
        ActionType::WalletWithdrawal => "👛➡️ [Withdrawal]"@,
        ActionType::Undo => "↩️ [Undo]"@,
        ActionType::Spar => "🤺 [Spar]"@,
        ActionType::NewPlayerCombatTutorial => "⚔️ [Combat Tutorial]"@,
        ActionType::NewPlayerTour => "🎫 [Tour]"@,
        ActionType::WalletEdit => "📝 [Edit]"@,
        ActionType::CharacterEdit => "📝 [Edit]"@,
        ActionType::CharacterStatReset => "📝 [Edit]"@,
        ActionType::CharacterRetirement => "💤 [Retirement]"@,
        ActionType::CharacterUnRetirement => "⏰ [UnRetirement]"@,
        ActionType::TerastallizationUnlock => "💎 [Terastallization Unlock]"@,
    }
}

impl ActionType {
    /// The label that starts an action-log entry of this kind.
    pub fn label(&self) -> (s: &'static str)
        ensures
            s@ == action_label(*self),
    {
        match self {
            ActionType::Initialization => "🌟 [Init]",
            ActionType::Reward => "✨ [Reward]",
            ActionType::BackpackUpgrade => "🎒 [Upgrade]",
            ActionType::HiddenAbilityUnlock => "💊 [HA Unlock]",
            ActionType::Payment => "💰 [Payment]",
            ActionType::TradeOutgoing => "➡️ [Trade]",
            ActionType::TradeIncoming => "⬅️ [Trade]",
            ActionType::WalletChange => "👛 [Wallet]",
            ActionType::WalletPayment => "👛⬅️ [Payment]",
            ActionType::WalletWithdrawal => "👛➡️ [Withdrawal]",
            ActionType::Undo => "↩️ [Undo]",
            ActionType::Spar => "🤺 [Spar]",
            ActionType::NewPlayerCombatTutorial => "⚔️ [Combat Tutorial]",
            ActionType::NewPlayerTour => "🎫 [Tour]",
            ActionType::WalletEdit => "📝 [Edit]",
            ActionType::CharacterEdit => "📝 [Edit]",
            ActionType::CharacterStatReset => "📝 [Edit]",
            ActionType::CharacterRetirement => "💤 [Retirement]",
            ActionType::CharacterUnRetirement => "⏰ [UnRetirement]",
            ActionType::TerastallizationUnlock => "💎 [Terastallization Unlock]",
        }
    }
}

/// A row that names a character and one of its numeric columns.
#[derive(Debug)]
pub struct EntityWithNameAndNumericValue {
    pub id: i64,
    pub name: String,
    pub value: i64,
}

/// The line that lists a terastallization type: `- \`{left}/{unlocked}\` {type}`.
pub open spec fn tera_charge_line(pokemon_type: PokemonTypeWithoutShadow, unlocked: int, used: int) -> Seq<char> {
    "- `"@ + int_text(unlocked - used) + seq!['/'] + int_text(unlocked) + seq!['`', ' ']
        + type_label(with_shadow(pokemon_type)) + seq!['\n']
}

/// Appends the charges of one type, if any are unlocked.
pub fn append_tera_charges(
    string: &mut String,
    pokemon_type: PokemonTypeWithoutShadow,
    unlocked: i64,
    used: i64,
)
    requires
        unlocked > 0 ==> i64::MIN <= unlocked - used <= i64::MAX,
    ensures
        final(string)@ == if unlocked > 0 {
            old(string)@ + tera_charge_line(pokemon_type, unlocked as int, used as int)
        } else {
            old(string)@
        },
{
    if unlocked > 0 {
        push_str(string, "- `");
        push_i64(string, unlocked - used);
        push_str(string, "/");
        push_i64(string, unlocked);
        push_str(string, "` ");
        push_str(string, pokemon_type.name());
        push_str(string, "\n");
        proof {
            reveal_strlit("/");
            reveal_strlit("` ");
            reveal_strlit("\n");
        }
        assert(string@ =~= old(string)@ + tera_charge_line(pokemon_type, unlocked as int, used as int));
    }
}

/// The unlocked and used terastallization charges of one type.
#[derive(Clone, Copy, Debug, PartialEq, Eq, Structural)]
pub struct TeraCharge {
    pub pokemon_type: PokemonTypeWithoutShadow,
    pub unlocked: i64,
    pub used: i64,
}

/// The order in which a character sheet lists terastallization types.
pub open spec fn tera_sheet_order() -> Seq<PokemonTypeWithoutShadow> {
    seq![
        PokemonTypeWithoutShadow::Bug,
        PokemonTypeWithoutShadow::Dark,
        PokemonTypeWithoutShadow::Dragon,
        PokemonTypeWithoutShadow::Electric,
        PokemonTypeWithoutShadow::Fairy,
        PokemonTypeWithoutShadow::Fire,
        PokemonTypeWithoutShadow::Fighting,
        PokemonTypeWithoutShadow::Flying,
        PokemonTypeWithoutShadow::GhostType,
        PokemonTypeWithoutShadow::Grass,
        PokemonTypeWithoutShadow::Ground,
        PokemonTypeWithoutShadow::Ice,
        PokemonTypeWithoutShadow::Normal,
        PokemonTypeWithoutShadow::Poison,
        PokemonTypeWithoutShadow::Psychic,
        PokemonTypeWithoutShadow::Rock,
        PokemonTypeWithoutShadow::Steel,
        PokemonTypeWithoutShadow::Water,
    ]
}

/// The order in which a character sheet lists terastallization types.
pub fn tera_types_in_sheet_order() -> (v: Vec<PokemonTypeWithoutShadow>)
    ensures
        v@ == tera_sheet_order(),
{
    let v = vec![
        PokemonTypeWithoutShadow::Bug,
        PokemonTypeWithoutShadow::Dark,
        PokemonTypeWithoutShadow::Dragon,
        PokemonTypeWithoutShadow::Electric,
        PokemonTypeWithoutShadow::Fairy,
        PokemonTypeWithoutShadow::Fire,
        PokemonTypeWithoutShadow::Fighting,
        PokemonTypeWithoutShadow::Flying,
        PokemonTypeWithoutShadow::GhostType,
        PokemonTypeWithoutShadow::Grass,
        PokemonTypeWithoutShadow::Ground,
        PokemonTypeWithoutShadow::Ice,
        PokemonTypeWithoutShadow::Normal,
        PokemonTypeWithoutShadow::Poison,
        PokemonTypeWithoutShadow::Psychic,
        PokemonTypeWithoutShadow::Rock,
        PokemonTypeWithoutShadow::Steel,
        PokemonTypeWithoutShadow::Water,
    ];
    assert(v@ =~= tera_sheet_order());
    v
}

/// The lines of the charges, one per type with unlocked charges, in the given order.
pub open spec fn tera_lines(charges: Seq<TeraCharge>) -> Seq<char>
    decreases charges.len(),
{
    if charges.len() == 0 {
        Seq::empty()
    } else {
        let c = charges.last();
        tera_lines(charges.drop_last()) + if c.unlocked > 0 {
            tera_charge_line(c.pokemon_type, c.unlocked as int, c.used as int)
        } else {
            Seq::empty()
        }
    }
}

/// The terastallization section of a character sheet: nothing if no charge is unlocked,
/// else a heading and the lines.
pub open spec fn tera_section(charges: Seq<TeraCharge>) -> Seq<char> {
    if tera_lines(charges).len() == 0 {
        Seq::empty()
    } else {
        "### Terastallization Charges\n"@ + tera_lines(charges)
    }
}

/// The terastallization section of a character sheet.
pub fn build_tera_charges(charges: &Vec<TeraCharge>) -> (s: String)
    requires
        forall|k: int| 0 <= k < charges.len() ==> #[trigger] charges@[k].unlocked > 0 ==>
            i64::MIN <= charges@[k].unlocked - charges@[k].used <= i64::MAX,
    ensures
        s@ == tera_section(charges@),
{
    let mut lines = String::new();
    let mut i: usize = 0;
    while i < charges.len()
        invariant
            i <= charges.len(),
            lines@ == tera_lines(charges@.subrange(0, i as int)),
            forall|k: int| 0 <= k < charges.len() ==> #[trigger] charges@[k].unlocked > 0 ==>
                i64::MIN <= charges@[k].unlocked - charges@[k].used <= i64::MAX,
        decreases charges.len() - i,
    {
        let c = charges[i];
        append_tera_charges(&mut lines, c.pokemon_type, c.unlocked, c.used);
        assert(charges@.subrange(0, i + 1).drop_last() =~= charges@.subrange(0, i as int));
        i = i + 1;
    }
    assert(charges@.subrange(0, i as int) =~= charges@);
    if lines.as_str().unicode_len() == 0 {
        lines
    } else {
        let mut result = String::new();
        push_str(&mut result, "### Terastallization Charges\n");
        push_str(&mut result, lines.as_str());
        result
    }
}

/// The names of the characters, joined by commas.
pub open spec fn character_list(characters: Seq<CharacterCacheItem>) -> Seq<char> {
    join(characters.map_values(|c: CharacterCacheItem| c.name@), ", "@)
}

/// The names of the characters, joined by commas.
pub fn build_character_list(characters: &[CharacterCacheItem]) -> (s: String)
    ensures
        s@ == character_list(characters@),
{
    let mut result = String::new();
    let mut i: usize = 0;
    while i < characters.len()
        invariant
            i <= characters.len(),
            result@ == character_list(characters@.subrange(0, i as int)),
        decreases characters.len() - i,
    {
        let ghost names = characters@.subrange(0, i + 1).map_values(|c: CharacterCacheItem| c.name@);
        assert(names.drop_last() =~= characters@.subrange(0, i as int).map_values(
            |c: CharacterCacheItem| c.name@,
        ));
        if i > 0 {
            push_str(&mut result, ", ");
        }
        push_str(&mut result, characters[i].name.as_str());
        i = i + 1;
    }
    assert(characters@.subrange(0, i as int) =~= characters@);
    result
}

/// What a changed column is called in the action log: coins and battle points by their
/// emoji, terastallization unlocks by their type, anything else by the column's name.
pub open spec fn stat_column_label(column: Seq<char>) -> Seq<char> {
    if column == "money"@ {
        POKE_COIN@
    } else if column == "battle_points"@ {
        BATTLE_POINT@
    } else if column == "tera_unlocked_normal"@ {
        "Normal"@
    } else if column == "tera_unlocked_fighting"@ {
        "Fighting"@
    } else if column == "tera_unlocked_flying"@ {
        "Flying"@
    } else if column == "tera_unlocked_poison"@ {
        "Poison"@
    } else if column == "tera_unlocked_ground"@ {
        "Ground"@
    } else if column == "tera_unlocked_rock"@ {
        "Rock"@
    } else if column == "tera_unlocked_bug"@ {
        "Bug"@
    } else if column == "tera_unlocked_ghost"@ {
        "Ghost"@
    } else if column == "tera_unlocked_steel"@ {
        "Steel"@
    } else if column == "tera_unlocked_fire"@ {
        "Fire"@
    } else if column == "tera_unlocked_water"@ {
        "Water"@
    } else if column == "tera_unlocked_grass"@ {
        "Grass"@
    } else if column == "tera_unlocked_electric"@ {
        "Electric"@
    } else if column == "tera_unlocked_psychic"@ {
        "Psychic"@
    } else if column == "tera_unlocked_ice"@ {
        "Ice"@
    } else if column == "tera_unlocked_dragon"@ {
        "Dragon"@
    } else if column == "tera_unlocked_dark"@ {
        "Dark"@
    } else if column == "tera_unlocked_fairy"@ {
        "Fairy"@
    } else {
        column
    }
}

/// What a changed column is called in the action log.
pub fn stat_column_label_text(column: &str) -> (s: String)
    ensures
        s@ == stat_column_label(column@),
{
    let mut result = String::new();
    if str_eq(column, "money") {
        push_str(&mut result, POKE_COIN);
    } else if str_eq(column, "battle_points") {
        push_str(&mut result, BATTLE_POINT);
    } else if str_eq(column, "tera_unlocked_normal") {
        push_str(&mut result, "Normal");
    } else if str_eq(column, "tera_unlocked_fighting") {
        push_str(&mut result, "Fighting");
    } else if str_eq(column, "tera_unlocked_flying") {
        push_str(&mut result, "Flying");
    } else if str_eq(column, "tera_unlocked_poison") {
        push_str(&mut result, "Poison");
    } else if str_eq(column, "tera_unlocked_ground") {
        push_str(&mut result, "Ground");
    } else if str_eq(column, "tera_unlocked_rock") {
        push_str(&mut result, "Rock");
    } else if str_eq(column, "tera_unlocked_bug") {
        push_str(&mut result, "Bug");
    } else if str_eq(column, "tera_unlocked_ghost") {
        push_str(&mut result, "Ghost");
    } else if str_eq(column, "tera_unlocked_steel") {
        push_str(&mut result, "Steel");
    } else if str_eq(column, "tera_unlocked_fire") {
        push_str(&mut result, "Fire");
    } else if str_eq(column, "tera_unlocked_water") {
        push_str(&mut result, "Water");
    } else if str_eq(column, "tera_unlocked_grass") {
        push_str(&mut result, "Grass");
    } else if str_eq(column, "tera_unlocked_electric") {
        push_str(&mut result, "Electric");
    } else if str_eq(column, "tera_unlocked_psychic") {
        push_str(&mut result, "Psychic");
    } else if str_eq(column, "tera_unlocked_ice") {
        push_str(&mut result, "Ice");
    } else if str_eq(column, "tera_unlocked_dragon") {
        push_str(&mut result, "Dragon");
    } else if str_eq(column, "tera_unlocked_dark") {
        push_str(&mut result, "Dark");
    } else if str_eq(column, "tera_unlocked_fairy") {
        push_str(&mut result, "Fairy");
    } else {
        push_str(&mut result, column);
    }
    result
}

/// The magnitude of an amount.
pub open spec fn abs_int(x: int) -> int {
    if x < 0 { -x } else { x }
}

/// The action-log message of a change of a character's column:
/// `Added 5 <coin> to Name` or `Removed 5 <coin> from Name`.
pub open spec fn stat_change_message(amount: int, label: Seq<char>, name: Seq<char>) -> Seq<char> {
    (if amount > 0 { "Added"@ } else { "Removed"@ }) + seq![' '] + int_text(abs_int(amount)) + seq![' ']
        + label + seq![' '] + (if amount > 0 { "to"@ } else { "from"@ }) + seq![' '] + name
}

/// The action-log message of a change of a character's column.
pub fn build_stat_change_message(amount: i64, column: &str, name: &str) -> (s: String)
    requires
        amount != i64::MIN,
    ensures
        s@ == stat_change_message(amount as int, stat_column_label(column@), name@),
{
    let label = stat_column_label_text(column);
    let mut result = String::new();
    if amount > 0 {
        push_str(&mut result, "Added");
    } else {
        push_str(&mut result, "Removed");
    }
    push_str(&mut result, " ");
    let magnitude: i64 = if amount < 0 { -amount } else { amount };
    push_i64(&mut result, magnitude);
    push_str(&mut result, " ");
    push_str(&mut result, label.as_str());
    push_str(&mut result, " ");
    if amount > 0 {
        push_str(&mut result, "to");
    } else {
        push_str(&mut result, "from");
    }
    push_str(&mut result, " ");
    push_str(&mut result, name);
    proof {
        reveal_strlit(" ");
    }
    assert(result@ =~= stat_change_message(amount as int, stat_column_label(column@), name@));
    result
}

/// An entry of the action log: the label, the message, who triggered it, and where.
pub open spec fn action_log_line(
    action: ActionType,
    message: Seq<char>,
    author_mention: Seq<char>,
    origin_link: Option<Seq<char>>,
) -> Seq<char> {
    action_label(action) + seq![' '] + message + " (triggered by "@ + author_mention + match origin_link {
        Some(link) => " in "@ + link,
        None => Seq::empty(),
    } + seq![')']
}

/// An entry of the action log.
pub fn build_action_log_line(
    action: &ActionType,
    message: &str,
    author_mention: &str,
    origin_link: Option<&str>,
) -> (s: String)
    ensures
        s@ == action_log_line(*action, message@, author_mention@, match origin_link {
            Some(link) => Some(link@),
            None => None,
        }),
{
    let mut result = String::new();
    push_str(&mut result, action.label());
    push_str(&mut result, " ");
    push_str(&mut result, message);
    push_str(&mut result, " (triggered by ");
    push_str(&mut result, author_mention);
    match origin_link {
        Some(link) => {
            push_str(&mut result, " in ");
            push_str(&mut result, link);
        },
        None => {},
    }
    push_str(&mut result, ")");
    proof {
        reveal_strlit(" ");
        reveal_strlit(")");
    }
    assert(result@ =~= action_log_line(*action, message@, author_mention@, match origin_link {
        Some(link) => Some(link@),
        None => None,
    }));
    result
}

/// Whether a character is a word character as the `regex` crate's Unicode class `\w`
/// decides it (letters, marks, decimal digits, connector punctuation and joiners).
pub uninterp spec fn is_word_char(c: char) -> bool;

/// `regex::Regex::is_match` of the class `\w` on a single character. The pattern is a
/// valid constant, so building it does not fail; which characters are word characters is
/// Unicode's table and is left to the name `is_word_char`.
#[verifier::external_body]
fn word_char(c: char) -> (b: bool)
    ensures
        b == is_word_char(c),
{
    regex::Regex::new(r"^\w$").unwrap().is_match(&c.to_string())
}

/// Whether a character may stand in a plain name: a word character, a space or an
/// apostrophe.
pub open spec fn is_name_char(c: char) -> bool {
    c == ' ' || c == '\'' || is_word_char(c)
}

/// Whether a text is made of word characters, spaces and apostrophes only (the empty text
/// is): the rule `^[\w ']*$`.
pub open spec fn is_plain_name(text: Seq<char>) -> bool {
    forall|i: int| 0 <= i < text.len() ==> is_name_char(#[trigger] text[i])
}

/// Whether a text is a plain name.
fn matches_plain_name_pattern(text: &str) -> (r: bool)
    ensures
        r == is_plain_name(text@),
{
    let chars = to_chars(text);
    let mut i: usize = 0;
    while i < chars.len()
        invariant
            chars@ == text@,
            i <= chars.len(),
            forall|k: int| 0 <= k < i ==> is_name_char(#[trigger] text@[k]),
        decreases chars.len() - i,
    {
        let c = chars[i];
        if !(c == ' ' || c == '\'' || word_char(c)) {
            assert(!is_name_char(text@[i as int]));
            return false;
        }
        i = i + 1;
    }
    true
}

/// The message when a query is longer than 30 bytes.
pub const QUERY_TOO_LONG: &'static str = "Query string too long!";

/// The message when a query holds other characters than word characters, spaces and
/// apostrophes.
pub const QUERY_INVALID: &'static str = "Failed to validate input string!";

/// Checks a name typed by a user: at most 30 bytes, and word characters, spaces and
/// apostrophes only.
pub fn validate_user_input(text: &str) -> (r: Result<(), &'static str>)
    ensures
        byte_len(text@) > 30 ==> r == Err::<(), &'static str>(QUERY_TOO_LONG),
        byte_len(text@) <= 30 && is_plain_name(text@) ==> r == Ok::<(), &'static str>(()),
        byte_len(text@) <= 30 && !is_plain_name(text@) ==> r == Err::<(), &'static str>(QUERY_INVALID),
{
    if byte_len_exceeds(text, 30) {
        return Err(QUERY_TOO_LONG);
    }
    if matches_plain_name_pattern(text) {
        Ok(())
    } else {
        Err(QUERY_INVALID)
    }
}

/// The announcement of a level-up: the new level, and the new rank where it rose.
pub open spec fn level_up_text(name: Seq<char>, new_level: int, old_rank: MysteryDungeonRank, new_rank: MysteryDungeonRank) -> Seq<char> {
    "### "@ + PARTY_POPPER@ + " Level Up! "@ + PARTYING_FACE@ + "\n**"@ + name + "** just reached level "@
        + int_text(new_level) + seq!['!'] + if rank_index(new_rank) > rank_index(old_rank) {
        " They are now "@ + rank_name(new_rank) + seq!['!']
    } else {
        Seq::empty()
    }
}

/// The announcement of a level-up.
pub fn level_up_message(name: &str, new_level: i64, old_rank: &MysteryDungeonRank, new_rank: &MysteryDungeonRank) -> (s: String)
    ensures
        s@ == level_up_text(name@, new_level as int, *old_rank, *new_rank),
{
    let mut s = String::new();
    push_str(&mut s, "### ");
    push_str(&mut s, PARTY_POPPER);
    push_str(&mut s, " Level Up! ");
    push_str(&mut s, PARTYING_FACE);
    push_str(&mut s, "\n**");
    push_str(&mut s, name);
    push_str(&mut s, "** just reached level ");
    push_i64(&mut s, new_level);
    push_str(&mut s, "!");
    if !new_rank.at_most(old_rank) {
        push_str(&mut s, " They are now ");
        push_str(&mut s, new_rank.name());
        push_str(&mut s, "!");
    }
    proof {
        reveal_strlit("!");
    }
    assert(s@ =~= level_up_text(name@, new_level as int, *old_rank, *new_rank));
    s
}

/// A character's level: one level per 100 experience points, starting at level 1, as the
/// sheet's `(n / 100)` experience counter counts them.
pub open spec fn level_of_experience(experience: int) -> int {
    experience / 100 + 1
}

/// A character's level for its experience; see `level_of_experience`.
pub fn level_from_experience(experience: i64) -> (level: i64)
    ensures
        level == level_of_experience(experience as int),
{
    let e = experience as i128;
    let q: i128 = if e >= 0 { e / 100 } else { -((-e + 99) / 100) };
    assert(q == experience as int / 100) by (nonlinear_arith)
        requires
            e == experience as int,
            e >= 0 ==> q == e / 100,
            e < 0 ==> q == -((-e + 99) / 100),
    ;
    (q + 1) as i64
}

/// The announcement after a column of a character changed: a level-up message where
/// experience was added and the level rose (levels and ranks before and after the
/// change are given), nothing otherwise.
pub fn level_up_announcement(
    column: &str,
    amount: i64,
    name: &str,
    old_level: i64,
    new_level: i64,
    old_rank: &MysteryDungeonRank,
    new_rank: &MysteryDungeonRank,
) -> (r: Option<String>)
    ensures
        r is Some <==> (amount > 0 && column@ == "experience"@ && new_level > old_level),
        r matches Some(s) ==> s@ == level_up_text(name@, new_level as int, *old_rank, *new_rank),
{
    if amount > 0 && str_eq(column, "experience") && new_level > old_level {
        Some(level_up_message(name, new_level, old_rank, new_rank))
    } else {
        None
    }
}

/// The reply when a value changed between reading and writing it.
pub const STALE_DATA_ERROR: &'static str = "Something went wrong!
You hit an absolute edge case where the value has been updated by someone else while this command has been running.
If this seriously ever happens and/or turns into a problem, let me know. For now... try again? :'D
You can copy the command string either by just pressing the up key inside the text field on pc.";

/// The new value of a changed column: the old value plus the amount.
pub fn changed_value(old_value: i64, amount: i64) -> (r: i64)
    requires
        i64::MIN <= old_value + amount <= i64::MAX,
    ensures
        r == old_value + amount,
{
    old_value + amount
}

/// The reply after pinning or unpinning a message that was pinned (`was_pinned`) or not.
pub fn pin_reply(was_pinned: bool) -> (s: &'static str)
    ensures
        s@ == if was_pinned { "Message has been unpinned!"@ } else { "Message has been pinned!"@ },
{
    if was_pinned {
        "Message has been unpinned!"
    } else {
        "Message has been pinned!"
    }
}

/// The error when pinning or unpinning failed.
pub fn pin_error_message(was_pinned: bool, error: &str) -> (s: String)
    ensures
        s@ == "Failed to "@ + (if was_pinned { "unpin"@ } else { "pin"@ }) + " message.\n```"@ + error@ + "```"@,
{
    let mut s = String::new();
    push_str(&mut s, "Failed to ");
    push_str(&mut s, if was_pinned { "unpin" } else { "pin" });
    push_str(&mut s, " message.\n```");
    push_str(&mut s, error);
    push_str(&mut s, "```");
    s
}

} // verus!
