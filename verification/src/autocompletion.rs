//! Autocompletion: the names that contain what the user typed, those that start with it
//! first and in alphabetical order.

use vstd::prelude::*;

use crate::cache::CharacterCacheItem;
use crate::random::string_views;
use crate::text::{byte_len, byte_len_exceeds, lowercase, push_str, to_chars, to_lowercase};

verus! {

broadcast use vstd::seq_lib::group_to_multiset_ensures;

/// Whether `q` occurs in `s`.
pub open spec fn is_substring(s: Seq<char>, q: Seq<char>) -> bool {
    exists|i: int| 0 <= i && i + q.len() <= s.len() && #[trigger] s.subrange(i, i + q.len()) == q
}

/// A text that occurs in a part occurs in the whole.
pub proof fn lemma_substring_extend(a: Seq<char>, b: Seq<char>, q: Seq<char>)
    requires
        is_substring(b, q),
    ensures
        is_substring(a + b, q),
        is_substring(b + a, q),
{
    let k = choose|k: int| 0 <= k && k + q.len() <= b.len() && #[trigger] b.subrange(k, k + q.len()) == q;
    assert((a + b).subrange(k + a.len(), k + a.len() + q.len()) =~= b.subrange(k, k + q.len()));
    assert((b + a).subrange(k, k + q.len()) =~= b.subrange(k, k + q.len()));
}

/// A text occurs in any text that starts with it.
pub proof fn lemma_prefix_substring(s: Seq<char>, q: Seq<char>)
    requires
        q.len() <= s.len(),
        s.subrange(0, q.len() as int) == q,
    ensures
        is_substring(s, q),
{
    assert(s.subrange(0, 0 + q.len() as int) == q);
}

/// Whether `s` starts with `q`.
pub open spec fn has_prefix(s: Seq<char>, q: Seq<char>) -> bool {
    q.len() <= s.len() && s.subrange(0, q.len() as int) == q
}

/// The order of texts: character by character, a text before its extensions. It is the
/// order of `String`'s `cmp`, since UTF-8 keeps the order of code points.
pub open spec fn lex_le(a: Seq<char>, b: Seq<char>) -> bool
    decreases a.len(),
{
    if a.len() == 0 {
        true
    } else if b.len() == 0 {
        false
    } else if (a[0] as u32) < (b[0] as u32) {
        true
    } else if (a[0] as u32) > (b[0] as u32) {
        false
    } else {
        lex_le(a.drop_first(), b.drop_first())
    }
}

pub proof fn lemma_lex_total(a: Seq<char>, b: Seq<char>)
    ensures
        lex_le(a, b) || lex_le(b, a),
    decreases a.len(),
{
    if a.len() > 0 && b.len() > 0 && (a[0] as u32) == (b[0] as u32) {
        lemma_lex_total(a.drop_first(), b.drop_first());
    }
}

pub proof fn lemma_lex_transitive(a: Seq<char>, b: Seq<char>, c: Seq<char>)
    requires
        lex_le(a, b),
        lex_le(b, c),
    ensures
        lex_le(a, c),
    decreases a.len(),
{
    if a.len() > 0 && b.len() > 0 && c.len() > 0 && (a[0] as u32) == (b[0] as u32) && (b[0] as u32) == (c[0] as u32) {
        lemma_lex_transitive(a.drop_first(), b.drop_first(), c.drop_first());
    }
}

/// Whether the texts are in order.
pub open spec fn is_sorted(s: Seq<Seq<char>>) -> bool {
    forall|i: int, j: int| 0 <= i < j < s.len() ==> lex_le(#[trigger] s[i], #[trigger] s[j])
}

/// The names whose lowercase form (given in `lowered`, position by position) starts with
/// the query, in their order.
pub open spec fn prefix_matches_in(names: Seq<Seq<char>>, lowered: Seq<Seq<char>>, q: Seq<char>) -> Seq<Seq<char>>
    decreases names.len(),
{
    if names.len() == 0 {
        Seq::empty()
    } else {
        prefix_matches_in(names.drop_last(), lowered.subrange(0, names.len() - 1), q) + if has_prefix(
            lowered[names.len() - 1],
            q,
        ) {
            seq![names.last()]
        } else {
            Seq::empty()
        }
    }
}

/// The names whose lowercase form (given in `lowered`) contains the query but does not
/// start with it, in their order.
pub open spec fn inner_matches_in(names: Seq<Seq<char>>, lowered: Seq<Seq<char>>, q: Seq<char>) -> Seq<Seq<char>>
    decreases names.len(),
{
    if names.len() == 0 {
        Seq::empty()
    } else {
        inner_matches_in(names.drop_last(), lowered.subrange(0, names.len() - 1), q) + if is_substring(
            lowered[names.len() - 1],
            q,
        ) && !has_prefix(lowered[names.len() - 1], q) {
            seq![names.last()]
        } else {
            Seq::empty()
        }
    }
}

/// The lowercase forms of the names.
pub open spec fn lowered_names(names: Seq<Seq<char>>) -> Seq<Seq<char>> {
    names.map_values(|n: Seq<char>| lowercase(n))
}

/// The names whose lowercase form starts with the query, in their order.
pub open spec fn prefix_matches(names: Seq<Seq<char>>, q: Seq<char>) -> Seq<Seq<char>> {
    prefix_matches_in(names, lowered_names(names), q)
}

/// The names whose lowercase form contains the query but does not start with it, in
/// their order.
pub open spec fn inner_matches(names: Seq<Seq<char>>, q: Seq<char>) -> Seq<Seq<char>> {
    inner_matches_in(names, lowered_names(names), q)
}

fn chars_have_prefix(s: &Vec<char>, q: &Vec<char>, start: usize) -> (b: bool)
    requires
        start <= s.len(),
    ensures
        b == (start + q.len() <= s.len() && s@.subrange(start as int, start + q.len()) == q@),
{
    if q.len() > s.len() - start {
        return false;
    }
    let mut i: usize = 0;
    while i < q.len()
        invariant
            start + q.len() <= s.len(),
            i <= q.len(),
            forall|k: int| 0 <= k < i ==> s@[start + k] == q@[k],
        decreases q.len() - i,
    {
        if s[start + i] != q[i] {
            assert(s@.subrange(start as int, start + q.len())[i as int] != q@[i as int]);
            return false;
        }
        i = i + 1;
    }
    assert(s@.subrange(start as int, start + q.len()) =~= q@);
    true
}

pub(crate) fn chars_contain(s: &Vec<char>, q: &Vec<char>) -> (b: bool)
    ensures
        b == is_substring(s@, q@),
{
    if q.len() == 0 {
        assert(s@.subrange(0, 0 + q@.len() as int) =~= q@);
        return true;
    }
    if q.len() > s.len() {
        return false;
    }
    let mut i: usize = 0;
    while i <= s.len() - q.len()
        invariant
            1 <= q.len() <= s.len(),
            i <= s.len() - q.len() + 1,
            forall|k: int| 0 <= k < i ==> #[trigger] s@.subrange(k, k + q.len()) != q@,
        decreases s.len() - q.len() + 1 - i,
    {
        if chars_have_prefix(s, q, i) {
            assert(s@.subrange(i as int, i + q.len()) == q@);
            return true;
        }
        i = i + 1;
    }
    false
}

/// Whether `a` comes before or equals `b` in the order of texts.
fn chars_lex_le(a: &Vec<char>, b: &Vec<char>) -> (r: bool)
    ensures
        r == lex_le(a@, b@),
{
    let mut i: usize = 0;
    assert(a@.skip(0) =~= a@);
    assert(b@.skip(0) =~= b@);
    while i < a.len()
        invariant
            i <= a.len(),
            i <= b.len(),
            lex_le(a@, b@) == lex_le(a@.skip(i as int), b@.skip(i as int)),
        decreases a.len() - i,
    {
        if i == b.len() {
            return false;
        }
        if (a[i] as u32) < (b[i] as u32) {
            return true;
        }
        if (a[i] as u32) > (b[i] as u32) {
            return false;
        }
        assert(a@.skip(i as int).drop_first() =~= a@.skip(i + 1));
        assert(b@.skip(i as int).drop_first() =~= b@.skip(i + 1));
        i = i + 1;
    }
    true
}

/// Inserts a text into a sorted list, after the texts that come before or equal it.
fn insert_sorted(v: &mut Vec<String>, x: String)
    requires
        is_sorted(string_views(old(v)@)),
    ensures
        is_sorted(string_views(final(v)@)),
        final(v)@.len() == old(v)@.len() + 1,
        string_views(final(v)@).to_multiset() == string_views(old(v)@).to_multiset().insert(x@),
{
    let xc = to_chars(x.as_str());
    let mut j: usize = 0;
    while j < v.len()
        invariant
            j <= v.len(),
            xc@ == x@,
            is_sorted(string_views(v@)),
            forall|k: int| 0 <= k < j ==> lex_le(#[trigger] string_views(v@)[k], x@),
        ensures
            j <= v.len(),
            is_sorted(string_views(v@)),
            forall|k: int| 0 <= k < j ==> lex_le(#[trigger] string_views(v@)[k], x@),
            j == v.len() || !lex_le(string_views(v@)[j as int], x@),
        decreases v.len() - j,
    {
        let vc = to_chars(v[j].as_str());
        if !chars_lex_le(&vc, &xc) {
            break;
        }
        j = j + 1;
    }
    let ghost old_views = string_views(v@);
    proof {
        assert forall|k: int| j <= k < old_views.len() implies lex_le(x@, #[trigger] old_views[k]) by {
            lemma_lex_total(old_views[j as int], x@);
            if k > j {
                lemma_lex_transitive(x@, old_views[j as int], old_views[k]);
            }
        }
    }
    v.insert(j, x);
    proof {
        let nv = string_views(v@);
        assert(nv =~= old_views.insert(j as int, x@));
        vstd::seq_lib::to_multiset_insert(old_views, j as int, x@);
        assert forall|a: int, b: int| 0 <= a < b < nv.len() implies lex_le(#[trigger] nv[a], #[trigger] nv[b]) by {
            if b < j {
            } else if a < j && b == j {
            } else if a < j && b > j {
                lemma_lex_transitive(nv[a], x@, nv[b]);
            } else if a == j {
            } else {
                assert(nv[a] == old_views[a - 1]);
                assert(nv[b] == old_views[b - 1]);
            }
        }
    }
}

/// Whether `r` is the completion of a lowercase query among names whose lowercase forms
/// are `lowered`: first the names whose lowercase form starts with the query, in
/// alphabetical order, then those whose lowercase form contains it elsewhere, in their
/// given order.
pub open spec fn is_sorted_completion(q: Seq<char>, names: Seq<Seq<char>>, lowered: Seq<Seq<char>>, r: Seq<Seq<char>>) -> bool {
    let first = prefix_matches_in(names, lowered, q);
    let rest = inner_matches_in(names, lowered, q);
    &&& r.len() == first.len() + rest.len()
    &&& is_sorted(r.subrange(0, first.len() as int))
    &&& r.subrange(0, first.len() as int).to_multiset() == first.to_multiset()
    &&& r.subrange(first.len() as int, r.len() as int) == rest
}

/// Whether `r` is the completion of what the user typed among the names: nothing where
/// the input is shorter than `minimum` bytes; else the names that contain it, case
/// ignored, first those that start with it, in alphabetical order, then the others in
/// their given order.
pub open spec fn is_completion(partial: Seq<char>, names: Seq<Seq<char>>, minimum: nat, r: Seq<Seq<char>>) -> bool {
    &&& byte_len(partial) < minimum ==> r.len() == 0
    &&& byte_len(partial) >= minimum ==> is_sorted_completion(lowercase(partial), names, lowered_names(names), r)
}

/// The completion of a lowercase query among names, given their lowercase forms
/// position by position.
pub fn complete_lowered(query: &str, commands: &Vec<String>, lowered: &Vec<String>) -> (r: Vec<String>)
    requires
        lowered.len() == commands.len(),
    ensures
        is_sorted_completion(query@, string_views(commands@), string_views(lowered@), string_views(r@)),
{
    let qc = to_chars(query);
    let ghost q = query@;
    let ghost names = string_views(commands@);
    let ghost lows = string_views(lowered@);
    let mut first: Vec<String> = Vec::new();
    let mut rest: Vec<String> = Vec::new();
    let mut i: usize = 0;
    assert(prefix_matches_in(names.subrange(0, 0), lows.subrange(0, 0), q) =~= Seq::<Seq<char>>::empty());
    assert(inner_matches_in(names.subrange(0, 0), lows.subrange(0, 0), q) =~= Seq::<Seq<char>>::empty());
    assert(string_views(first@) =~= Seq::<Seq<char>>::empty());
    assert(string_views(rest@) =~= Seq::<Seq<char>>::empty());
    while i < commands.len()
        invariant
            i <= commands.len(),
            lowered.len() == commands.len(),
            qc@ == q,
            names == string_views(commands@),
            lows == string_views(lowered@),
            is_sorted(string_views(first@)),
            string_views(first@).to_multiset() == prefix_matches_in(names.subrange(0, i as int), lows.subrange(0, i as int), q).to_multiset(),
            string_views(first@).len() == prefix_matches_in(names.subrange(0, i as int), lows.subrange(0, i as int), q).len(),
            string_views(rest@) == inner_matches_in(names.subrange(0, i as int), lows.subrange(0, i as int), q),
        decreases commands.len() - i,
    {
        let name = &commands[i];
        let lc = to_chars(lowered[i].as_str());
        let ghost next = names.subrange(0, i + 1);
        let ghost next_low = lows.subrange(0, i + 1);
        assert(next.drop_last() =~= names.subrange(0, i as int));
        assert(next_low.subrange(0, i as int) =~= lows.subrange(0, i as int));
        assert(next.last() == name@);
        assert(next_low[i as int] == lowered@[i as int]@);
        let ghost pm = prefix_matches_in(names.subrange(0, i as int), lows.subrange(0, i as int), q);
        let ghost im = inner_matches_in(names.subrange(0, i as int), lows.subrange(0, i as int), q);
        let contained = chars_contain(&lc, &qc);
        let starts = chars_have_prefix(&lc, &qc, 0);
        proof {
            if starts {
                assert(lc@.subrange(0, 0 + qc@.len() as int) == q);
            }
            assert(starts == has_prefix(next_low[i as int], q));
        }
        if contained {
            let mut copy = String::new();
            push_str(&mut copy, name.as_str());
            if starts {
                insert_sorted(&mut first, copy);
                proof {
                    assert(prefix_matches_in(next, next_low, q) =~= pm.push(name@));
                    assert(inner_matches_in(next, next_low, q) =~= im);
                    assert(pm.push(name@).to_multiset() =~= pm.to_multiset().insert(name@));
                }
            } else {
                let ghost before = string_views(rest@);
                rest.push(copy);
                assert(string_views(rest@) =~= before.push(name@));
                assert(prefix_matches_in(next, next_low, q) =~= pm);
                assert(inner_matches_in(next, next_low, q) =~= im.push(name@));
            }
        } else {
            assert(prefix_matches_in(next, next_low, q) =~= pm);
            assert(inner_matches_in(next, next_low, q) =~= im);
        }
        i = i + 1;
    }
    assert(names.subrange(0, i as int) =~= names);
    assert(lows.subrange(0, i as int) =~= lows);
    let ghost first_views = string_views(first@);
    let mut result = first;
    let n = result.len();
    let mut k: usize = 0;
    while k < rest.len()
        invariant
            k <= rest.len(),
            n == first_views.len(),
            string_views(result@) == first_views + string_views(rest@).subrange(0, k as int),
        decreases rest.len() - k,
    {
        let mut copy = String::new();
        push_str(&mut copy, rest[k].as_str());
        let ghost before = string_views(result@);
        result.push(copy);
        assert(string_views(result@) =~= before.push(rest@[k as int]@));
        assert(string_views(result@) =~= first_views + string_views(rest@).subrange(0, k + 1));
        k = k + 1;
    }
    assert(string_views(rest@).subrange(0, k as int) =~= string_views(rest@));
    assert(string_views(result@).subrange(0, n as int) =~= first_views);
    assert(string_views(result@).subrange(n as int, result.len() as int) =~= string_views(rest@));
    result
}

/// The names that contain what the user typed, case ignored: none where the input is
/// shorter than `minimum_query_length` bytes; else first those that start with it, in
/// alphabetical order, then the others in their given order.
pub fn filter_and_sort(partial: &str, commands: &Vec<String>, minimum_query_length: usize) -> (r: Vec<String>)
    ensures
        is_completion(partial@, string_views(commands@), minimum_query_length as nat, string_views(r@)),
{
    if minimum_query_length > 0 && !byte_len_exceeds(partial, minimum_query_length - 1) {
        return Vec::new();
    }
    let query = to_lowercase(partial);
    let mut lowered: Vec<String> = Vec::new();
    let mut i: usize = 0;
    while i < commands.len()
        invariant
            i <= commands.len(),
            lowered.len() == i,
            forall|k: int| 0 <= k < i ==> (#[trigger] lowered@[k])@ == lowercase(commands@[k]@),
        decreases commands.len() - i,
    {
        lowered.push(to_lowercase(commands[i].as_str()));
        i = i + 1;
    }
    assert(string_views(lowered@) =~= lowered_names(string_views(commands@)));
    complete_lowered(query.as_str(), commands, &lowered)
}

/// The names of the moves that complete what the user typed (at least two bytes).
pub fn autocomplete_move(move_names: &Vec<String>, partial: &str) -> (r: Vec<String>)
    ensures
        is_completion(partial@, string_views(move_names@), 2, string_views(r@)),
{
    filter_and_sort(partial, move_names, 2)
}

/// The names of the abilities that complete what the user typed (at least two bytes).
pub fn autocomplete_ability(ability_names: &Vec<String>, partial: &str) -> (r: Vec<String>)
    ensures
        is_completion(partial@, string_views(ability_names@), 2, string_views(r@)),
{
    filter_and_sort(partial, ability_names, 2)
}

/// The names of the species that complete what the user typed (at least two bytes).
pub fn autocomplete_pokemon(pokemon_names: &Vec<String>, partial: &str) -> (r: Vec<String>)
    ensures
        is_completion(partial@, string_views(pokemon_names@), 2, string_views(r@)),
{
    filter_and_sort(partial, pokemon_names, 2)
}

/// The names of the items that complete what the user typed (at least two bytes).
pub fn autocomplete_item(item_names: &Vec<String>, partial: &str) -> (r: Vec<String>)
    ensures
        is_completion(partial@, string_views(item_names@), 2, string_views(r@)),
{
    filter_and_sort(partial, item_names, 2)
}

/// The names of the weathers that complete what the user typed.
pub fn autocomplete_weather(weather_names: &Vec<String>, partial: &str) -> (r: Vec<String>)
    ensures
        is_completion(partial@, string_views(weather_names@), 0, string_views(r@)),
{
    filter_and_sort(partial, weather_names, 0)
}

/// The names of the status effects that complete what the user typed.
pub fn autocomplete_status_effect(status_effect_names: &Vec<String>, partial: &str) -> (r: Vec<String>)
    ensures
        is_completion(partial@, string_views(status_effect_names@), 0, string_views(r@)),
{
    filter_and_sort(partial, status_effect_names, 0)
}

/// The names of the rules that complete what the user typed.
pub fn autocomplete_rule(rule_names: &Vec<String>, partial: &str) -> (r: Vec<String>)
    ensures
        is_completion(partial@, string_views(rule_names@), 0, string_views(r@)),
{
    filter_and_sort(partial, rule_names, 0)
}

/// The names of the natures that complete what the user typed.
pub fn autocomplete_nature(nature_names: &Vec<String>, partial: &str) -> (r: Vec<String>)
    ensures
        is_completion(partial@, string_views(nature_names@), 0, string_views(r@)),
{
    filter_and_sort(partial, nature_names, 0)
}

/// The names of the potions that complete what the user typed.
pub fn autocomplete_potion(potion_names: &Vec<String>, partial: &str) -> (r: Vec<String>)
    ensures
        is_completion(partial@, string_views(potion_names@), 0, string_views(r@)),
{
    filter_and_sort(partial, potion_names, 0)
}

/// The names of a guild's shops that complete what the user typed.
pub fn autocomplete_shop_name(shop_names: &Vec<String>, partial: &str) -> (r: Vec<String>)
    ensures
        is_completion(partial@, string_views(shop_names@), 0, string_views(r@)),
{
    filter_and_sort(partial, shop_names, 0)
}

/// The names of a guild's shops that complete what the user typed; every shop of the
/// guild is offered, as for `autocomplete_shop_name`.
pub fn autocomplete_owned_shop_name(shop_names: &Vec<String>, partial: &str) -> (r: Vec<String>)
    ensures
        is_completion(partial@, string_views(shop_names@), 0, string_views(r@)),
{
    filter_and_sort(partial, shop_names, 0)
}

/// The autocomplete names of the cached characters of a guild, of one owner where one is
/// given, in their order.
pub open spec fn candidate_names(chars: Seq<CharacterCacheItem>, guild_id: u64, owner: Option<u64>) -> Seq<Seq<char>>
    decreases chars.len(),
{
    if chars.len() == 0 {
        Seq::empty()
    } else {
        let c = chars.last();
        candidate_names(chars.drop_last(), guild_id, owner) + if c.guild_id == guild_id && match owner {
            Some(u) => c.user_id == u,
            None => true,
        } {
            seq![c.autocomplete_name()]
        } else {
            Seq::empty()
        }
    }
}

/// The autocomplete names of the cached characters of a guild, of one owner where one is
/// given.
pub fn character_name_candidates(characters: &Vec<CharacterCacheItem>, guild_id: u64, owner: Option<u64>) -> (r: Vec<String>)
    ensures
        string_views(r@) == candidate_names(characters@, guild_id, owner),
{
    let mut r: Vec<String> = Vec::new();
    let mut i: usize = 0;
    while i < characters.len()
        invariant
            i <= characters.len(),
            string_views(r@) == candidate_names(characters@.subrange(0, i as int), guild_id, owner),
        decreases characters.len() - i,
    {
        let c = &characters[i];
        let ghost before = string_views(r@);
        assert(characters@.subrange(0, i + 1).drop_last() =~= characters@.subrange(0, i as int));
        let owned = match owner {
            Some(u) => c.user_id == u,
            None => true,
        };
        if c.guild_id == guild_id && owned {
            let mut name = String::new();
            push_str(&mut name, c.get_autocomplete_name().as_str());
            r.push(name);
            assert(string_views(r@) =~= before.push(c.autocomplete_name()));
        }
        i = i + 1;
    }
    assert(characters@.subrange(0, i as int) =~= characters@);
    r
}

/// The autocomplete names of a guild's characters that complete what the user typed.
pub fn autocomplete_character_name(characters: &Vec<CharacterCacheItem>, guild_id: u64, partial: &str) -> (r: Vec<String>)
    ensures
        is_completion(partial@, candidate_names(characters@, guild_id, None), 0, string_views(r@)),
{
    let names = character_name_candidates(characters, guild_id, None);
    filter_and_sort(partial, &names, 0)
}

/// The autocomplete names of a user's characters in a guild that complete what the user
/// typed.
pub fn autocomplete_owned_character_name(
    characters: &Vec<CharacterCacheItem>,
    guild_id: u64,
    user_id: u64,
    partial: &str,
) -> (r: Vec<String>)
    ensures
        is_completion(partial@, candidate_names(characters@, guild_id, Some(user_id)), 0, string_views(r@)),
{
    let names = character_name_candidates(characters, guild_id, Some(user_id));
    filter_and_sort(partial, &names, 0)
}

} // verus!
