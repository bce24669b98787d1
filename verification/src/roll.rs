//! Dice queries such as `2d6+3`, and the cursed dice they roll.

use crate::autocompletion::{is_substring, lemma_prefix_substring, lemma_substring_extend};
use crate::errors::ParseError;
use crate::random::random_u8_inclusive;
use crate::text::{
    lemma_digits_exclude, lemma_nat_digits, lemma_parse_u8_digits, lemma_split_on_append,
    lemma_split_on_nonempty, lemma_split_on_without, is_digit, nat_digits, parse_u8, parse_u8_spec, push_str, push_u64, split_chars,
    split_on, to_chars, join, joined, push_joined, views,
};
use vstd::prelude::*;

verus! {

/// A die showing this value is a critical hit.
pub const CRIT: u8 = 6;

/// A query for rolling dice: how many dice, how many sides, what to add.
pub struct ParsedRollQuery {
    amount: u8,
    sides: u8,
    flat_addition: u8,
}

/// The value of `x` kept within `[low, high]` (`Ord::clamp`).
pub open spec fn clamp(x: u8, low: u8, high: u8) -> u8 {
    if x < low {
        low
    } else if x > high {
        high
    } else {
        x
    }
}

/// The value of an option, or a default.
pub open spec fn or_default(x: Option<u8>, default: u8) -> u8 {
    match x {
        Some(v) => v,
        None => default,
    }
}

/// The query that `ParsedRollQuery::new` builds: one die and six sides by default,
/// between 1 and 100 dice, between 2 and 100 sides.
pub open spec fn new_query_spec(dice: Option<u8>, sides: Option<u8>, flat_addition: Option<u8>) -> (
    u8,
    u8,
    u8,
) {
    (clamp(or_default(dice, 1), 1, 100), clamp(or_default(sides, 6), 2, 100), or_default(flat_addition, 0))
}

impl View for ParsedRollQuery {
    /// (dice, sides, flat addition)
    type V = (u8, u8, u8);

    closed spec fn view(&self) -> (u8, u8, u8) {
        (self.amount, self.sides, self.flat_addition)
    }
}

impl ParsedRollQuery {
    #[verifier::type_invariant]
    spec fn well_formed(self) -> bool {
        1 <= self.amount <= 100 && 2 <= self.sides <= 100
    }

    pub fn new(dice: Option<u8>, sides: Option<u8>, flat_addition: Option<u8>) -> (q: Self)
        ensures
            q@ == new_query_spec(dice, sides, flat_addition),
    {
        let dice = match dice {
            Some(v) => v,
            None => 1,
        };
        let sides = match sides {
            Some(v) => v,
            None => 6,
        };
        let flat_addition = match flat_addition {
            Some(v) => v,
            None => 0,
        };
        ParsedRollQuery {
            amount: if dice < 1 { 1 } else if dice > 100 { 100 } else { dice },
            sides: if sides < 2 { 2 } else if sides > 100 { 100 } else { sides },
            flat_addition,
        }
    }

    pub fn amount(&self) -> (r: u8)
        ensures
            r == self@.0,
    {
        self.amount
    }

    pub fn sides(&self) -> (r: u8)
        ensures
            r == self@.1,
    {
        self.sides
    }

    pub fn flat_addition(&self) -> (r: u8)
        ensures
            r == self@.2,
    {
        self.flat_addition
    }

    /// The id of the "Roll again!" button: `roll-dice_` and the query.
    pub fn as_button_callback_query_string(&self) -> (s: String)
        ensures
            s@ == "roll-dice_"@ + query_text(self@.0, self@.1, self@.2),
    {
        let mut s = String::new();
        push_str(&mut s, "roll-dice_");
        push_u64(&mut s, self.amount as u64);
        push_str(&mut s, "d");
        push_u64(&mut s, self.sides as u64);
        push_str(&mut s, "+");
        push_u64(&mut s, self.flat_addition as u64);
        s
    }
}

/// A query written as `XdY+Z`.
pub open spec fn query_text(amount: u8, sides: u8, flat_addition: u8) -> Seq<char> {
    nat_digits(amount as nat) + "d"@ + nat_digits(sides as nat) + "+"@ + nat_digits(flat_addition as nat)
}

/// The flat addition after the `+` of a query, and the part before it. `None`:
/// the query is refused. A query that starts with `+` is always refused.
pub open spec fn split_flat_addition(q: Seq<char>) -> Option<(Option<u8>, Seq<char>)> {
    let plus = split_on(q, '+');
    if q.contains('+') {
        if q.len() > 0 && q[0] == '+' {
            if plus.len() > 1 {
                None
            } else {
                match parse_u8_spec(plus[0]) {
                    Some(v) => Some((Some(v), Seq::<char>::empty())),
                    None => None,
                }
            }
        } else if plus.len() != 2 {
            None
        } else {
            match parse_u8_spec(plus[1]) {
                Some(v) => Some((Some(v), plus[0])),
                None => None,
            }
        }
    } else {
        Some((None, q))
    }
}

/// What `parse_query` makes of a query: `XdY+Z`, `XdY`, `X+Z` or `X` (then with six
/// sides), each number as `u8::from_str` reads it, then bounded as `ParsedRollQuery::new`
/// bounds it. `None`: "Unable to parse query.".
pub open spec fn parse_query_spec(q: Seq<char>) -> Option<(u8, u8, u8)> {
    match split_flat_addition(q) {
        None => None,
        Some((flat, rest)) => {
            let d = split_on(rest, 'd');
            if d.len() != 2 {
                match parse_u8_spec(rest) {
                    Some(amount) => Some(new_query_spec(Some(amount), Some(6), flat)),
                    None => None,
                }
            } else {
                match (parse_u8_spec(d[0]), parse_u8_spec(d[1])) {
                    (Some(amount), Some(sides)) => Some(new_query_spec(Some(amount), Some(sides), flat)),
                    _ => None,
                }
            }
        }
    }
}

/// The error text of a query that cannot be parsed.
pub open spec fn parse_error_text() -> Seq<char> {
    "Unable to parse query."@
}

proof fn lemma_split_contains(s: Seq<char>, c: char)
    ensures
        split_on(s, c).len() > 1 <==> s.contains(c),
    decreases s.len(),
{
    if s.len() > 0 {
        lemma_split_contains(s.drop_last(), c);
        lemma_split_on_nonempty(s.drop_last(), c);
        if s.drop_last().contains(c) {
            let i = choose|i: int| 0 <= i < s.drop_last().len() && s.drop_last()[i] == c;
            assert(s[i] == c);
        }
        if s.contains(c) && s.last() != c {
            let i = choose|i: int| 0 <= i < s.len() && s[i] == c;
            assert(s.drop_last()[i] == c);
        }
        if s.last() == c {
            assert(s[s.len() - 1] == c);
        }
    }
}

/// Reads a dice query such as `2d6+3`; see `parse_query_spec`.
pub fn parse_query(query: &str) -> (r: Result<ParsedRollQuery, ParseError>)
    ensures
        match r {
            Ok(q) => parse_query_spec(query@) == Some(q@),
            Err(e) => parse_query_spec(query@) is None && e.message@ == parse_error_text(),
        },
{
    let chars = to_chars(query);
    let plus = split_chars(&chars, '+');
    proof {
        lemma_split_contains(query@, '+');
    }
    let flat_addition: Option<u8>;
    let remaining: Vec<char>;
    if plus.len() > 1 {
        if chars.len() > 0 && chars[0] == '+' {
            if plus.len() > 1 {
                return Err(ParseError::new("Unable to parse query."));
            }
            match parse_u8(plus[0].as_slice()) {
                Some(v) => flat_addition = Some(v),
                None => return Err(ParseError::new("Unable to parse query.")),
            }
            remaining = Vec::new();
        } else {
            if plus.len() != 2 {
                return Err(ParseError::new("Unable to parse query."));
            }
            match parse_u8(plus[1].as_slice()) {
                Some(v) => flat_addition = Some(v),
                None => return Err(ParseError::new("Unable to parse query.")),
            }
            remaining = plus[0].clone();
        }
    } else {
        flat_addition = None;
        remaining = chars;
    }
    proof {
        assert(split_flat_addition(query@) == Some((flat_addition, remaining@)));
    }

    let split = split_chars(&remaining, 'd');
    if split.len() != 2 {
        let amount = match parse_u8(remaining.as_slice()) {
            Some(value) => Some(value),
            None => return Err(ParseError::new("Unable to parse query.")),
        };
        return Ok(ParsedRollQuery::new(amount, Some(6), flat_addition));
    }

    let amount = match parse_u8(split[0].as_slice()) {
        Some(value) => Some(value),
        None => return Err(ParseError::new("Unable to parse query.")),
    };

    let sides = match parse_u8(split[1].as_slice()) {
        Some(value) => Some(value),
        None => return Err(ParseError::new("Unable to parse query.")),
    };

    Ok(ParsedRollQuery::new(amount, sides, flat_addition))
}

} // verus!

verus! {

/// A query that the bot writes (`XdY+Z`, as in the id of its "Roll again!" button) is
/// read back as the same query.
pub proof fn law_query_text_round_trip(amount: u8, sides: u8, flat_addition: u8)
    requires
        1 <= amount <= 100,
        2 <= sides <= 100,
    ensures
        parse_query_spec(query_text(amount, sides, flat_addition)) == Some((amount, sides, flat_addition)),
{
    let a = nat_digits(amount as nat);
    let s = nat_digits(sides as nat);
    let f = nat_digits(flat_addition as nat);
    reveal_strlit("d");
    reveal_strlit("+");
    lemma_nat_digits(amount as nat);
    lemma_nat_digits(sides as nat);
    lemma_nat_digits(flat_addition as nat);
    lemma_parse_u8_digits(amount);
    lemma_parse_u8_digits(sides);
    lemma_parse_u8_digits(flat_addition);
    lemma_digits_exclude(a, '+');
    lemma_digits_exclude(s, '+');
    lemma_digits_exclude(f, '+');
    lemma_digits_exclude(a, 'd');
    lemma_digits_exclude(s, 'd');
    let q = query_text(amount, sides, flat_addition);
    let front = a.push('d') + s;
    assert(q == front.push('+') + f);
    assert(!front.contains('+')) by {
        if front.contains('+') {
            let i = choose|i: int| 0 <= i < front.len() && front[i] == '+';
            if i < a.len() {
                assert(a[i] == '+');
            } else if i > a.len() {
                assert(s[i - a.len() - 1] == '+');
            }
        }
    }
    lemma_split_on_without(front, '+');
    lemma_split_on_append(front, '+', f);
    assert(split_on(q, '+') == seq![front, f]);
    assert(q[front.len() as int] == '+');
    assert(q.contains('+'));
    assert(q[0] == a[0]);
    assert(is_digit(a[0]));
    assert(split_flat_addition(q) == Some((Some(flat_addition), front)));
    lemma_split_on_without(a, 'd');
    lemma_split_on_append(a, 'd', s);
    assert(split_on(front, 'd') == seq![a, s]);
}

} // verus!

verus! {

/// The curses a roll suffers, in the order they are applied, for a draw of
/// `curse_count` curses out of five (none with Super Luck). The first two curses
/// drawn act on values that do not exist yet and are never listed.
pub open spec fn applied_curses(amount: u8, super_luck: bool, curse_count: u8) -> Seq<Seq<char>> {
    if super_luck {
        Seq::<Seq<char>>::empty()
    } else {
        (if curse_count >= 3 { seq!["Skewed Rolls to Low"@] } else { Seq::<Seq<char>>::empty() })
            + (if curse_count >= 4 { seq!["Increased Success Threshold"@] } else { Seq::<Seq<char>>::empty() })
            + (if curse_count >= 5 && amount > 1 { seq!["Reduced Dice Count"@] } else { Seq::<Seq<char>>::empty() })
    }
}

/// The number of dice shown after the curses: one less under "Reduced Dice Count".
pub open spec fn amount_after_curses(amount: u8, super_luck: bool, curse_count: u8) -> u8 {
    if !super_luck && curse_count >= 5 && amount > 1 { (amount - 1) as u8 } else { amount }
}

/// A die counts as a success from this value on: 5 under "Increased Success Threshold", else 4.
pub open spec fn success_threshold(super_luck: bool, curse_count: u8) -> u8 {
    if !super_luck && curse_count >= 4 { 5 } else { 4 }
}

/// The largest value a die can show: 3 under "Skewed Rolls to Low", else the number of sides.
pub open spec fn highest_face(sides: u8, super_luck: bool, curse_count: u8) -> u8 {
    if !super_luck && curse_count >= 3 { 3 } else { sides }
}

/// How many dice show at least `t`.
pub open spec fn count_at_least(dice: Seq<u8>, t: u8) -> nat
    decreases dice.len(),
{
    if dice.len() == 0 {
        0
    } else {
        count_at_least(dice.drop_last(), t) + if dice.last() >= t { 1nat } else { 0nat }
    }
}

/// How many dice show exactly `v`.
pub open spec fn count_equal(dice: Seq<u8>, v: u8) -> nat
    decreases dice.len(),
{
    if dice.len() == 0 {
        0
    } else {
        count_equal(dice.drop_last(), v) + if dice.last() == v { 1nat } else { 0nat }
    }
}

/// The dice with the first one below `t` raised to `t`.
pub open spec fn raise_first_below(dice: Seq<u8>, t: u8) -> Seq<u8>
    decreases dice.len(),
{
    if dice.len() == 0 {
        dice
    } else if dice[0] < t {
        dice.update(0, t)
    } else {
        seq![dice[0]] + raise_first_below(dice.drop_first(), t)
    }
}

/// Super Luck turns a roll without success into one success.
pub open spec fn lucky(super_luck: bool, dice: Seq<u8>, t: u8) -> bool {
    super_luck && count_at_least(dice, t) == 0
}

/// The dice as shown: with Super Luck and no success, the first die below the threshold is raised to it.
pub open spec fn shown_dice(super_luck: bool, dice: Seq<u8>, t: u8) -> Seq<u8> {
    if lucky(super_luck, dice, t) { raise_first_below(dice, t) } else { dice }
}

/// The number of successes shown.
pub open spec fn shown_successes(super_luck: bool, dice: Seq<u8>, t: u8) -> nat {
    if lucky(super_luck, dice, t) { 1 } else { count_at_least(dice, t) }
}

/// A die as shown: a six underlined and bold, a success bold, anything else plain.
pub open spec fn die_text(x: u8, t: u8) -> Seq<char> {
    if x == CRIT {
        "**__"@ + nat_digits(x as nat) + "__**"@
    } else if x >= t {
        "**"@ + nat_digits(x as nat) + "**"@
    } else {
        nat_digits(x as nat)
    }
}

/// The texts of the dice.
pub open spec fn dice_texts(dice: Seq<u8>, t: u8) -> Seq<Seq<char>> {
    dice.map_values(|x: u8| die_text(x, t))
}

/// The "Success." / "Successes." ending.
pub open spec fn success_word_ending(successes: nat) -> Seq<char> {
    if successes == 1 { "."@ } else { "es."@ }
}

/// The line that counts the successes; six-sided dice also announce a crit for three sixes.
pub open spec fn success_line(sides: u8, successes: nat, six_count: nat) -> Seq<char> {
    if sides == CRIT {
        "\n**"@ + nat_digits(successes) + "** Success"@ + success_word_ending(successes) + (if six_count
            >= 3 { " **(CRIT)**"@ } else { ""@ })
    } else {
        "\n**"@ + nat_digits(successes) + " Success"@ + success_word_ending(successes) + "**"@
    }
}

/// The sum of the faces.
pub open spec fn dice_sum(dice: Seq<u8>) -> nat
    decreases dice.len(),
{
    if dice.len() == 0 { 0 } else { dice_sum(dice.drop_last()) + dice.last() as nat }
}

/// The flat value added to a roll, and the total with it: nothing without a flat value;
/// else `+flat = total`, the total being the shown faces plus the flat value.
pub open spec fn flat_total_text(shown: Seq<u8>, flat_addition: u8) -> Seq<char> {
    if flat_addition > 0 {
        seq!['+'] + nat_digits(flat_addition as nat) + " = "@ + nat_digits(dice_sum(shown) + flat_addition as nat)
    } else {
        ""@
    }
}

/// The answer to a roll of `dice` (the faces drawn), given how many curses were drawn:
/// the dice rolled, the faces, the total with the flat value where one is added, the
/// successes and the curses.
pub open spec fn roll_report_spec(amount: u8, sides: u8, flat_addition: u8, super_luck: bool, curse_count: u8, dice: Seq<u8>) -> Seq<char> {
    let t = success_threshold(super_luck, curse_count);
    let curses = applied_curses(amount, super_luck, curse_count);
    let shown = shown_dice(super_luck, dice, t);
    nat_digits(amount_after_curses(amount, super_luck, curse_count) as nat) + "d"@ + nat_digits(sides as nat)
        + " — "@ + join(dice_texts(shown, t), ", "@)
        + flat_total_text(shown, flat_addition)
        + success_line(sides, shown_successes(super_luck, dice, t), count_equal(dice, CRIT))
        + (if curses.len() > 0 && !super_luck {
            "\n**Applied Curses:** "@ + join(curses, ", "@)
        } else {
            ""@
        })
}

/// The draws that a roll can make: with Super Luck no curse, else one to five curses; one
/// face per die, from 1 to the highest face.
pub open spec fn possible_draw(amount: u8, sides: u8, super_luck: bool, curse_count: u8, dice: Seq<u8>) -> bool {
    &&& super_luck ==> curse_count == 0
    &&& !super_luck ==> 1 <= curse_count <= 5
    &&& dice.len() == amount
    &&& forall|i: int| 0 <= i < dice.len() ==> 1 <= #[trigger] dice[i] <= highest_face(sides, super_luck, curse_count)
}

fn die_text_exec(x: u8, t: u8) -> (s: String)
    ensures
        s@ == die_text(x, t),
{
    let mut s = String::new();
    if x == CRIT {
        push_str(&mut s, "**__");
        push_u64(&mut s, x as u64);
        push_str(&mut s, "__**");
    } else if x >= t {
        push_str(&mut s, "**");
        push_u64(&mut s, x as u64);
        push_str(&mut s, "**");
    } else {
        push_u64(&mut s, x as u64);
    }
    s
}

fn count_dice(dice: &Vec<u8>, t: u8, exact: bool) -> (n: u64)
    ensures
        n == if exact { count_equal(dice@, t) } else { count_at_least(dice@, t) },
        n <= dice@.len(),
{
    let mut n: u64 = 0;
    let mut i: usize = 0;
    while i < dice.len()
        invariant
            i <= dice.len(),
            n == if exact { count_equal(dice@.subrange(0, i as int), t) } else { count_at_least(dice@.subrange(0, i as int), t) },
            n <= i,
        decreases dice.len() - i,
    {
        proof {
            assert(dice@.subrange(0, i + 1).drop_last() == dice@.subrange(0, i as int));
        }
        if (exact && dice[i] == t) || (!exact && dice[i] >= t) {
            n = n + 1;
        }
        i = i + 1;
    }
    proof {
        assert(dice@.subrange(0, dice@.len() as int) == dice@);
    }
    n
}

proof fn lemma_raise_first_below(dice: Seq<u8>, t: u8, k: int)
    requires
        0 <= k <= dice.len(),
        forall|j: int| 0 <= j < k ==> #[trigger] dice[j] >= t,
        k < dice.len() ==> dice[k] < t,
    ensures
        raise_first_below(dice, t) == if k < dice.len() { dice.update(k, t) } else { dice },
    decreases dice.len(),
{
    if dice.len() > 0 {
        if k > 0 {
            assert(dice[0] >= t);
            let rest = dice.drop_first();
            assert forall|j: int| 0 <= j < k - 1 implies #[trigger] rest[j] >= t by {
                assert(rest[j] == dice[j + 1]);
            }
            lemma_raise_first_below(rest, t, k - 1);
            if k < dice.len() {
                assert(seq![dice[0]] + rest.update(k - 1, t) =~= dice.update(k, t));
            } else {
                assert(seq![dice[0]] + rest =~= dice);
            }
        }
    }
}

proof fn lemma_count_at_least_positive(dice: Seq<u8>, t: u8, i: int)
    requires
        0 <= i < dice.len(),
        dice[i] >= t,
    ensures
        count_at_least(dice, t) >= 1,
    decreases dice.len(),
{
    if i < dice.len() - 1 {
        lemma_count_at_least_positive(dice.drop_last(), t, i);
    }
}

/// Super Luck never leaves a roll without success: whenever at least one die is rolled,
/// at least one success is counted, and at least one shown die is a success.
pub proof fn law_super_luck_has_a_success(dice: Seq<u8>, t: u8)
    requires
        dice.len() >= 1,
    ensures
        shown_successes(true, dice, t) >= 1,
        count_at_least(shown_dice(true, dice, t), t) >= 1,
{
    if count_at_least(dice, t) == 0 {
        assert forall|j: int| 0 <= j < 0 implies #[trigger] dice[j] >= t by {}
        if dice[0] >= t {
            lemma_count_at_least_positive(dice, t, 0);
        }
        lemma_raise_first_below(dice, t, 0);
        lemma_count_at_least_positive(dice.update(0, t), t, 0);
    } else {
        assert(shown_dice(true, dice, t) == dice);
    }
}

fn shown_dice_exec(dice: &Vec<u8>, t: u8, lucky: bool) -> (shown: Vec<u8>)
    requires
        lucky ==> count_at_least(dice@, t) == 0,
    ensures
        shown@ == if lucky { raise_first_below(dice@, t) } else { dice@ },
        shown@.len() == dice@.len(),
{
    let mut shown: Vec<u8> = dice.clone();
    if lucky {
        let mut k: usize = 0;
        while k < shown.len()
            invariant
                shown@ == dice@,
                k <= shown.len(),
                forall|j: int| 0 <= j < k ==> #[trigger] dice@[j] >= t,
            ensures
                shown@ == dice@,
                k <= shown.len(),
                forall|j: int| 0 <= j < k ==> #[trigger] dice@[j] >= t,
                k < shown.len() ==> dice@[k as int] < t,
            decreases shown.len() - k,
        {
            if shown[k] < t {
                break;
            }
            k = k + 1;
        }
        proof {
            lemma_raise_first_below(dice@, t, k as int);
        }
        if k < shown.len() {
            shown.set(k, t);
        }
    }
    shown
}

fn dice_list_exec(shown: &Vec<u8>, t: u8) -> (s: String)
    ensures
        s@ == join(dice_texts(shown@, t), ", "@),
{
    let mut texts: Vec<String> = Vec::new();
    let mut i: usize = 0;
    while i < shown.len()
        invariant
            i <= shown.len(),
            texts@.len() == i,
            forall|j: int| 0 <= j < i ==> #[trigger] texts@[j]@ == die_text(shown@[j], t),
        decreases shown.len() - i,
    {
        texts.push(die_text_exec(shown[i], t));
        i = i + 1;
    }
    proof {
        assert(views(texts@) =~= dice_texts(shown@, t));
    }
    joined(&texts, ", ")
}

fn success_line_exec(sides: u8, successes: u64, six_count: u64) -> (s: String)
    ensures
        s@ == success_line(sides, successes as nat, six_count as nat),
{
    let mut text = String::new();
    if sides == CRIT {
        push_str(&mut text, "\n**");
        push_u64(&mut text, successes);
        push_str(&mut text, "** Success");
        if successes == 1 {
            push_str(&mut text, ".");
        } else {
            push_str(&mut text, "es.");
        }
        if six_count >= 3 {
            push_str(&mut text, " **(CRIT)**");
        } else {
            push_str(&mut text, "");
        }
    } else {
        push_str(&mut text, "\n**");
        push_u64(&mut text, successes);
        push_str(&mut text, " Success");
        if successes == 1 {
            push_str(&mut text, ".");
        } else {
            push_str(&mut text, "es.");
        }
        push_str(&mut text, "**");
    }
    text
}

fn curses_line_exec(amount: u8, super_luck: bool, curse_count: u8) -> (s: String)
    ensures
        s@ == (if applied_curses(amount, super_luck, curse_count).len() > 0 && !super_luck {
            "\n**Applied Curses:** "@ + join(applied_curses(amount, super_luck, curse_count), ", "@)
        } else {
            ""@
        }),
{
    let mut curses: Vec<String> = Vec::new();
    if !super_luck {
        if curse_count >= 3 {
            curses.push("Skewed Rolls to Low".to_owned());
        }
        if curse_count >= 4 {
            curses.push("Increased Success Threshold".to_owned());
        }
        if curse_count >= 5 && amount > 1 {
            curses.push("Reduced Dice Count".to_owned());
        }
    }
    proof {
        assert(views(curses@) =~= applied_curses(amount, super_luck, curse_count));
    }
    let mut text = String::new();
    if curses.len() > 0 && !super_luck {
        push_str(&mut text, "\n**Applied Curses:** ");
        push_joined(&mut text, &curses, ", ");
    } else {
        push_str(&mut text, "");
    }
    text
}

/// The answer to a roll, for the faces drawn; see `roll_report_spec`.
pub fn roll_report(amount: u8, sides: u8, flat_addition: u8, super_luck: bool, curse_count: u8, dice: &Vec<u8>) -> (text: String)
    requires
        dice.len() <= 255,
    ensures
        text@ == roll_report_spec(amount, sides, flat_addition, super_luck, curse_count, dice@),
{
    let t: u8 = if !super_luck && curse_count >= 4 { 5 } else { 4 };
    let successes = count_dice(dice, t, false);
    let six_count = count_dice(dice, CRIT, true);
    let lucky = super_luck && successes == 0;
    let shown = shown_dice_exec(dice, t, lucky);
    let shown_successes: u64 = if lucky { 1 } else { successes };
    let list = dice_list_exec(&shown, t);
    let success = success_line_exec(sides, shown_successes, six_count);
    let curses = curses_line_exec(amount, super_luck, curse_count);
    let head = dice_header(amount, sides, super_luck, curse_count);
    let total = flat_total_exec(&shown, flat_addition);
    let mut text = String::new();
    push_str(&mut text, head.as_str());
    push_str(&mut text, " — ");
    push_str(&mut text, list.as_str());
    push_str(&mut text, total.as_str());
    push_str(&mut text, success.as_str());
    push_str(&mut text, curses.as_str());
    assert(text@ =~= roll_report_spec(amount, sides, flat_addition, super_luck, curse_count, dice@));
    text
}

/// The dice rolled: `2d6`.
fn dice_header(amount: u8, sides: u8, super_luck: bool, curse_count: u8) -> (s: String)
    ensures
        s@ == nat_digits(amount_after_curses(amount, super_luck, curse_count) as nat) + "d"@ + nat_digits(sides as nat),
{
    let mut s = String::new();
    push_u64(&mut s, if !super_luck && curse_count >= 5 && amount > 1 { (amount - 1) as u64 } else { amount as u64 });
    push_str(&mut s, "d");
    push_u64(&mut s, sides as u64);
    s
}

/// The flat value and the total; see `flat_total_text`.
fn flat_total_exec(shown: &Vec<u8>, flat_addition: u8) -> (s: String)
    requires
        shown.len() <= 255,
    ensures
        s@ == flat_total_text(shown@, flat_addition),
{
    let mut s = String::new();
    if flat_addition > 0 {
        let total = sum_dice(shown);
        push_str(&mut s, "+");
        push_u64(&mut s, flat_addition as u64);
        push_str(&mut s, " = ");
        push_u64(&mut s, total + flat_addition as u64);
    }
    proof {
        reveal_strlit("+");
        reveal_strlit("");
    }
    assert(s@ =~= flat_total_text(shown@, flat_addition));
    s
}

/// The sum of the faces.
fn sum_dice(dice: &Vec<u8>) -> (n: u64)
    requires
        dice.len() <= 255,
    ensures
        n == dice_sum(dice@),
        n <= 255 * 255,
{
    let mut n: u64 = 0;
    let mut i: usize = 0;
    while i < dice.len()
        invariant
            i <= dice.len() <= 255,
            n == dice_sum(dice@.subrange(0, i as int)),
            n <= 255 * i,
        decreases dice.len() - i,
    {
        assert(dice@.subrange(0, i + 1).drop_last() =~= dice@.subrange(0, i as int));
        n = n + dice[i] as u64;
        i = i + 1;
    }
    assert(dice@.subrange(0, i as int) =~= dice@);
    n
}

/// The Discord user whose rolls have Super Luck.
pub const SUPER_LUCK_USER_ID: u64 = 307627785818603523;

/// Whether a user's rolls have Super Luck.
pub fn has_super_luck(author_id: u64) -> (b: bool)
    ensures
        b == (author_id == SUPER_LUCK_USER_ID),
{
    author_id == SUPER_LUCK_USER_ID
}

impl ParsedRollQuery {
    /// Rolls the dice. Unless the roller has Super Luck, one to five curses are drawn at
    /// random, and the dice are rolled at random; the answer is `roll_report_spec` of what
    /// was drawn. Under "Reduced Dice Count" the query keeps one die less.
    pub fn execute(&mut self, super_luck: bool) -> (text: String)
        ensures
            exists|curse_count: u8, dice: Seq<u8>|
                {
                    &&& possible_draw(old(self)@.0, old(self)@.1, super_luck, curse_count, dice)
                    &&& text@ == roll_report_spec(old(self)@.0, old(self)@.1, old(self)@.2, super_luck, curse_count, dice)
                    &&& final(self)@ == (
                        amount_after_curses(old(self)@.0, super_luck, curse_count),
                        old(self)@.1,
                        old(self)@.2,
                    )
                },
    {
        proof {
            use_type_invariant(&*self);
        }
        let curse_count: u8 = if super_luck { 0 } else { random_u8_inclusive(1, 5) };
        let highest: u8 = if !super_luck && curse_count >= 3 { 3 } else { self.sides };
        let mut dice: Vec<u8> = Vec::new();
        let mut i: u8 = 0;
        while i < self.amount
            invariant
                i <= self.amount,
                dice@.len() == i,
                1 <= highest,
                forall|j: int| 0 <= j < dice@.len() ==> 1 <= #[trigger] dice@[j] <= highest,
            decreases self.amount - i,
        {
            dice.push(random_u8_inclusive(1, highest));
            i = i + 1;
        }
        let text = roll_report(self.amount, self.sides, self.flat_addition, super_luck, curse_count, &dice);
        if !super_luck && curse_count >= 5 && self.amount > 1 {
            self.amount = self.amount - 1;
        }
        proof {
            assert(possible_draw(old(self)@.0, old(self)@.1, super_luck, curse_count, dice@));
        }
        text
    }
}

/// A die counts as a success from 5 on exactly when "Increased Success Threshold" is
/// among the applied curses; otherwise every die from 4 on counts.
pub proof fn law_threshold_raised_only_by_its_curse(amount: u8, super_luck: bool, curse_count: u8)
    ensures
        success_threshold(super_luck, curse_count) == (if applied_curses(amount, super_luck, curse_count).contains(
            "Increased Success Threshold"@,
        ) {
            5u8
        } else {
            4u8
        }),
{
    reveal_strlit("Increased Success Threshold");
    reveal_strlit("Skewed Rolls to Low");
    reveal_strlit("Reduced Dice Count");
    let curses = applied_curses(amount, super_luck, curse_count);
    let ist = "Increased Success Threshold"@;
    if !super_luck && curse_count >= 4 {
        let k: int = if curse_count >= 3 { 1 } else { 0 };
        assert(curses[k] == ist);
    } else {
        assert forall|k: int| 0 <= k < curses.len() implies #[trigger] curses[k] != ist by {
            assert(curses[k].len() != ist.len());
        }
    }
}

/// The other two curses act exactly when they are listed: the dice show at most 3 under
/// "Skewed Rolls to Low", and one die fewer is rolled under "Reduced Dice Count".
pub proof fn law_curse_effects_follow_listed_curses(amount: u8, sides: u8, super_luck: bool, curse_count: u8)
    ensures
        highest_face(sides, super_luck, curse_count) == (if applied_curses(amount, super_luck, curse_count).contains(
            "Skewed Rolls to Low"@,
        ) {
            3u8
        } else {
            sides
        }),
        amount_after_curses(amount, super_luck, curse_count) == (if applied_curses(amount, super_luck, curse_count).contains(
            "Reduced Dice Count"@,
        ) {
            (amount - 1) as u8
        } else {
            amount
        }),
{
    reveal_strlit("Increased Success Threshold");
    reveal_strlit("Skewed Rolls to Low");
    reveal_strlit("Reduced Dice Count");
    let curses = applied_curses(amount, super_luck, curse_count);
    let skewed = "Skewed Rolls to Low"@;
    let reduced = "Reduced Dice Count"@;
    if !super_luck && curse_count >= 3 {
        assert(curses[0] == skewed);
    } else {
        assert forall|k: int| 0 <= k < curses.len() implies #[trigger] curses[k] != skewed by {
            assert(curses[k].len() != skewed.len());
        }
    }
    if !super_luck && curse_count >= 5 && amount > 1 {
        assert(curses[2] == reduced);
    } else {
        assert forall|k: int| 0 <= k < curses.len() implies #[trigger] curses[k] != reduced by {
            assert(curses[k].len() != reduced.len());
        }
    }
}

/// Unless "Increased Success Threshold" is applied (and Super Luck has no success to make
/// up), the report counts every die showing 4 or more as a success.
pub proof fn law_report_counts_dice_from_four(
    amount: u8,
    sides: u8,
    flat_addition: u8,
    super_luck: bool,
    curse_count: u8,
    dice: Seq<u8>,
)
    requires
        !applied_curses(amount, super_luck, curse_count).contains("Increased Success Threshold"@),
        super_luck ==> count_at_least(dice, 4) > 0,
    ensures
        is_substring(
            roll_report_spec(amount, sides, flat_addition, super_luck, curse_count, dice),
            success_line(sides, count_at_least(dice, 4), count_equal(dice, CRIT)),
        ),
{
    law_threshold_raised_only_by_its_curse(amount, super_luck, curse_count);
    let t = success_threshold(super_luck, curse_count);
    assert(t == 4);
    let curses = applied_curses(amount, super_luck, curse_count);
    let shown = shown_dice(super_luck, dice, t);
    let line = success_line(sides, count_at_least(dice, 4), count_equal(dice, CRIT));
    assert(shown_successes(super_luck, dice, t) == count_at_least(dice, 4));
    let before = nat_digits(amount_after_curses(amount, super_luck, curse_count) as nat) + "d"@
        + nat_digits(sides as nat) + " — "@ + join(dice_texts(shown, t), ", "@)
        + flat_total_text(shown, flat_addition);
    let after = if curses.len() > 0 && !super_luck {
        "\n**Applied Curses:** "@ + join(curses, ", "@)
    } else {
        ""@
    };
    assert(roll_report_spec(amount, sides, flat_addition, super_luck, curse_count, dice) == before
        + line + after);
    assert(line.subrange(0, line.len() as int) =~= line);
    lemma_prefix_substring(line, line);
    lemma_substring_extend(before, line, line);
    lemma_substring_extend(after, before + line, line);
}

} // verus!
