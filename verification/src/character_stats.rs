//! A character's combat and social stats, the points invested in them, and the
//! stat block printed on a character sheet.

use vstd::prelude::*;

use crate::emoji::{DOT_EMPTY, DOT_FILLED, DOT_OVERCHARGED};
use crate::game::{Pokemon, PokemonStat};
use crate::text::{int_text, push_char, push_i64, push_str, to_chars};

verus! {

/// Whether a block holds combat stats (with the species' base HP) or social stats.
#[derive(Clone, Copy, Debug, PartialEq, Eq, Structural)]
pub enum CharacterStatType {
    Combat { base_hp: u8 },
    Social,
}

/// One stat of a character: its current value and the species' range for it.
#[derive(Clone, Copy, Debug, PartialEq, Eq, Structural)]
pub struct CharacterStat {
    pub current: i64,
    pub min: i64,
    pub max: i64,
}

/// The width that combat stat names are padded to.
pub const COMBAT_PADDING: usize = 10;

/// The width that social stat names are padded to.
pub const SOCIAL_PADDING: usize = 7;

/// Whether an integer fits in an `i64`.
pub open spec fn fits_i64(x: int) -> bool {
    i64::MIN <= x <= i64::MAX
}

impl CharacterStat {
    /// The points put into this stat above the species' minimum.
    pub open spec fn invested(self) -> int {
        self.current - self.min
    }

    /// How far this stat goes past the species' maximum.
    pub open spec fn limit_breaks(self) -> int {
        if self.current > self.max {
            self.current - self.max
        } else {
            0
        }
    }

    /// A combat stat with the species' range.
    pub fn from_poke(current: i64, stat: &PokemonStat) -> (r: Self)
        ensures
            r == (CharacterStat { current, min: stat.min as i64, max: stat.max as i64 }),
    {
        CharacterStat { current, min: stat.min as i64, max: stat.max as i64 }
    }

    /// A social stat: every social stat ranges from 1 to 5.
    pub fn from_social(current: i64) -> (r: Self)
        ensures
            r == (CharacterStat { current, min: 1, max: 5 }),
    {
        CharacterStat { current, min: 1, max: 5 }
    }

    pub fn invested_points(&self) -> (r: i64)
        requires
            fits_i64(self.invested()),
        ensures
            r == self.invested(),
    {
        self.current - self.min
    }

    pub fn count_limit_breaks(&self) -> (r: i64)
        requires
            fits_i64(self.limit_breaks()),
        ensures
            r == self.limit_breaks(),
    {
        if self.current > self.max {
            self.current - self.max
        } else {
            0
        }
    }
}

/// The five combat stats (strength, dexterity, vitality, special, insight) or the five
/// social stats (tough, cool, beauty, cute, clever) of a character.
#[derive(Clone, Copy, Debug, PartialEq, Eq, Structural)]
pub struct GenericCharacterStats {
    pub kind: CharacterStatType,
    pub strength_or_tough: CharacterStat,
    pub dexterity_or_cool: CharacterStat,
    pub vitality_or_beauty: CharacterStat,
    pub special_or_cute: CharacterStat,
    pub insight_or_clever: CharacterStat,
}

/// `text` followed by spaces up to `width` characters, as `{:<width$}` writes it.
pub open spec fn padded(text: Seq<char>, width: nat) -> Seq<char> {
    let fill: nat = if width > text.len() { (width - text.len()) as nat } else { 0 };
    text + Seq::new(fill, |i: int| ' ')
}

/// The dots of a stat: filled up to the current value, empty up to the maximum,
/// and overcharged past it.
pub open spec fn stat_dots(current: int, max: int) -> Seq<char> {
    let len: int = if current > max { current } else { max };
    let n: nat = if len > 0 { len as nat } else { 0 };
    Seq::new(n, |i: int| if i < current && i < max {
        DOT_FILLED
    } else if i < current {
        DOT_OVERCHARGED
    } else {
        DOT_EMPTY
    })
}

/// One line of a stat block: `"{name}:"` padded, the value, then the dots.
pub open spec fn stat_row(name: Seq<char>, stat: CharacterStat, padding: nat) -> Seq<char> {
    padded(name.push(':'), padding) + seq![' '] + int_text(stat.current as int) + seq![' ', '|']
        + stat_dots(stat.current as int, stat.max as int) + seq!['\n']
}

/// How `(x as f32 * 0.5).ceil()` prints for an `x` that an `f32` holds exactly: half of
/// `x` rounded up, where half of -1 rounds to negative zero.
pub open spec fn half_rounded_up_text(x: int) -> Seq<char> {
    if x == -1 {
        seq!['-', '0']
    } else {
        int_text((x + 1) / 2)
    }
}

/// Whether every integer up to magnitude 2^24 is exact in an `f32`.
pub open spec fn exact_in_f32(x: int) -> bool {
    -16777216 <= x <= 16777216
}

impl GenericCharacterStats {
    pub open spec fn stats(self) -> Seq<CharacterStat> {
        seq![
            self.strength_or_tough,
            self.dexterity_or_cool,
            self.vitality_or_beauty,
            self.special_or_cute,
            self.insight_or_clever,
        ]
    }

    /// The limit breaks of all five stats together.
    pub open spec fn total_limit_breaks(self) -> int {
        self.strength_or_tough.limit_breaks() + self.insight_or_clever.limit_breaks()
            + self.special_or_cute.limit_breaks() + self.vitality_or_beauty.limit_breaks()
            + self.dexterity_or_cool.limit_breaks()
    }

    /// The extra points that limit breaks cost: one, plus 1 + 2 + ... + n for n breaks.
    pub open spec fn limit_break_cost(self) -> int {
        let n = self.total_limit_breaks();
        if n > 0 {
            1 + n * (n + 1) / 2
        } else {
            0
        }
    }

    /// All points spent on these stats.
    pub open spec fn invested_total(self) -> int {
        self.limit_break_cost() + self.strength_or_tough.invested()
            + self.insight_or_clever.invested() + self.special_or_cute.invested()
            + self.vitality_or_beauty.invested() + self.dexterity_or_cool.invested()
    }

    /// Every intermediate sum that counting limit breaks makes fits in an `i64`.
    pub open spec fn limit_breaks_fit(self) -> bool {
        fits_i64(self.total_limit_breaks())
    }

    /// Every intermediate value that counting invested points makes fits in an `i64`.
    pub open spec fn invested_points_fit(self) -> bool {
        let n = self.total_limit_breaks();
        let c = self.limit_break_cost();
        &&& self.limit_breaks_fit()
        &&& n * (n + 1) <= i64::MAX
        &&& forall|k: int| 0 <= k < 5 ==> fits_i64(#[trigger] self.stats()[k].invested())
        &&& fits_i64(c + self.strength_or_tough.invested())
        &&& fits_i64(c + self.strength_or_tough.invested() + self.insight_or_clever.invested())
        &&& fits_i64(c + self.strength_or_tough.invested() + self.insight_or_clever.invested()
            + self.special_or_cute.invested())
        &&& fits_i64(c + self.strength_or_tough.invested() + self.insight_or_clever.invested()
            + self.special_or_cute.invested() + self.vitality_or_beauty.invested())
        &&& fits_i64(self.invested_total())
    }

    /// The five stat rows, named after the kind of block.
    pub open spec fn stat_block(self) -> Seq<char> {
        match self.kind {
            CharacterStatType::Combat { .. } => {
                stat_row("Strength"@, self.strength_or_tough, 10)
                    + stat_row("Dexterity"@, self.dexterity_or_cool, 10)
                    + stat_row("Vitality"@, self.vitality_or_beauty, 10)
                    + stat_row("Special"@, self.special_or_cute, 10)
                    + stat_row("Insight"@, self.insight_or_clever, 10)
            },
            CharacterStatType::Social => {
                stat_row("Tough"@, self.strength_or_tough, 7)
                    + stat_row("Cool"@, self.dexterity_or_cool, 7)
                    + stat_row("Beauty"@, self.vitality_or_beauty, 7)
                    + stat_row("Cute"@, self.special_or_cute, 7)
                    + stat_row("Clever"@, self.insight_or_clever, 7)
            },
        }
    }

    /// The text of a block: for combat stats, HP and Willpower first and the defenses
    /// after the rows.
    pub open spec fn block_text(self) -> Seq<char> {
        match self.kind {
            CharacterStatType::Combat { base_hp } => {
                "HP: "@ + int_text((base_hp + self.vitality_or_beauty.current) * 2)
                    + "\nWillpower: "@ + int_text(self.insight_or_clever.current + 2)
                    + "\n\n"@ + self.stat_block()
                    + "\nDefense: "@ + half_rounded_up_text(self.vitality_or_beauty.current as int)
                    + "\nSpecial Defense: "@
                    + half_rounded_up_text(self.insight_or_clever.current as int) + "\n"@
            },
            CharacterStatType::Social => self.stat_block(),
        }
    }

    /// Whether the numbers that the text prints can be computed without overflow and
    /// the halved values are exact.
    pub open spec fn printable(self) -> bool {
        match self.kind {
            CharacterStatType::Combat { base_hp } => {
                &&& fits_i64((base_hp + self.vitality_or_beauty.current) * 2)
                &&& fits_i64(self.insight_or_clever.current + 2)
                &&& exact_in_f32(self.vitality_or_beauty.current as int)
                &&& exact_in_f32(self.insight_or_clever.current as int)
            },
            CharacterStatType::Social => true,
        }
    }

    /// The combat stats of a character of the given species.
    pub fn from_combat(
        pokemon: &Pokemon,
        strength: i64,
        dexterity: i64,
        vitality: i64,
        special: i64,
        insight: i64,
    ) -> (r: Self)
        ensures
            r.kind == (CharacterStatType::Combat { base_hp: pokemon.base_hp }),
            r.strength_or_tough == (CharacterStat {
                current: strength,
                min: pokemon.strength.min as i64,
                max: pokemon.strength.max as i64,
            }),
            r.dexterity_or_cool == (CharacterStat {
                current: dexterity,
                min: pokemon.dexterity.min as i64,
                max: pokemon.dexterity.max as i64,
            }),
            r.vitality_or_beauty == (CharacterStat {
                current: vitality,
                min: pokemon.vitality.min as i64,
                max: pokemon.vitality.max as i64,
            }),
            r.special_or_cute == (CharacterStat {
                current: special,
                min: pokemon.special.min as i64,
                max: pokemon.special.max as i64,
            }),
            r.insight_or_clever == (CharacterStat {
                current: insight,
                min: pokemon.insight.min as i64,
                max: pokemon.insight.max as i64,
            }),
    {
        GenericCharacterStats {
            kind: CharacterStatType::Combat { base_hp: pokemon.base_hp },
            strength_or_tough: CharacterStat::from_poke(strength, &pokemon.strength),
            dexterity_or_cool: CharacterStat::from_poke(dexterity, &pokemon.dexterity),
            vitality_or_beauty: CharacterStat::from_poke(vitality, &pokemon.vitality),
            special_or_cute: CharacterStat::from_poke(special, &pokemon.special),
            insight_or_clever: CharacterStat::from_poke(insight, &pokemon.insight),
        }
    }

    /// The social stats of a character; each ranges from 1 to 5.
    pub fn from_social(tough: i64, cool: i64, beauty: i64, cute: i64, clever: i64) -> (r: Self)
        ensures
            r.kind == CharacterStatType::Social,
            r.strength_or_tough == (CharacterStat { current: tough, min: 1, max: 5 }),
            r.dexterity_or_cool == (CharacterStat { current: cool, min: 1, max: 5 }),
            r.vitality_or_beauty == (CharacterStat { current: beauty, min: 1, max: 5 }),
            r.special_or_cute == (CharacterStat { current: cute, min: 1, max: 5 }),
            r.insight_or_clever == (CharacterStat { current: clever, min: 1, max: 5 }),
    {
        GenericCharacterStats {
            kind: CharacterStatType::Social,
            strength_or_tough: CharacterStat::from_social(tough),
            dexterity_or_cool: CharacterStat::from_social(cool),
            vitality_or_beauty: CharacterStat::from_social(beauty),
            special_or_cute: CharacterStat::from_social(cute),
            insight_or_clever: CharacterStat::from_social(clever),
        }
    }

    /// The limit breaks of all five stats together.
    pub fn count_limit_breaks(&self) -> (r: i64)
        requires
            self.limit_breaks_fit(),
        ensures
            r == self.total_limit_breaks(),
    {
        self.strength_or_tough.count_limit_breaks() + self.insight_or_clever.count_limit_breaks()
            + self.special_or_cute.count_limit_breaks()
            + self.vitality_or_beauty.count_limit_breaks()
            + self.dexterity_or_cool.count_limit_breaks()
    }

    /// All points spent on these stats, the extra cost of limit breaks included.
    pub fn calculate_invested_stat_points(&self) -> (r: i64)
        requires
            self.invested_points_fit(),
        ensures
            r == self.invested_total(),
    {
        assert(fits_i64(self.stats()[0].invested()));
        assert(fits_i64(self.stats()[1].invested()));
        assert(fits_i64(self.stats()[2].invested()));
        assert(fits_i64(self.stats()[3].invested()));
        assert(fits_i64(self.stats()[4].invested()));
        let limit_breaks = self.count_limit_breaks();
        let used_extra_points_for_limit_breaks: i64 = if limit_breaks > 0 {
            assert(limit_breaks + 1 <= limit_breaks * (limit_breaks + 1) <= i64::MAX)
                by (nonlinear_arith)
                requires
                    limit_breaks > 0,
                    limit_breaks * (limit_breaks + 1) <= i64::MAX,
            ;
            1 + limit_breaks * (limit_breaks + 1) / 2
        } else {
            0
        };
        used_extra_points_for_limit_breaks + self.strength_or_tough.invested_points()
            + self.insight_or_clever.invested_points() + self.special_or_cute.invested_points()
            + self.vitality_or_beauty.invested_points() + self.dexterity_or_cool.invested_points()
    }

    /// One line of a stat block.
    pub fn build_stat_row(name: &str, stat: &CharacterStat, padding: usize) -> (s: String)
        ensures
            s@ == stat_row(name@, *stat, padding as nat),
    {
        let mut result = String::new();
        push_padded(&mut result, name, padding);
        push_char(&mut result, ' ');
        push_i64(&mut result, stat.current);
        push_str(&mut result, " |");
        assert(result@ == padded(name@.push(':'), padding as nat) + seq![' '] + int_text(
            stat.current as int,
        ) + seq![' ', '|']) by {
            reveal_strlit(" |");
        }
        push_dots(&mut result, stat.current, stat.max);
        push_char(&mut result, '\n');
        result
    }

    /// The five stat rows.
    pub fn build_stat_block(&self) -> (s: String)
        ensures
            s@ == self.stat_block(),
    {
        let mut result = String::new();
        match self.kind {
            CharacterStatType::Combat { .. } => {
                push_row(&mut result, "Strength", &self.strength_or_tough, COMBAT_PADDING);
                push_row(&mut result, "Dexterity", &self.dexterity_or_cool, COMBAT_PADDING);
                push_row(&mut result, "Vitality", &self.vitality_or_beauty, COMBAT_PADDING);
                push_row(&mut result, "Special", &self.special_or_cute, COMBAT_PADDING);
                push_row(&mut result, "Insight", &self.insight_or_clever, COMBAT_PADDING);
            },
            CharacterStatType::Social => {
                push_row(&mut result, "Tough", &self.strength_or_tough, SOCIAL_PADDING);
                push_row(&mut result, "Cool", &self.dexterity_or_cool, SOCIAL_PADDING);
                push_row(&mut result, "Beauty", &self.vitality_or_beauty, SOCIAL_PADDING);
                push_row(&mut result, "Cute", &self.special_or_cute, SOCIAL_PADDING);
                push_row(&mut result, "Clever", &self.insight_or_clever, SOCIAL_PADDING);
            },
        }
        assert(result@ =~= self.stat_block());
        result
    }

    /// The stat block as a character sheet shows it.
    pub fn build_string(&self) -> (s: String)
        requires
            self.printable(),
        ensures
            s@ == self.block_text(),
    {
        match self.kind {
            CharacterStatType::Combat { base_hp } => {
                let mut result = String::new();
                push_str(&mut result, "HP: ");
                push_i64(&mut result, (base_hp as i64 + self.vitality_or_beauty.current) * 2);
                push_str(&mut result, "\nWillpower: ");
                push_i64(&mut result, self.insight_or_clever.current + 2);
                push_str(&mut result, "\n\n");
                let block = self.build_stat_block();
                push_str(&mut result, block.as_str());
                push_str(&mut result, "\nDefense: ");
                push_half_rounded_up(&mut result, self.vitality_or_beauty.current);
                push_str(&mut result, "\nSpecial Defense: ");
                push_half_rounded_up(&mut result, self.insight_or_clever.current);
                push_str(&mut result, "\n");
                assert(result@ =~= self.block_text());
                result
            },
            CharacterStatType::Social => self.build_stat_block(),
        }
    }
}

/// Stats that stay within their species' maximum cost exactly the points put into
/// them: no limit break is counted and nothing extra is charged.
pub proof fn law_invested_within_range(stats: GenericCharacterStats)
    requires
        forall|k: int| 0 <= k < 5 ==> #[trigger] stats.stats()[k].current <= stats.stats()[k].max,
    ensures
        stats.total_limit_breaks() == 0,
        stats.invested_total() == stats.strength_or_tough.invested()
            + stats.dexterity_or_cool.invested() + stats.vitality_or_beauty.invested()
            + stats.special_or_cute.invested() + stats.insight_or_clever.invested(),
{
    assert(stats.stats()[0].current <= stats.stats()[0].max);
    assert(stats.stats()[1].current <= stats.stats()[1].max);
    assert(stats.stats()[2].current <= stats.stats()[2].max);
    assert(stats.stats()[3].current <= stats.stats()[3].max);
    assert(stats.stats()[4].current <= stats.stats()[4].max);
}

/// Each further limit break costs one point more than the one before: going from `n`
/// to `n + 1` breaks costs `n + 1` points, and the first break costs two.
pub proof fn law_limit_break_cost_grows(a: GenericCharacterStats, b: GenericCharacterStats)
    requires
        a.total_limit_breaks() >= 0,
        b.total_limit_breaks() == a.total_limit_breaks() + 1,
    ensures
        b.limit_break_cost() - a.limit_break_cost() == (if a.total_limit_breaks() == 0 {
            2
        } else {
            b.total_limit_breaks()
        }),
{
    let n = a.total_limit_breaks();
    let t = n * (n + 1);
    let u = (n + 1) * (n + 2);
    assert(u == t + 2 * (n + 1)) by (nonlinear_arith)
        requires
            t == n * (n + 1),
            u == (n + 1) * (n + 2),
    ;
    assert(u / 2 == t / 2 + (n + 1));
    assert(b.total_limit_breaks() * (b.total_limit_breaks() + 1) == u);
    assert(n == 0 ==> t == 0) by (nonlinear_arith)
        requires
            t == n * (n + 1),
    ;
}

fn push_row(s: &mut String, name: &str, stat: &CharacterStat, padding: usize)
    ensures
        final(s)@ == old(s)@ + stat_row(name@, *stat, padding as nat),
{
    let row = GenericCharacterStats::build_stat_row(name, stat, padding);
    push_str(s, row.as_str());
}

/// Appends `"{name}:"` padded to `width` characters.
fn push_padded(s: &mut String, name: &str, width: usize)
    ensures
        final(s)@ == old(s)@ + padded(name@.push(':'), width as nat),
{
    let chars = to_chars(name);
    push_str(s, name);
    push_char(s, ':');
    let len: usize = chars.len();
    let fill: usize = if width > len && width - len > 1 { width - len - 1 } else { 0 };
    let ghost start = s@;
    let mut i: usize = 0;
    while i < fill
        invariant
            i <= fill,
            s@ == start + Seq::new(i as nat, |k: int| ' '),
        decreases fill - i,
    {
        push_char(s, ' ');
        i = i + 1;
        assert(s@ =~= start + Seq::new(i as nat, |k: int| ' '));
    }
    assert(s@ =~= old(s)@ + padded(name@.push(':'), width as nat));
}

/// Appends the dots of a stat.
fn push_dots(s: &mut String, current: i64, max: i64)
    ensures
        final(s)@ == old(s)@ + stat_dots(current as int, max as int),
{
    let len: i64 = if current > max { current } else { max };
    let ghost start = s@;
    let mut i: i64 = 0;
    while i < len
        invariant
            0 <= i,
            i <= len || i == 0,
            len == (if current > max { current } else { max }),
            s@ == start + stat_dots(current as int, max as int).take(i as int),
        decreases len - i,
    {
        if i < current && i < max {
            push_char(s, DOT_FILLED);
        } else if i < current {
            push_char(s, DOT_OVERCHARGED);
        } else {
            push_char(s, DOT_EMPTY);
        }
        assert(stat_dots(current as int, max as int).take(i + 1) =~= stat_dots(
            current as int,
            max as int,
        ).take(i as int).push(stat_dots(current as int, max as int)[i as int]));
        i = i + 1;
    }
    assert(stat_dots(current as int, max as int).take(i as int) =~= stat_dots(
        current as int,
        max as int,
    ));
}

/// Appends half of `x` rounded up, as the sheet prints it.
fn push_half_rounded_up(s: &mut String, x: i64)
    requires
        exact_in_f32(x as int),
    ensures
        final(s)@ == old(s)@ + half_rounded_up_text(x as int),
{
    if x == -1 {
        push_str(s, "-0");
        assert(s@ =~= old(s)@ + half_rounded_up_text(x as int)) by {
            reveal_strlit("-0");
        }
    } else if x >= 0 {
        let half: i64 = (x + 1) / 2;
        push_i64(s, half);
    } else {
        let magnitude: i64 = -x;
        let half: i64 = magnitude / 2;
        assert((x + 1) / 2 == -half) by (nonlinear_arith)
            requires
                x < -1,
                magnitude == -x,
                half == magnitude / 2,
        ;
        push_i64(s, -half);
    }
}

/// A combat block opens with two lines: the HP, twice the species' base HP plus vitality,
/// and the Willpower, the insight stat plus 2.
pub proof fn law_combat_block_opens_with_hp_and_willpower(stats: GenericCharacterStats, base_hp: u8)
    requires
        stats.kind == (CharacterStatType::Combat { base_hp }),
    ensures
        ({
            let opening = "HP: "@ + int_text((base_hp + stats.vitality_or_beauty.current) * 2)
                + "\nWillpower: "@ + int_text(stats.insight_or_clever.current + 2) + "\n"@;
            &&& opening.len() <= stats.block_text().len()
            &&& stats.block_text().subrange(0, opening.len() as int) == opening
        }),
{
    reveal_strlit("\n\n");
    reveal_strlit("\n");
    let opening = "HP: "@ + int_text((base_hp + stats.vitality_or_beauty.current) * 2)
        + "\nWillpower: "@ + int_text(stats.insight_or_clever.current + 2) + "\n"@;
    let head = "HP: "@ + int_text((base_hp + stats.vitality_or_beauty.current) * 2)
        + "\nWillpower: "@ + int_text(stats.insight_or_clever.current + 2);
    let t = stats.block_text();
    assert(t.len() >= head.len() + 2);
    assert(t.subrange(0, opening.len() as int) =~= opening);
}

/// A combat block closes with the defenses: half the vitality, rounded up, and half the
/// insight, rounded up, for stats that are not negative.
pub proof fn law_combat_block_closes_with_defenses(stats: GenericCharacterStats, base_hp: u8)
    requires
        stats.kind == (CharacterStatType::Combat { base_hp }),
        stats.vitality_or_beauty.current >= 0,
        stats.insight_or_clever.current >= 0,
    ensures
        ({
            let closing = "\nDefense: "@ + int_text((stats.vitality_or_beauty.current + 1) / 2)
                + "\nSpecial Defense: "@ + int_text((stats.insight_or_clever.current + 1) / 2) + "\n"@;
            let t = stats.block_text();
            &&& closing.len() <= t.len()
            &&& t.subrange(t.len() - closing.len(), t.len() as int) == closing
        }),
{
    let closing = "\nDefense: "@ + int_text((stats.vitality_or_beauty.current + 1) / 2)
        + "\nSpecial Defense: "@ + int_text((stats.insight_or_clever.current + 1) / 2) + "\n"@;
    let t = stats.block_text();
    let opening = "HP: "@ + int_text((base_hp + stats.vitality_or_beauty.current) * 2)
        + "\nWillpower: "@ + int_text(stats.insight_or_clever.current + 2) + "\n\n"@ + stats.stat_block();
    assert(t == opening + closing);
    assert(t.subrange(t.len() - closing.len(), t.len() as int) =~= closing);
}

} // verus!
