//! Wild Pokemon encounters: a random specimen of a species at a level, and its
//! description with the dice of its moves.

use vstd::prelude::*;

use crate::game::{
    gender_name, rank_index, rank_name, type_label, CombatOrSocialStat, Gender,
    MysteryDungeonRank, Pokemon, PokemonStat, PokemonType, SocialStat, Stat,
};
use crate::game::RankedMove;
use crate::random::{choose_item, choose_multiple_strings, random_u8_inclusive, string_views};
use crate::text::{copy_string, lowercase, nat_digits, push_str, push_u64, str_eq, to_lowercase};

verus! {

/// A wild Pokemon of an encounter.
#[derive(Debug)]
pub struct EncounterMon {
    pub name: String,
    pub gender: Gender,
    pub type1: PokemonType,
    pub type2: Option<PokemonType>,
    pub level: u8,
    pub rank: MysteryDungeonRank,
    pub ability: String,
    pub hp: u8,
    pub will: u8,
    pub strength: u8,
    pub dexterity: u8,
    pub vitality: u8,
    pub special: u8,
    pub insight: u8,
    pub tough: u8,
    pub cool: u8,
    pub beauty: u8,
    pub clever: u8,
    pub cute: u8,
    pub moves: Vec<String>,
}

/// The game data of an ability: its name and its effect.
pub struct AbilityData {
    pub name: String,
    pub effect: String,
}

/// What an encounter description reads of a move.
#[derive(Debug)]
pub struct MoveData {
    pub name: String,
    pub typing: PokemonType,
    pub category: String,
    pub target: String,
    pub accuracy1: Option<CombatOrSocialStat>,
    pub accuracy2: Option<CombatOrSocialStat>,
    pub power: u8,
    pub damage1: Option<Stat>,
    pub happiness_damage: Option<Stat>,
    pub effect: Option<String>,
}

/// The social points of a rank: four, and two more for each rank above Bronze.
pub open spec fn social_points_of(rank: MysteryDungeonRank) -> nat {
    4 + 2 * rank_index(rank)
}

/// The rank of a wild Pokemon of the given level; level 0 falls to the last rank.
pub open spec fn rank_of_level(level: u8) -> MysteryDungeonRank {
    if level == 0 {
        MysteryDungeonRank::Diamond
    } else if level <= 1 {
        MysteryDungeonRank::Bronze
    } else if level <= 3 {
        MysteryDungeonRank::Silver
    } else if level <= 7 {
        MysteryDungeonRank::Gold
    } else if level <= 15 {
        MysteryDungeonRank::Platinum
    } else {
        MysteryDungeonRank::Diamond
    }
}

/// Whether a stat is one of the five that can be raised.
pub open spec fn is_base_stat(stat: Stat) -> bool {
    stat is Strength || stat is Dexterity || stat is Vitality || stat is Special || stat is Insight
}

/// The dice a rank adds: one for Bronze up to five for Diamond.
pub open spec fn rank_dice(rank: MysteryDungeonRank) -> int {
    rank_index(rank) as int + 1
}

impl EncounterMon {
    /// The value of a combat stat: Copy counts zero, and StrengthOrSpecial the larger one.
    pub open spec fn stat_value(&self, stat: Stat) -> int {
        match stat {
            Stat::Strength => self.strength as int,
            Stat::Dexterity => self.dexterity as int,
            Stat::Vitality => self.vitality as int,
            Stat::Special => self.special as int,
            Stat::Insight => self.insight as int,
            Stat::Copy => 0,
            Stat::StrengthOrSpecial => if self.strength > self.special {
                self.strength as int
            } else {
                self.special as int
            },
        }
    }

    /// The value of a social stat.
    pub open spec fn social_value(&self, stat: SocialStat) -> int {
        match stat {
            SocialStat::Tough => self.tough as int,
            SocialStat::Cool => self.cool as int,
            SocialStat::Beauty => self.beauty as int,
            SocialStat::Clever => self.clever as int,
            SocialStat::Cute => self.cute as int,
        }
    }

    /// The dice rolled for an accuracy stat: a stat's value, the rank's dice for a skill,
    /// nothing for a copied move, the larger of Tough and Cute, or the beauty missing to 5.
    pub open spec fn dice_for(&self, acc: CombatOrSocialStat) -> int {
        match acc {
            CombatOrSocialStat::Strength => self.strength as int,
            CombatOrSocialStat::Dexterity => self.dexterity as int,
            CombatOrSocialStat::Vitality => self.vitality as int,
            CombatOrSocialStat::Special => self.special as int,
            CombatOrSocialStat::Insight => self.insight as int,
            CombatOrSocialStat::Tough => self.tough as int,
            CombatOrSocialStat::Cool => self.cool as int,
            CombatOrSocialStat::Beauty => self.beauty as int,
            CombatOrSocialStat::Clever => self.clever as int,
            CombatOrSocialStat::Cute => self.cute as int,
            CombatOrSocialStat::Copied => 0,
            CombatOrSocialStat::ToughOrCute => if self.tough > self.cute {
                self.tough as int
            } else {
                self.cute as int
            },
            CombatOrSocialStat::MissingBeauty => 5 - self.beauty,
            _ => rank_dice(self.rank),
        }
    }

    /// The accuracy dice of a move.
    pub open spec fn accuracy_of(&self, m: MoveData) -> int {
        (match m.accuracy1 {
            Some(acc) => self.dice_for(acc),
            None => 0,
        }) + if m.accuracy2 is Some { rank_dice(self.rank) } else { 0 }
    }

    /// The damage dice of a move.
    pub open spec fn damage_of(&self, m: MoveData) -> int {
        m.power + (match m.damage1 {
            Some(stat) => self.stat_value(stat),
            None => 0,
        }) + if m.happiness_damage is Some { rank_dice(self.rank) } else { 0 }
    }

    /// The social points of a rank.
    pub fn calculate_social_points(rank: &MysteryDungeonRank) -> (r: u8)
        ensures
            r == social_points_of(*rank),
    {
        match rank {
            MysteryDungeonRank::Bronze => 4,
            MysteryDungeonRank::Silver => 4 + 2,
            MysteryDungeonRank::Gold => 4 + 4,
            MysteryDungeonRank::Platinum => 4 + 6,
            MysteryDungeonRank::Diamond => 4 + 8,
        }
    }

    /// The rank of a wild Pokemon of the given level.
    pub fn get_rank_from_level(level: u8) -> (r: MysteryDungeonRank)
        ensures
            r == rank_of_level(level),
    {
        if level == 0 {
            MysteryDungeonRank::Diamond
        } else if level <= 1 {
            MysteryDungeonRank::Bronze
        } else if level <= 3 {
            MysteryDungeonRank::Silver
        } else if level <= 7 {
            MysteryDungeonRank::Gold
        } else if level <= 15 {
            MysteryDungeonRank::Platinum
        } else {
            MysteryDungeonRank::Diamond
        }
    }

    /// Raises one of the five base stats by one.
    pub fn increase_stat(&mut self, stat: &Stat)
        requires
            is_base_stat(*stat),
            old(self).stat_value(*stat) < 255,
        ensures
            final(self).strength == old(self).strength + if *stat == Stat::Strength { 1int } else { 0 },
            final(self).dexterity == old(self).dexterity + if *stat == Stat::Dexterity { 1int } else { 0 },
            final(self).vitality == old(self).vitality + if *stat == Stat::Vitality { 1int } else { 0 },
            final(self).special == old(self).special + if *stat == Stat::Special { 1int } else { 0 },
            final(self).insight == old(self).insight + if *stat == Stat::Insight { 1int } else { 0 },
            final(self).moves == old(self).moves,
            final(self).name == old(self).name,
            final(self).ability == old(self).ability,
            final(self).gender == old(self).gender,
            final(self).type1 == old(self).type1,
            final(self).type2 == old(self).type2,
            final(self).level == old(self).level,
            final(self).rank == old(self).rank,
            final(self).hp == old(self).hp,
            final(self).will == old(self).will,
            final(self).tough == old(self).tough,
            final(self).cool == old(self).cool,
            final(self).beauty == old(self).beauty,
            final(self).clever == old(self).clever,
            final(self).cute == old(self).cute,
    {
        match stat {
            Stat::Strength => self.strength = self.strength + 1,
            Stat::Dexterity => self.dexterity = self.dexterity + 1,
            Stat::Vitality => self.vitality = self.vitality + 1,
            Stat::Special => self.special = self.special + 1,
            Stat::Insight => self.insight = self.insight + 1,
            _ => {},
        }
    }

    /// Raises one social stat by one.
    pub fn increase_social_stat(&mut self, stat: &SocialStat)
        requires
            old(self).social_value(*stat) < 255,
        ensures
            final(self).tough == old(self).tough + if *stat == SocialStat::Tough { 1int } else { 0 },
            final(self).cool == old(self).cool + if *stat == SocialStat::Cool { 1int } else { 0 },
            final(self).beauty == old(self).beauty + if *stat == SocialStat::Beauty { 1int } else { 0 },
            final(self).clever == old(self).clever + if *stat == SocialStat::Clever { 1int } else { 0 },
            final(self).cute == old(self).cute + if *stat == SocialStat::Cute { 1int } else { 0 },
            final(self).moves == old(self).moves,
            final(self).name == old(self).name,
            final(self).ability == old(self).ability,
            final(self).gender == old(self).gender,
            final(self).type1 == old(self).type1,
            final(self).type2 == old(self).type2,
            final(self).level == old(self).level,
            final(self).rank == old(self).rank,
            final(self).hp == old(self).hp,
            final(self).will == old(self).will,
            final(self).strength == old(self).strength,
            final(self).dexterity == old(self).dexterity,
            final(self).vitality == old(self).vitality,
            final(self).special == old(self).special,
            final(self).insight == old(self).insight,
    {
        match stat {
            SocialStat::Tough => self.tough = self.tough + 1,
            SocialStat::Cool => self.cool = self.cool + 1,
            SocialStat::Beauty => self.beauty = self.beauty + 1,
            SocialStat::Clever => self.clever = self.clever + 1,
            SocialStat::Cute => self.cute = self.cute + 1,
        }
    }

    /// The value of a combat stat.
    pub fn get_stat(&self, stat: &Stat) -> (r: u8)
        ensures
            r == self.stat_value(*stat),
    {
        match stat {
            Stat::Strength => self.strength,
            Stat::Dexterity => self.dexterity,
            Stat::Vitality => self.vitality,
            Stat::Special => self.special,
            Stat::Insight => self.insight,
            Stat::Copy => 0,
            Stat::StrengthOrSpecial => {
                if self.strength > self.special {
                    self.strength
                } else {
                    self.special
                }
            },
        }
    }

    /// The value of a social stat.
    pub fn get_social_stat(&self, stat: &SocialStat) -> (r: u8)
        ensures
            r == self.social_value(*stat),
    {
        match stat {
            SocialStat::Tough => self.tough,
            SocialStat::Cool => self.cool,
            SocialStat::Beauty => self.beauty,
            SocialStat::Clever => self.clever,
            SocialStat::Cute => self.cute,
        }
    }

    /// The dice rolled for an accuracy stat.
    pub fn get_die_count_for_stat(&self, acc: CombatOrSocialStat) -> (r: u8)
        requires
            acc is MissingBeauty ==> self.beauty <= 5,
        ensures
            r == self.dice_for(acc),
    {
        match acc {
            CombatOrSocialStat::Strength => self.strength,
            CombatOrSocialStat::Dexterity => self.dexterity,
            CombatOrSocialStat::Vitality => self.vitality,
            CombatOrSocialStat::Special => self.special,
            CombatOrSocialStat::Insight => self.insight,
            CombatOrSocialStat::Tough => self.tough,
            CombatOrSocialStat::Cool => self.cool,
            CombatOrSocialStat::Beauty => self.beauty,
            CombatOrSocialStat::Clever => self.clever,
            CombatOrSocialStat::Cute => self.cute,
            CombatOrSocialStat::Copied => 0,
            CombatOrSocialStat::ToughOrCute => {
                if self.tough > self.cute {
                    self.tough
                } else {
                    self.cute
                }
            },
            CombatOrSocialStat::MissingBeauty => 5 - self.beauty,
            _ => self.rank.die_count(),
        }
    }

    /// The accuracy dice of a move: its accuracy stat, plus the rank's dice where the
    /// move adds a skill.
    pub fn calculate_accuracy(&self, m: &MoveData) -> (r: u8)
        requires
            m.accuracy1 == Some(CombatOrSocialStat::MissingBeauty) ==> self.beauty <= 5,
            self.accuracy_of(*m) <= 255,
        ensures
            r == self.accuracy_of(*m),
    {
        let mut result: u8 = 0;
        if let Some(acc) = m.accuracy1 {
            result = result + self.get_die_count_for_stat(acc);
        }
        if m.accuracy2.is_some() {
            result = result + self.rank.die_count();
        }
        result
    }

    /// The damage dice of a move: its power, its damage stat, plus the rank's dice where
    /// happiness adds to the damage.
    pub fn calculate_damage(&self, m: &MoveData) -> (r: u8)
        requires
            self.damage_of(*m) <= 255,
        ensures
            r == self.damage_of(*m),
    {
        let mut result: u8 = m.power;
        if let Some(stat) = m.damage1 {
            result = result + self.get_stat(&stat);
        }
        if m.happiness_damage.is_some() {
            result = result + self.rank.die_count();
        }
        result
    }
}

/// A number right-aligned to two places, as `{:>2}` writes it.
pub open spec fn right_aligned_2(n: nat) -> Seq<char> {
    if n < 10 {
        seq![' '] + nat_digits(n)
    } else {
        nat_digits(n)
    }
}

/// One line of the stat table: a combat stat with the species' maximum, and a social
/// stat out of 5.
pub open spec fn stat_table_line(abbr: Seq<char>, value: u8, max: u8, social: Seq<char>, social_value: u8) -> Seq<char> {
    abbr + ": "@ + right_aligned_2(value as nat) + " / "@ + right_aligned_2(max as nat) + "      "@
        + social + nat_digits(social_value as nat) + " / 5\n"@
}

impl EncounterMon {
    /// The first lines: name, gender, level and rank, then the types.
    pub open spec fn title_text(&self) -> Seq<char> {
        self.name@ + " ("@ + gender_name(self.gender) + ") | **Lv."@ + nat_digits(self.level as nat) + " ("@
            + rank_name(self.rank) + ")**\n"@ + match self.type2 {
            Some(t2) => "**Types**: "@ + type_label(self.type1) + " / "@ + type_label(t2) + seq!['\n'],
            None => "**Type**: "@ + type_label(self.type1) + seq!['\n'],
        }
    }

    /// The stat table in a code block.
    pub open spec fn stat_table(&self, pokemon: Pokemon) -> Seq<char> {
        "```\nHP: "@ + nat_digits(((self.vitality + pokemon.base_hp) * 2) as nat) + "  |  Def: "@
            + nat_digits(((self.vitality + 1) / 2) as nat) + "  |  SpDef: "@
            + nat_digits(((self.insight + 1) / 2) as nat) + seq!['\n']
            + stat_table_line("STR"@, self.strength, pokemon.strength.max, "Tough:  "@, self.tough)
            + stat_table_line("DEX"@, self.dexterity, pokemon.dexterity.max, "Cool:   "@, self.cool)
            + stat_table_line("VIT"@, self.vitality, pokemon.vitality.max, "Beauty: "@, self.beauty)
            + stat_table_line("SPE"@, self.special, pokemon.special.max, "Clever: "@, self.clever)
            + stat_table_line("INS"@, self.insight, pokemon.insight.max, "Cute:   "@, self.cute) + "```"@
    }

    /// The line of a move's dice: copied moves roll what they copy, moves without damage
    /// only their accuracy, and moves of the Pokemon's own type get the STAB bonus.
    pub open spec fn dice_line(&self, m: MoveData) -> Seq<char> {
        if m.damage1 == Some(Stat::Copy) {
            "ACC: **Copy** | DMG: **Copy** \n"@
        } else if self.damage_of(m) > 0 {
            "ACC: **"@ + nat_digits(self.accuracy_of(m) as nat) + "** | DMG: **"@
                + nat_digits(self.damage_of(m) as nat) + if m.typing == self.type1 || Some(m.typing)
                == self.type2 {
                " + STAB**\n"@
            } else {
                "**\n"@
            }
        } else {
            "ACC: **"@ + nat_digits(self.accuracy_of(m) as nat) + "**\n"@
        }
    }

    /// The description of one move.
    pub open spec fn move_text(&self, m: MoveData) -> Seq<char> {
        "**"@ + m.name@ + "** – "@ + type_label(m.typing) + " | "@ + m.category@ + " | "@ + m.target@
            + seq!['\n'] + self.dice_line(m) + match m.effect {
            Some(e) => e@ + "\n\n"@,
            None => seq!['\n'],
        }
    }

    /// The descriptions of the moves, one after the other.
    pub open spec fn moves_text(&self, moves: Seq<MoveData>) -> Seq<char>
        decreases moves.len(),
    {
        if moves.len() == 0 {
            Seq::empty()
        } else {
            self.moves_text(moves.drop_last()) + self.move_text(moves.last())
        }
    }

    /// The whole description of the Pokemon.
    pub open spec fn description(&self, pokemon: Pokemon, ability_effect: Seq<char>, moves: Seq<MoveData>) -> Seq<char> {
        self.title_text() + self.stat_table(pokemon) + "**Ability**: "@ + self.ability@ + "\n*"@
            + ability_effect + "*\n"@ + "## Moves\n"@ + self.moves_text(moves)
    }

    /// Whether the dice of a move can be counted in a `u8`.
    pub open spec fn move_countable(&self, m: MoveData) -> bool {
        m.damage1 != Some(Stat::Copy) ==> {
            &&& self.accuracy_of(m) <= 255
            &&& self.damage_of(m) <= 255
            &&& m.accuracy1 == Some(CombatOrSocialStat::MissingBeauty) ==> self.beauty <= 5
        }
    }

    #[verifier::rlimit(40)]
    fn push_title(&self, s: &mut String)
        ensures
            final(s)@ == old(s)@ + self.title_text(),
    {
        push_str(s, self.name.as_str());
        push_str(s, " (");
        push_str(s, self.gender.name());
        push_str(s, ") | **Lv.");
        push_u64(s, self.level as u64);
        push_str(s, " (");
        push_str(s, self.rank.name());
        push_str(s, ")**\n");
        match self.type2 {
            Some(t2) => {
                push_str(s, "**Types**: ");
                push_str(s, self.type1.name());
                push_str(s, " / ");
                push_str(s, t2.name());
                push_str(s, "\n");
            },
            None => {
                push_str(s, "**Type**: ");
                push_str(s, self.type1.name());
                push_str(s, "\n");
            },
        }
        proof {
            reveal_strlit("\n");
        }
        assert(s@ =~= old(s)@ + self.title_text());
    }

    #[verifier::rlimit(40)]
    fn push_stat_table(&self, s: &mut String, pokemon: &Pokemon)
        requires
            (self.vitality + pokemon.base_hp) * 2 <= 255,
        ensures
            final(s)@ == old(s)@ + self.stat_table(*pokemon),
    {
        push_str(s, "```\nHP: ");
        push_u64(s, ((self.vitality + pokemon.base_hp) * 2) as u64);
        push_str(s, "  |  Def: ");
        push_u64(s, ((self.vitality as u64) + 1) / 2);
        push_str(s, "  |  SpDef: ");
        push_u64(s, ((self.insight as u64) + 1) / 2);
        push_str(s, "\n");
        proof {
            reveal_strlit("\n");
        }
        let ghost head = s@;
        assert(head =~= old(s)@ + "```\nHP: "@ + nat_digits(((self.vitality + pokemon.base_hp) * 2) as nat)
            + "  |  Def: "@ + nat_digits(((self.vitality + 1) / 2) as nat) + "  |  SpDef: "@
            + nat_digits(((self.insight + 1) / 2) as nat) + seq!['\n']);
        push_table_line(s, "STR", self.strength, pokemon.strength.max, "Tough:  ", self.tough);
        push_table_line(s, "DEX", self.dexterity, pokemon.dexterity.max, "Cool:   ", self.cool);
        push_table_line(s, "VIT", self.vitality, pokemon.vitality.max, "Beauty: ", self.beauty);
        push_table_line(s, "SPE", self.special, pokemon.special.max, "Clever: ", self.clever);
        push_table_line(s, "INS", self.insight, pokemon.insight.max, "Cute:   ", self.cute);
        push_str(s, "```");
        assert(s@ =~= old(s)@ + self.stat_table(*pokemon));
    }

    fn push_dice_line(&self, s: &mut String, m: &MoveData)
        requires
            self.move_countable(*m),
        ensures
            final(s)@ == old(s)@ + self.dice_line(*m),
    {
        if m.damage1 == Some(Stat::Copy) {
            push_str(s, "ACC: **Copy** | DMG: **Copy** \n");
        } else {
            let accuracy = self.calculate_accuracy(m);
            let damage = self.calculate_damage(m);
            if damage > 0 {
                push_str(s, "ACC: **");
                push_u64(s, accuracy as u64);
                push_str(s, "** | DMG: **");
                push_u64(s, damage as u64);
                if m.typing == self.type1 || Some(m.typing) == self.type2 {
                    push_str(s, " + STAB**\n");
                } else {
                    push_str(s, "**\n");
                }
            } else {
                push_str(s, "ACC: **");
                push_u64(s, accuracy as u64);
                push_str(s, "**\n");
            }
        }
        assert(s@ =~= old(s)@ + self.dice_line(*m));
    }

    fn push_move(&self, s: &mut String, m: &MoveData)
        requires
            self.move_countable(*m),
        ensures
            final(s)@ == old(s)@ + self.move_text(*m),
    {
        proof {
            reveal_strlit("\n");
        }
        push_str(s, "**");
        push_str(s, m.name.as_str());
        push_str(s, "** – ");
        push_str(s, m.typing.name());
        push_str(s, " | ");
        push_str(s, m.category.as_str());
        push_str(s, " | ");
        push_str(s, m.target.as_str());
        push_str(s, "\n");
        let ghost head = s@;
        self.push_dice_line(s, m);
        assert(s@ =~= head + self.dice_line(*m));
        let ghost mid = s@;
        match &m.effect {
            Some(e) => {
                push_str(s, e.as_str());
                push_str(s, "\n\n");
            },
            None => push_str(s, "\n"),
        }
        assert(s@ =~= old(s)@ + self.move_text(*m));
    }

    /// The description of an encountered Pokemon: its stats against the species'
    /// maxima, its ability with the ability's effect, and the dice of each of its moves.
    /// `ability` is the game data of its ability, and `moves` the game data of its moves,
    /// in their order; each is found by its name, case ignored.
    pub fn build_string(&self, pokemon: &Pokemon, ability: &AbilityData, moves: &Vec<MoveData>) -> (s: String)
        requires
            (self.vitality + pokemon.base_hp) * 2 <= 255,
            lowercase(ability.name@) == lowercase(self.ability@),
            moves.len() == self.moves.len(),
            forall|k: int| 0 <= k < moves.len() ==> lowercase((#[trigger] moves@[k]).name@) == lowercase(self.moves@[k]@),
            forall|k: int| 0 <= k < moves.len() ==> self.move_countable(#[trigger] moves@[k]),
        ensures
            s@ == self.description(*pokemon, ability.effect@, moves@),
    {
        let ability_effect = ability.effect.as_str();
        let mut result = String::new();
        self.push_title(&mut result);
        self.push_stat_table(&mut result, pokemon);
        push_str(&mut result, "**Ability**: ");
        push_str(&mut result, self.ability.as_str());
        push_str(&mut result, "\n*");
        push_str(&mut result, ability_effect);
        push_str(&mut result, "*\n");
        push_str(&mut result, "## Moves\n");
        let ghost head = result@;
        let mut i: usize = 0;
        while i < moves.len()
            invariant
                i <= moves.len(),
                result@ == head + self.moves_text(moves@.subrange(0, i as int)),
                forall|k: int| 0 <= k < moves.len() ==> self.move_countable(#[trigger] moves@[k]),
            decreases moves.len() - i,
        {
            self.push_move(&mut result, &moves[i]);
            assert(moves@.subrange(0, i + 1).drop_last() =~= moves@.subrange(0, i as int));
            i = i + 1;
        }
        assert(moves@.subrange(0, i as int) =~= moves@);
        result
    }
}

pub(crate) fn push_right_aligned_2(s: &mut String, n: u8)
    ensures
        final(s)@ == old(s)@ + right_aligned_2(n as nat),
{
    if n < 10 {
        push_str(s, " ");
        proof {
            reveal_strlit(" ");
        }
    }
    push_u64(s, n as u64);
}

fn push_table_line(s: &mut String, abbr: &str, value: u8, max: u8, social: &str, social_value: u8)
    ensures
        final(s)@ == old(s)@ + stat_table_line(abbr@, value, max, social@, social_value),
{
    push_str(s, abbr);
    push_str(s, ": ");
    push_right_aligned_2(s, value);
    push_str(s, " / ");
    push_right_aligned_2(s, max);
    push_str(s, "      ");
    push_str(s, social);
    push_u64(s, social_value as u64);
    push_str(s, " / 5\n");
    assert(s@ =~= old(s)@ + stat_table_line(abbr@, value, max, social@, social_value));
}

/// The species' range of one of the five base stats.
pub open spec fn species_stat(p: Pokemon, s: Stat) -> PokemonStat {
    match s {
        Stat::Dexterity => p.dexterity,
        Stat::Vitality => p.vitality,
        Stat::Special => p.special,
        Stat::Insight => p.insight,
        _ => p.strength,
    }
}

/// The points put into the five base stats above the species' minima.
pub open spec fn combat_increase(m: EncounterMon, p: Pokemon) -> int {
    (m.strength - p.strength.min) + (m.dexterity - p.dexterity.min) + (m.vitality - p.vitality.min)
        + (m.special - p.special.min) + (m.insight - p.insight.min)
}

/// The points that fit between the species' minima and maxima.
pub open spec fn combat_capacity(p: Pokemon) -> int {
    (p.strength.max - p.strength.min) + (p.dexterity.max - p.dexterity.min) + (p.vitality.max
        - p.vitality.min) + (p.special.max - p.special.min) + (p.insight.max - p.insight.min)
}

/// Whether every base stat of the species has room above its minimum.
pub open spec fn ranges_open(p: Pokemon) -> bool {
    &&& p.strength.min < p.strength.max
    &&& p.dexterity.min < p.dexterity.max
    &&& p.vitality.min < p.vitality.max
    &&& p.special.min < p.special.max
    &&& p.insight.min < p.insight.max
}

/// The points that `n` limit breaks cost together: two for the first, and one more for
/// each further one (2 + 3 + ... + (n + 1)).
pub open spec fn limit_break_points(n: nat) -> int
    decreases n,
{
    if n == 0 {
        0
    } else {
        limit_break_points((n - 1) as nat) + n + 1
    }
}

/// Whether `n` limit breaks are what `points` buy once every stat is at its maximum: a
/// further break is bought only while more points are left than it costs.
pub open spec fn is_limit_break_count(points: int, n: int) -> bool {
    &&& n >= 0
    &&& (n == 0 || limit_break_points(n as nat) < points)
    &&& limit_break_points((n + 1) as nat) >= points
}

/// Whether every base stat is at its species' maximum or above.
pub open spec fn all_at_least_max(m: EncounterMon, p: Pokemon) -> bool {
    &&& m.strength >= p.strength.max
    &&& m.dexterity >= p.dexterity.max
    &&& m.vitality >= p.vitality.max
    &&& m.special >= p.special.max
    &&& m.insight >= p.insight.max
}

/// Whether every base stat is at its species' maximum or below.
pub open spec fn all_at_most_max(m: EncounterMon, p: Pokemon) -> bool {
    &&& m.strength <= p.strength.max
    &&& m.dexterity <= p.dexterity.max
    &&& m.vitality <= p.vitality.max
    &&& m.special <= p.special.max
    &&& m.insight <= p.insight.max
}

/// The points put into the social stats above 1.
pub open spec fn social_increase(m: EncounterMon) -> int {
    (m.tough - 1) + (m.cool - 1) + (m.beauty - 1) + (m.clever - 1) + (m.cute - 1)
}

/// The names of the moves learned at the given rank or below, in order.
pub open spec fn moves_up_to(moves: Seq<RankedMove>, rank: MysteryDungeonRank) -> Seq<Seq<char>>
    decreases moves.len(),
{
    if moves.len() == 0 {
        Seq::empty()
    } else {
        moves_up_to(moves.drop_last(), rank) + if rank_index(moves.last().rank) <= rank_index(rank) {
            seq![moves.last().name@]
        } else {
            Seq::empty()
        }
    }
}

/// The ability for a roll from 0 to 99: the hidden ability above 95, the second one
/// above 43, where the species has them, and else the first.
pub open spec fn ability_for(p: Pokemon, roll: u8) -> Seq<char> {
    if roll > 95 && p.hidden_ability is Some {
        p.hidden_ability->0@
    } else if roll > 43 && p.ability2 is Some {
        p.ability2->0@
    } else {
        p.ability1@
    }
}

/// Whether no random outcome can overflow a stat: each stat gains at most one point per
/// point to spend, and HP is twice the base HP and vitality.
pub open spec fn encounter_fits(p: Pokemon, level: u8) -> bool {
    &&& p.strength.min + level + 3 <= 255
    &&& p.dexterity.min + level + 3 <= 255
    &&& p.special.min + level + 3 <= 255
    &&& p.insight.min + level + 5 <= 255
    &&& 2 * (p.base_hp + p.vitality.min + level + 3) <= 255
}

/// What holds of every wild Pokemon of a species at a level (see
/// `EncounterMon::from_pokemon`): the species' name and types, the level and its rank, an
/// ability of the species as a roll from 0 to 99 picks it, `level + 3` combat points spent
/// from the species' minima (filling every stat and then buying limit breaks where the
/// ranges are open and too small), the rank's social points with every social stat from 1
/// to 5, HP and Will from the stats, and up to `insight + 2` moves of its rank or below.
pub open spec fn is_encounter_of(r: EncounterMon, p: Pokemon, level: u8) -> bool {
    &&& r.name@ == p.name@
    &&& r.type1 == p.type1
    &&& r.type2 == p.type2
    &&& r.level == level
    &&& r.rank == rank_of_level(level)
    &&& exists|roll: u8| roll <= 99 && r.ability@ == ability_for(p, roll)
    &&& r.strength >= p.strength.min
    &&& r.dexterity >= p.dexterity.min
    &&& r.vitality >= p.vitality.min
    &&& r.special >= p.special.min
    &&& r.insight >= p.insight.min
    &&& combat_increase(r, p) <= level + 3
    &&& ranges_open(p) && combat_capacity(p) >= level + 3 ==> {
        &&& combat_increase(r, p) == level + 3
        &&& r.strength <= p.strength.max
        &&& r.dexterity <= p.dexterity.max
        &&& r.vitality <= p.vitality.max
        &&& r.special <= p.special.max
        &&& r.insight <= p.insight.max
    }
    &&& ranges_open(p) && combat_capacity(p) < level + 3 ==> {
        &&& all_at_least_max(r, p)
        &&& is_limit_break_count(level + 3 - combat_capacity(p), combat_increase(r, p) - combat_capacity(p))
    }
    &&& 1 <= r.tough <= 5
    &&& 1 <= r.cool <= 5
    &&& 1 <= r.beauty <= 5
    &&& 1 <= r.clever <= 5
    &&& 1 <= r.cute <= 5
    &&& social_increase(r) == social_points_of(r.rank)
    &&& r.hp == (p.base_hp + r.vitality) * 2
    &&& r.will == r.insight + 2
    &&& r.moves.len() == if moves_up_to(p.moves_by_rank@, r.rank).len() < r.insight + 2 {
        moves_up_to(p.moves_by_rank@, r.rank).len()
    } else {
        (r.insight + 2) as nat
    }
    &&& string_views(r.moves@).to_multiset().subset_of(
        moves_up_to(p.moves_by_rank@, r.rank).to_multiset(),
    )
}

/// The phenotype for a roll: male for 0, female otherwise.
pub open spec fn gender_of_roll(roll: u8) -> Gender {
    if roll == 0 { Gender::Male } else { Gender::Female }
}

impl EncounterMon {
    /// The ability for a roll from 0 to 99.
    pub fn ability_for_roll(pokemon: &Pokemon, roll: u8) -> (r: String)
        ensures
            r@ == ability_for(*pokemon, roll),
    {
        if roll > 95 {
            if let Some(result) = &pokemon.hidden_ability {
                return copy_string(result);
            }
        }
        if roll > 43 {
            if let Some(result) = &pokemon.ability2 {
                return copy_string(result);
            }
        }
        copy_string(&pokemon.ability1)
    }

    /// A random ability of the species, its hidden one rarest.
    pub fn get_random_ability(pokemon: &Pokemon) -> (r: String)
        ensures
            exists|roll: u8| roll <= 99 && r@ == ability_for(*pokemon, roll),
    {
        let roll = random_u8_inclusive(0, 99);
        Self::ability_for_roll(pokemon, roll)
    }

    /// The phenotype for a roll of 0 or 1: male for 0, female otherwise.
    pub fn gender_for_roll(roll: u8) -> (g: Gender)
        ensures
            g == gender_of_roll(roll),
    {
        if roll == 0 {
            Gender::Male
        } else {
            Gender::Female
        }
    }

    /// A random phenotype, either one as likely: that of a roll of 0 or 1.
    pub fn get_random_gender(_pokemon: &Pokemon) -> (g: Gender)
        ensures
            exists|roll: u8| roll <= 1 && g == gender_of_roll(roll),
    {
        let roll = random_u8_inclusive(0, 1);
        Self::gender_for_roll(roll)
    }

    /// A random specimen of a species at a level. It starts at the species' minima and
    /// at 1 in each social stat, and gets `level + 3` points to spread at random: each
    /// point raises a stat below its maximum, and once all are at their maximum, each
    /// further stat raise (a limit break) costs two points plus one for each earlier one.
    /// It gets its rank's social points, none above 5, and up to `insight + 2` random
    /// moves of its rank or below.
    pub fn from_pokemon(pokemon: &Pokemon, level: u8) -> (r: Self)
        requires
            encounter_fits(*pokemon, level),
        ensures
            is_encounter_of(r, *pokemon, level),
    {
        let gender = Self::get_random_gender(pokemon);
        let ability = Self::get_random_ability(pokemon);
        let rank = Self::get_rank_from_level(level);
        let mut result = EncounterMon {
            name: copy_string(&pokemon.name),
            gender,
            type1: pokemon.type1,
            type2: pokemon.type2,
            level,
            rank,
            ability,
            hp: 0,
            will: 0,
            strength: pokemon.strength.min,
            dexterity: pokemon.dexterity.min,
            vitality: pokemon.vitality.min,
            special: pokemon.special.min,
            insight: pokemon.insight.min,
            tough: 1,
            cool: 1,
            beauty: 1,
            clever: 1,
            cute: 1,
            moves: Vec::new(),
        };
        spend_combat_points(&mut result, pokemon, level);
        spend_social_points(&mut result);
        result.hp = (pokemon.base_hp + result.vitality) * 2;
        result.will = result.insight + 2;
        let available = moves_available_at(pokemon, &result.rank);
        let move_count = result.insight + 2;
        result.moves = choose_multiple_strings(available, move_count as usize);
        result
    }
}

/// The specimens of an encounter: `amount` of them, one if no amount is given, each
/// drawn as `EncounterMon::from_pokemon` draws it.
pub fn build_encounter(pokemon: &Pokemon, level: u8, amount: Option<u8>) -> (r: Vec<EncounterMon>)
    requires
        encounter_fits(*pokemon, level),
    ensures
        r.len() == match amount {
            Some(n) => n,
            None => 1,
        },
        forall|i: int| 0 <= i < r.len() ==> is_encounter_of(#[trigger] r@[i], *pokemon, level),
{
    let count: u8 = match amount {
        Some(n) => n,
        None => 1,
    };
    let mut result: Vec<EncounterMon> = Vec::new();
    let mut i: u8 = 0;
    while i < count
        invariant
            i <= count,
            encounter_fits(*pokemon, level),
            result.len() == i,
            forall|j: int| 0 <= j < result.len() ==> is_encounter_of(#[trigger] result@[j], *pokemon, level),
        decreases count - i,
    {
        result.push(EncounterMon::from_pokemon(pokemon, level));
        i = i + 1;
    }
    result
}

/// The position of the first ability whose lowercase name is `key`.
pub open spec fn ability_index(abilities: Seq<AbilityData>, key: Seq<char>) -> Option<int>
    decreases abilities.len(),
{
    if abilities.len() == 0 {
        None
    } else if lowercase(abilities[0].name@) == key {
        Some(0)
    } else {
        match ability_index(abilities.drop_first(), key) {
            Some(i) => Some(i + 1),
            None => None,
        }
    }
}

/// The position of the first move whose lowercase name is `key`.
pub open spec fn move_index(moves: Seq<MoveData>, key: Seq<char>) -> Option<int>
    decreases moves.len(),
{
    if moves.len() == 0 {
        None
    } else if lowercase(moves[0].name@) == key {
        Some(0)
    } else {
        match move_index(moves.drop_first(), key) {
            Some(i) => Some(i + 1),
            None => None,
        }
    }
}

/// The game data of each named move, found by its lowercase name, in order; `None` where
/// one is missing.
pub open spec fn moves_found(names: Seq<String>, data: Seq<MoveData>) -> Option<Seq<MoveData>>
    decreases names.len(),
{
    if names.len() == 0 {
        Some(Seq::empty())
    } else {
        match (moves_found(names.drop_last(), data), move_index(data, lowercase(names.last()@))) {
            (Some(found), Some(i)) => Some(found.push(data[i])),
            _ => None,
        }
    }
}

proof fn lemma_ability_index(abilities: Seq<AbilityData>, key: Seq<char>, i: int)
    requires
        0 <= i <= abilities.len(),
        forall|j: int| 0 <= j < i ==> lowercase((#[trigger] abilities[j]).name@) != key,
    ensures
        i < abilities.len() && lowercase(abilities[i].name@) == key ==> ability_index(abilities, key) == Some(i),
        i == abilities.len() ==> ability_index(abilities, key) is None,
    decreases abilities.len(),
{
    if abilities.len() > 0 && i > 0 {
        let rest = abilities.drop_first();
        assert(lowercase(abilities[0].name@) != key);
        assert forall|j: int| 0 <= j < i - 1 implies lowercase((#[trigger] rest[j]).name@) != key by {
            assert(rest[j] == abilities[j + 1]);
        }
        lemma_ability_index(rest, key, i - 1);
    }
}

proof fn lemma_move_index(moves: Seq<MoveData>, key: Seq<char>, i: int)
    requires
        0 <= i <= moves.len(),
        forall|j: int| 0 <= j < i ==> lowercase((#[trigger] moves[j]).name@) != key,
    ensures
        i < moves.len() && lowercase(moves[i].name@) == key ==> move_index(moves, key) == Some(i),
        i == moves.len() ==> move_index(moves, key) is None,
    decreases moves.len(),
{
    if moves.len() > 0 && i > 0 {
        let rest = moves.drop_first();
        assert(lowercase(moves[0].name@) != key);
        assert forall|j: int| 0 <= j < i - 1 implies lowercase((#[trigger] rest[j]).name@) != key by {
            assert(rest[j] == moves[j + 1]);
        }
        lemma_move_index(rest, key, i - 1);
    }
}

/// The position of the first ability whose lowercase name is `key`.
fn find_ability(abilities: &Vec<AbilityData>, key: &str) -> (r: Option<usize>)
    ensures
        match ability_index(abilities@, key@) {
            Some(i) => r matches Some(j) && j as int == i,
            None => r is None,
        },
        r matches Some(i) ==> i < abilities.len(),
{
    let mut i: usize = 0;
    while i < abilities.len()
        invariant
            i <= abilities.len(),
            forall|j: int| 0 <= j < i ==> lowercase((#[trigger] abilities@[j]).name@) != key@,
        decreases abilities.len() - i,
    {
        let lower = to_lowercase(abilities[i].name.as_str());
        if str_eq(lower.as_str(), key) {
            proof {
                lemma_ability_index(abilities@, key@, i as int);
            }
            return Some(i);
        }
        i = i + 1;
    }
    proof {
        lemma_ability_index(abilities@, key@, i as int);
    }
    None
}

/// The position of the first move whose lowercase name is `key`.
fn find_move(moves: &Vec<MoveData>, key: &str) -> (r: Option<usize>)
    ensures
        match move_index(moves@, key@) {
            Some(i) => r matches Some(j) && j as int == i,
            None => r is None,
        },
        r matches Some(i) ==> i < moves.len(),
{
    let mut i: usize = 0;
    while i < moves.len()
        invariant
            i <= moves.len(),
            forall|j: int| 0 <= j < i ==> lowercase((#[trigger] moves@[j]).name@) != key@,
        decreases moves.len() - i,
    {
        let lower = to_lowercase(moves[i].name.as_str());
        if str_eq(lower.as_str(), key) {
            proof {
                lemma_move_index(moves@, key@, i as int);
            }
            return Some(i);
        }
        i = i + 1;
    }
    proof {
        lemma_move_index(moves@, key@, i as int);
    }
    None
}

impl EncounterMon {
    /// The description of an encountered Pokemon from the game data: its ability and each
    /// of its moves are found by their lowercase names; `None` where one is missing.
    pub fn describe_encounter(&self, pokemon: &Pokemon, abilities: &Vec<AbilityData>, moves: &Vec<MoveData>) -> (r: Option<String>)
        requires
            (self.vitality + pokemon.base_hp) * 2 <= 255,
            forall|k: int| 0 <= k < moves.len() ==> self.move_countable(#[trigger] moves@[k]),
        ensures
            match (ability_index(abilities@, lowercase(self.ability@)), moves_found(self.moves@, moves@)) {
                (Some(a), Some(found)) => r is Some && r->0@ == self.description(*pokemon, abilities@[a].effect@, found),
                _ => r is None,
            },
    {
        let key = to_lowercase(self.ability.as_str());
        let a = match find_ability(abilities, key.as_str()) {
            Some(a) => a,
            None => {
                return None;
            },
        };
        let mut result = String::new();
        self.push_title(&mut result);
        self.push_stat_table(&mut result, pokemon);
        push_str(&mut result, "**Ability**: ");
        push_str(&mut result, self.ability.as_str());
        push_str(&mut result, "\n*");
        push_str(&mut result, abilities[a].effect.as_str());
        push_str(&mut result, "*\n");
        push_str(&mut result, "## Moves\n");
        let ghost head = result@;
        let mut i: usize = 0;
        assert(self.moves@.subrange(0, 0) =~= Seq::<String>::empty());
        while i < self.moves.len()
            invariant
                i <= self.moves.len(),
                forall|k: int| 0 <= k < moves.len() ==> self.move_countable(#[trigger] moves@[k]),
                moves_found(self.moves@.subrange(0, i as int), moves@) is Some,
                a < abilities.len(),
                ability_index(abilities@, lowercase(self.ability@)) == Some(a as int),
                head == self.title_text() + self.stat_table(*pokemon) + "**Ability**: "@ + self.ability@ + "\n*"@
                    + abilities@[a as int].effect@ + "*\n"@ + "## Moves\n"@,
                result@ == head + self.moves_text(moves_found(self.moves@.subrange(0, i as int), moves@)->0),
            decreases self.moves.len() - i,
        {
            let ghost prefix = self.moves@.subrange(0, i + 1);
            assert(prefix.drop_last() =~= self.moves@.subrange(0, i as int));
            assert(prefix.last() == self.moves@[i as int]);
            let move_key = to_lowercase(self.moves[i].as_str());
            match find_move(moves, move_key.as_str()) {
                Some(m) => {
                    self.push_move(&mut result, &moves[m]);
                    proof {
                        assert(move_index(moves@, lowercase(prefix.last()@)) == Some(m as int));
                        let found = moves_found(self.moves@.subrange(0, i as int), moves@)->0;
                        assert(moves_found(prefix, moves@) == Some(found.push(moves@[m as int])));
                        assert(found.push(moves@[m as int]).drop_last() =~= found);
                    }
                },
                None => {
                    proof {
                        assert(move_index(moves@, lowercase(prefix.last()@)) is None);
                        assert(moves_found(prefix, moves@) is None);
                        lemma_moves_found_none(self.moves@, moves@, i as int + 1);
                    }
                    return None;
                },
            }
            i = i + 1;
        }
        assert(self.moves@.subrange(0, i as int) =~= self.moves@);
        assert(result@ =~= self.description(*pokemon, abilities@[a as int].effect@, moves_found(self.moves@, moves@)->0));
        Some(result)
    }
}

/// Once a move is missing, it stays missing for every longer list of names.
proof fn lemma_moves_found_none(names: Seq<String>, data: Seq<MoveData>, k: int)
    requires
        0 <= k <= names.len(),
        moves_found(names.subrange(0, k), data) is None,
    ensures
        moves_found(names, data) is None,
    decreases names.len() - k,
{
    if k < names.len() {
        let next = names.subrange(0, k + 1);
        assert(next.drop_last() =~= names.subrange(0, k));
        lemma_moves_found_none(names, data, k + 1);
    } else {
        assert(names.subrange(0, k) =~= names);
    }
}

/// The names of the species' moves learned at the rank or below.
fn moves_available_at(pokemon: &Pokemon, rank: &MysteryDungeonRank) -> (v: Vec<String>)
    ensures
        string_views(v@) == moves_up_to(pokemon.moves_by_rank@, *rank),
{
    let mut v: Vec<String> = Vec::new();
    let mut i: usize = 0;
    while i < pokemon.moves_by_rank.len()
        invariant
            i <= pokemon.moves_by_rank.len(),
            string_views(v@) == moves_up_to(pokemon.moves_by_rank@.subrange(0, i as int), *rank),
        decreases pokemon.moves_by_rank.len() - i,
    {
        let m = &pokemon.moves_by_rank[i];
        assert(pokemon.moves_by_rank@.subrange(0, i + 1).drop_last() =~= pokemon.moves_by_rank@.subrange(
            0,
            i as int,
        ));
        if m.rank.at_most(rank) {
            v.push(copy_string(&m.name));
        }
        assert(string_views(v@) =~= moves_up_to(pokemon.moves_by_rank@.subrange(0, i + 1), *rank));
        i = i + 1;
    }
    assert(pokemon.moves_by_rank@.subrange(0, i as int) =~= pokemon.moves_by_rank@);
    v
}

/// The species' maximum of a base stat.
fn species_max(pokemon: &Pokemon, stat: &Stat) -> (r: u8)
    ensures
        r == species_stat(*pokemon, *stat).max,
{
    match stat {
        Stat::Dexterity => pokemon.dexterity.max,
        Stat::Vitality => pokemon.vitality.max,
        Stat::Special => pokemon.special.max,
        Stat::Insight => pokemon.insight.max,
        _ => pokemon.strength.max,
    }
}

/// The list without the given stat.
fn without_stat(stats: &Vec<Stat>, stat: Stat) -> (r: Vec<Stat>)
    ensures
        forall|x: Stat| r@.contains(x) <==> (stats@.contains(x) && x != stat),
{
    let mut r: Vec<Stat> = Vec::new();
    let mut i: usize = 0;
    while i < stats.len()
        invariant
            i <= stats.len(),
            forall|j: int| 0 <= j < r.len() ==> #[trigger] r@[j] != stat && stats@.subrange(0, i as int).contains(r@[j]),
            forall|k: int| 0 <= k < i ==> #[trigger] stats@[k] != stat ==> r@.contains(stats@[k]),
        decreases stats.len() - i,
    {
        let x = stats[i];
        let ghost before = r@;
        if x != stat {
            r.push(x);
            assert(r@[r.len() - 1] == x);
        }
        assert forall|j: int| 0 <= j < r.len() implies #[trigger] r@[j] != stat && stats@.subrange(0, i + 1).contains(r@[j]) by {
            if j < before.len() {
                assert(r@[j] == before[j]);
                let k = choose|k: int| 0 <= k < i && #[trigger] stats@.subrange(0, i as int)[k] == before[j];
                assert(stats@.subrange(0, i + 1)[k] == before[j]);
            } else {
                assert(stats@.subrange(0, i + 1)[i as int] == x);
            }
        }
        assert forall|k: int| 0 <= k < i + 1 && #[trigger] stats@[k] != stat implies r@.contains(stats@[k]) by {
            if k < i {
                let j = choose|j: int| 0 <= j < before.len() && #[trigger] before[j] == stats@[k];
                assert(r@[j] == before[j]);
            }
            if k == i {
                assert(r@[r.len() - 1] == x);
            }
        }
        i = i + 1;
    }
    assert forall|x: Stat| r@.contains(x) <==> (stats@.contains(x) && x != stat) by {
        assert(stats@.subrange(0, i as int) =~= stats@);
        if stats@.contains(x) && x != stat {
            let k = choose|k: int| 0 <= k < stats.len() && #[trigger] stats@[k] == x;
            assert(stats@[k] != stat);
        }
        if r@.contains(x) {
            let j = choose|j: int| 0 <= j < r.len() && #[trigger] r@[j] == x;
            assert(r@[j] != stat);
        }
    }
    r
}

/// The list without the given social stat.
fn without_social_stat(stats: &Vec<SocialStat>, stat: SocialStat) -> (r: Vec<SocialStat>)
    ensures
        forall|x: SocialStat| r@.contains(x) <==> (stats@.contains(x) && x != stat),
{
    let mut r: Vec<SocialStat> = Vec::new();
    let mut i: usize = 0;
    while i < stats.len()
        invariant
            i <= stats.len(),
            forall|j: int| 0 <= j < r.len() ==> #[trigger] r@[j] != stat && stats@.subrange(0, i as int).contains(r@[j]),
            forall|k: int| 0 <= k < i ==> #[trigger] stats@[k] != stat ==> r@.contains(stats@[k]),
        decreases stats.len() - i,
    {
        let x = stats[i];
        let ghost before = r@;
        if x != stat {
            r.push(x);
            assert(r@[r.len() - 1] == x);
        }
        assert forall|j: int| 0 <= j < r.len() implies #[trigger] r@[j] != stat && stats@.subrange(0, i + 1).contains(r@[j]) by {
            if j < before.len() {
                assert(r@[j] == before[j]);
                let k = choose|k: int| 0 <= k < i && #[trigger] stats@.subrange(0, i as int)[k] == before[j];
                assert(stats@.subrange(0, i + 1)[k] == before[j]);
            } else {
                assert(stats@.subrange(0, i + 1)[i as int] == x);
            }
        }
        assert forall|k: int| 0 <= k < i + 1 && #[trigger] stats@[k] != stat implies r@.contains(stats@[k]) by {
            if k < i {
                let j = choose|j: int| 0 <= j < before.len() && #[trigger] before[j] == stats@[k];
                assert(r@[j] == before[j]);
            }
            if k == i {
                assert(r@[r.len() - 1] == x);
            }
        }
        i = i + 1;
    }
    assert forall|x: SocialStat| r@.contains(x) <==> (stats@.contains(x) && x != stat) by {
        assert(stats@.subrange(0, i as int) =~= stats@);
        if stats@.contains(x) && x != stat {
            let k = choose|k: int| 0 <= k < stats.len() && #[trigger] stats@[k] == x;
            assert(stats@[k] != stat);
        }
        if r@.contains(x) {
            let j = choose|j: int| 0 <= j < r.len() && #[trigger] r@[j] == x;
            assert(r@[j] != stat);
        }
    }
    r
}

} // verus!

verus! {

/// Whether two specimens agree on everything but the five base stats.
pub open spec fn same_but_combat(a: EncounterMon, b: EncounterMon) -> bool {
    &&& a.name == b.name
    &&& a.gender == b.gender
    &&& a.type1 == b.type1
    &&& a.type2 == b.type2
    &&& a.level == b.level
    &&& a.rank == b.rank
    &&& a.ability == b.ability
    &&& a.hp == b.hp
    &&& a.will == b.will
    &&& a.tough == b.tough
    &&& a.cool == b.cool
    &&& a.beauty == b.beauty
    &&& a.clever == b.clever
    &&& a.cute == b.cute
    &&& a.moves == b.moves
}

/// Whether two specimens agree on everything but the five social stats.
pub open spec fn same_but_social(a: EncounterMon, b: EncounterMon) -> bool {
    &&& a.name == b.name
    &&& a.gender == b.gender
    &&& a.type1 == b.type1
    &&& a.type2 == b.type2
    &&& a.level == b.level
    &&& a.rank == b.rank
    &&& a.ability == b.ability
    &&& a.hp == b.hp
    &&& a.will == b.will
    &&& a.strength == b.strength
    &&& a.dexterity == b.dexterity
    &&& a.vitality == b.vitality
    &&& a.special == b.special
    &&& a.insight == b.insight
    &&& a.moves == b.moves
}

/// Whether the list holds exactly the base stats below the species' maximum.
pub open spec fn lists_stats_below_max(m: EncounterMon, p: Pokemon, v: Seq<Stat>) -> bool {
    &&& (m.strength < p.strength.max <==> v.contains(Stat::Strength))
    &&& (m.dexterity < p.dexterity.max <==> v.contains(Stat::Dexterity))
    &&& (m.vitality < p.vitality.max <==> v.contains(Stat::Vitality))
    &&& (m.special < p.special.max <==> v.contains(Stat::Special))
    &&& (m.insight < p.insight.max <==> v.contains(Stat::Insight))
}

/// Whether the list holds exactly the social stats below 5.
pub open spec fn lists_social_below_max(m: EncounterMon, v: Seq<SocialStat>) -> bool {
    &&& (m.tough < 5 <==> v.contains(SocialStat::Tough))
    &&& (m.cool < 5 <==> v.contains(SocialStat::Cool))
    &&& (m.beauty < 5 <==> v.contains(SocialStat::Beauty))
    &&& (m.clever < 5 <==> v.contains(SocialStat::Clever))
    &&& (m.cute < 5 <==> v.contains(SocialStat::Cute))
}

/// Spends `level + 3` points on the base stats, starting from the species' minima.
fn spend_combat_points(m: &mut EncounterMon, pokemon: &Pokemon, level: u8)
    requires
        encounter_fits(*pokemon, level),
        old(m).strength == pokemon.strength.min,
        old(m).dexterity == pokemon.dexterity.min,
        old(m).vitality == pokemon.vitality.min,
        old(m).special == pokemon.special.min,
        old(m).insight == pokemon.insight.min,
    ensures
        same_but_combat(*old(m), *final(m)),
        final(m).strength >= pokemon.strength.min,
        final(m).dexterity >= pokemon.dexterity.min,
        final(m).vitality >= pokemon.vitality.min,
        final(m).special >= pokemon.special.min,
        final(m).insight >= pokemon.insight.min,
        combat_increase(*final(m), *pokemon) <= level + 3,
        ranges_open(*pokemon) && combat_capacity(*pokemon) >= level + 3 ==> {
            &&& combat_increase(*final(m), *pokemon) == level + 3
            &&& final(m).strength <= pokemon.strength.max
            &&& final(m).dexterity <= pokemon.dexterity.max
            &&& final(m).vitality <= pokemon.vitality.max
            &&& final(m).special <= pokemon.special.max
            &&& final(m).insight <= pokemon.insight.max
        },
        ranges_open(*pokemon) && combat_capacity(*pokemon) < level + 3 ==> {
            &&& all_at_least_max(*final(m), *pokemon)
            &&& is_limit_break_count(level + 3 - combat_capacity(*pokemon), combat_increase(*final(m), *pokemon) - combat_capacity(*pokemon))
        },
{
    let ghost start = *m;
    let ghost strong = ranges_open(*pokemon) && combat_capacity(*pokemon) >= level + 3;
    let ghost open = ranges_open(*pokemon);
    let ghost cap = combat_capacity(*pokemon);
    let all_stats: Vec<Stat> = vec![Stat::Strength, Stat::Vitality, Stat::Dexterity, Stat::Special, Stat::Insight];
    let mut non_maxed: Vec<Stat> = vec![Stat::Strength, Stat::Vitality, Stat::Dexterity, Stat::Special, Stat::Insight];
    assert(non_maxed@[0] == Stat::Strength);
    assert(non_maxed@[1] == Stat::Vitality);
    assert(non_maxed@[2] == Stat::Dexterity);
    assert(non_maxed@[3] == Stat::Special);
    assert(non_maxed@[4] == Stat::Insight);
    let mut remaining: u8 = level + 3;
    let mut limit_break_count: u8 = 0;
    while remaining > 0
        invariant
            encounter_fits(*pokemon, level),
            strong == (ranges_open(*pokemon) && combat_capacity(*pokemon) >= level + 3),
            all_stats.len() == 5,
            forall|x: Stat| all_stats@.contains(x) ==> is_base_stat(x),
            forall|x: Stat| non_maxed@.contains(x) ==> is_base_stat(x),
            same_but_combat(start, *m),
            m.strength >= pokemon.strength.min,
            m.dexterity >= pokemon.dexterity.min,
            m.vitality >= pokemon.vitality.min,
            m.special >= pokemon.special.min,
            m.insight >= pokemon.insight.min,
            combat_increase(*m, *pokemon) + remaining + limit_break_count <= level + 3,
            2 * limit_break_count + remaining <= level + 3,
            strong ==> {
                &&& limit_break_count == 0
                &&& combat_increase(*m, *pokemon) + remaining == level + 3
                &&& m.strength <= pokemon.strength.max
                &&& m.dexterity <= pokemon.dexterity.max
                &&& m.vitality <= pokemon.vitality.max
                &&& m.special <= pokemon.special.max
                &&& m.insight <= pokemon.insight.max
                &&& lists_stats_below_max(*m, *pokemon, non_maxed@)
            },
            open == ranges_open(*pokemon),
            cap == combat_capacity(*pokemon),
            open ==> {
                &&& lists_stats_below_max(*m, *pokemon, non_maxed@)
                &&& combat_increase(*m, *pokemon) + remaining + limit_break_points(limit_break_count as nat)
                    - limit_break_count == level + 3
                &&& limit_break_count == 0 ==> all_at_most_max(*m, *pokemon)
                &&& limit_break_count > 0 ==> {
                    &&& all_at_least_max(*m, *pokemon)
                    &&& combat_increase(*m, *pokemon) == cap + limit_break_count
                    &&& limit_break_points(limit_break_count as nat) < level + 3 - cap
                }
            },
        ensures
            strong ==> remaining == 0,
            combat_increase(*m, *pokemon) <= level + 3,
            open && cap < level + 3 ==> {
                &&& all_at_least_max(*m, *pokemon)
                &&& combat_increase(*m, *pokemon) == cap + limit_break_count
                &&& is_limit_break_count(level + 3 - cap, limit_break_count as int)
            },
        decreases remaining,
    {
        let chosen = choose_item(&non_maxed);
        if let Some(picked) = chosen {
            let stat = *picked;
            assert(is_base_stat(stat));
            m.increase_stat(&stat);
            if m.get_stat(&stat) == species_max(pokemon, &stat) {
                let ghost before = non_maxed@;
                non_maxed = without_stat(&non_maxed, stat);
                assert(forall|x: Stat| non_maxed@.contains(x) ==> before.contains(x));
            }
            remaining = remaining - 1;
        } else if remaining > 2 + limit_break_count {
            proof {
                if strong {
                    assert(!non_maxed@.contains(Stat::Strength));
                    assert(!non_maxed@.contains(Stat::Dexterity));
                    assert(!non_maxed@.contains(Stat::Vitality));
                    assert(!non_maxed@.contains(Stat::Special));
                    assert(!non_maxed@.contains(Stat::Insight));
                    assert(false);
                }
            }
            let stat = *choose_item(&all_stats).unwrap();
            assert(is_base_stat(stat));
            m.increase_stat(&stat);
            remaining = remaining - (2 + limit_break_count);
            limit_break_count = limit_break_count + 1;
        } else {
            proof {
                if strong {
                    assert(!non_maxed@.contains(Stat::Strength));
                    assert(!non_maxed@.contains(Stat::Dexterity));
                    assert(!non_maxed@.contains(Stat::Vitality));
                    assert(!non_maxed@.contains(Stat::Special));
                    assert(!non_maxed@.contains(Stat::Insight));
                    assert(false);
                }
            }
            break;
        }
    }
}

/// Spends the rank's social points on the social stats, none above 5.
fn spend_social_points(m: &mut EncounterMon)
    requires
        old(m).tough == 1,
        old(m).cool == 1,
        old(m).beauty == 1,
        old(m).clever == 1,
        old(m).cute == 1,
    ensures
        same_but_social(*old(m), *final(m)),
        1 <= final(m).tough <= 5,
        1 <= final(m).cool <= 5,
        1 <= final(m).beauty <= 5,
        1 <= final(m).clever <= 5,
        1 <= final(m).cute <= 5,
        social_increase(*final(m)) == social_points_of(final(m).rank),
{
    let ghost start = *m;
    let mut non_maxed: Vec<SocialStat> = vec![
        SocialStat::Tough,
        SocialStat::Cool,
        SocialStat::Beauty,
        SocialStat::Clever,
        SocialStat::Cute,
    ];
    assert(non_maxed@[0] == SocialStat::Tough);
    assert(non_maxed@[1] == SocialStat::Cool);
    assert(non_maxed@[2] == SocialStat::Beauty);
    assert(non_maxed@[3] == SocialStat::Clever);
    assert(non_maxed@[4] == SocialStat::Cute);
    let mut remaining: u8 = EncounterMon::calculate_social_points(&m.rank);
    while remaining > 0
        invariant
            same_but_social(start, *m),
            1 <= m.tough <= 5,
            1 <= m.cool <= 5,
            1 <= m.beauty <= 5,
            1 <= m.clever <= 5,
            1 <= m.cute <= 5,
            social_increase(*m) + remaining == social_points_of(m.rank),
            lists_social_below_max(*m, non_maxed@),
        decreases remaining,
    {
        let chosen = choose_item(&non_maxed);
        if let Some(picked) = chosen {
            let stat = *picked;
            m.increase_social_stat(&stat);
            if m.get_social_stat(&stat) == 5 {
                non_maxed = without_social_stat(&non_maxed, stat);
            }
        } else {
            proof {
                assert(!non_maxed@.contains(SocialStat::Tough));
                assert(!non_maxed@.contains(SocialStat::Cool));
                assert(!non_maxed@.contains(SocialStat::Beauty));
                assert(!non_maxed@.contains(SocialStat::Clever));
                assert(!non_maxed@.contains(SocialStat::Cute));
                assert(social_points_of(m.rank) <= 12);
                assert(false);
            }
        }
        remaining = remaining - 1;
    }
}

/// Whether a text ends with a given tail.
pub open spec fn ends_with(s: Seq<char>, tail: Seq<char>) -> bool {
    s.len() >= tail.len() && s.subrange(s.len() - tail.len(), s.len() as int) == tail
}

/// The dice line of a damaging move that copies nothing ends in the STAB bonus exactly
/// when the move has one of the Pokemon's types, its first or its second.
pub proof fn law_stab_for_either_type(mon: EncounterMon, m: MoveData)
    requires
        m.damage1 != Some(Stat::Copy),
        mon.damage_of(m) > 0,
    ensures
        ends_with(mon.dice_line(m), " + STAB**\n"@) <==> (m.typing == mon.type1 || Some(
            m.typing,
        ) == mon.type2),
{
    reveal_strlit(" + STAB**\n");
    reveal_strlit("**\n");
    reveal_strlit("ACC: **");
    reveal_strlit("** | DMG: **");
    let stab = " + STAB**\n"@;
    let head = "ACC: **"@ + nat_digits(mon.accuracy_of(m) as nat) + "** | DMG: **"@
        + nat_digits(mon.damage_of(m) as nat);
    let line = mon.dice_line(m);
    crate::text::lemma_nat_digits(mon.damage_of(m) as nat);
    if m.typing == mon.type1 || Some(m.typing) == mon.type2 {
        assert(line == head + stab);
        assert(line.subrange(line.len() - stab.len(), line.len() as int) =~= stab);
    } else {
        let digits = nat_digits(mon.damage_of(m) as nat);
        assert(line == head + "**\n"@);
        assert(head.len() >= 7 + digits.len());
        assert(line[line.len() - 4] == digits[digits.len() - 1]);
        assert(crate::text::is_digit(digits[digits.len() - 1]));
        if ends_with(line, stab) {
            assert(line.subrange(line.len() - 10, line.len() as int)[6] == stab[6]);
            assert(false);
        }
    }
}

} // verus!
