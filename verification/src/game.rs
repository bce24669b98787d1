//! The game's vocabulary: Pokemon types, ranks, stats and genders.

use vstd::prelude::*;

verus! {

/// A Pokemon type, as types are listed on type charts.
#[derive(Clone, Copy, Debug, PartialEq, Eq, Structural)]
pub enum PokemonType {
    Normal,
    Fighting,
    Flying,
    Poison,
    Ground,
    Rock,
    Bug,
    GhostType,
    Steel,
    Fire,
    Water,
    Grass,
    Electric,
    Psychic,
    Ice,
    Dragon,
    Dark,
    Fairy,
    Shadow,
}

/// The name of a type.
pub open spec fn type_label(t: PokemonType) -> Seq<char> {
    match t {
        PokemonType::Normal => "Normal"@,
        PokemonType::Fighting => "Fighting"@,
        PokemonType::Flying => "Flying"@,
        PokemonType::Poison => "Poison"@,
        PokemonType::Ground => "Ground"@,
        PokemonType::Rock => "Rock"@,
        PokemonType::Bug => "Bug"@,
        PokemonType::GhostType => "Ghost"@,
        PokemonType::Steel => "Steel"@,
        PokemonType::Fire => "Fire"@,
        PokemonType::Water => "Water"@,
        PokemonType::Grass => "Grass"@,
        PokemonType::Electric => "Electric"@,
        PokemonType::Psychic => "Psychic"@,
        PokemonType::Ice => "Ice"@,
        PokemonType::Dragon => "Dragon"@,
        PokemonType::Dark => "Dark"@,
        PokemonType::Fairy => "Fairy"@,
        PokemonType::Shadow => "Shadow"@,
    }
}

impl PokemonType {
    /// The name of the type, as the bot writes it.
    pub fn name(&self) -> (s: &'static str)
        ensures
            s@ == type_label(*self),
    {
        match self {
            PokemonType::Normal => "Normal",
            PokemonType::Fighting => "Fighting",
            PokemonType::Flying => "Flying",
            PokemonType::Poison => "Poison",
            PokemonType::Ground => "Ground",
            PokemonType::Rock => "Rock",
            PokemonType::Bug => "Bug",
            PokemonType::GhostType => "Ghost",
            PokemonType::Steel => "Steel",
            PokemonType::Fire => "Fire",
            PokemonType::Water => "Water",
            PokemonType::Grass => "Grass",
            PokemonType::Electric => "Electric",
            PokemonType::Psychic => "Psychic",
            PokemonType::Ice => "Ice",
            PokemonType::Dragon => "Dragon",
            PokemonType::Dark => "Dark",
            PokemonType::Fairy => "Fairy",
            PokemonType::Shadow => "Shadow",
        }
    }
}

/// All types, in their listed order.
pub open spec fn all_types() -> Seq<PokemonType> {
    seq![
        PokemonType::Normal,
        PokemonType::Fighting,
        PokemonType::Flying,
        PokemonType::Poison,
        PokemonType::Ground,
        PokemonType::Rock,
        PokemonType::Bug,
        PokemonType::GhostType,
        PokemonType::Steel,
        PokemonType::Fire,
        PokemonType::Water,
        PokemonType::Grass,
        PokemonType::Electric,
        PokemonType::Psychic,
        PokemonType::Ice,
        PokemonType::Dragon,
        PokemonType::Dark,
        PokemonType::Fairy,
        PokemonType::Shadow,
    ]
}

/// All types, in their listed order.
pub fn all_pokemon_types() -> (v: Vec<PokemonType>)
    ensures
        v@ == all_types(),
{
    let v = vec![
        PokemonType::Normal,
        PokemonType::Fighting,
        PokemonType::Flying,
        PokemonType::Poison,
        PokemonType::Ground,
        PokemonType::Rock,
        PokemonType::Bug,
        PokemonType::GhostType,
        PokemonType::Steel,
        PokemonType::Fire,
        PokemonType::Water,
        PokemonType::Grass,
        PokemonType::Electric,
        PokemonType::Psychic,
        PokemonType::Ice,
        PokemonType::Dragon,
        PokemonType::Dark,
        PokemonType::Fairy,
        PokemonType::Shadow,
    ];
    assert(v@ =~= all_types());
    v
}

/// A type a character can terastallize into: every type but Shadow.
#[derive(Clone, Copy, Debug, PartialEq, Eq, Structural)]
pub enum PokemonTypeWithoutShadow {
    Normal,
    Fighting,
    Flying,
    Poison,
    Ground,
    Rock,
    Bug,
    GhostType,
    Steel,
    Fire,
    Water,
    Grass,
    Electric,
    Psychic,
    Ice,
    Dragon,
    Dark,
    Fairy,
}

/// The type of the same name.
pub open spec fn with_shadow(t: PokemonTypeWithoutShadow) -> PokemonType {
    match t {
        PokemonTypeWithoutShadow::Normal => PokemonType::Normal,
        PokemonTypeWithoutShadow::Fighting => PokemonType::Fighting,
        PokemonTypeWithoutShadow::Flying => PokemonType::Flying,
        PokemonTypeWithoutShadow::Poison => PokemonType::Poison,
        PokemonTypeWithoutShadow::Ground => PokemonType::Ground,
        PokemonTypeWithoutShadow::Rock => PokemonType::Rock,
        PokemonTypeWithoutShadow::Bug => PokemonType::Bug,
        PokemonTypeWithoutShadow::GhostType => PokemonType::GhostType,
        PokemonTypeWithoutShadow::Steel => PokemonType::Steel,
        PokemonTypeWithoutShadow::Fire => PokemonType::Fire,
        PokemonTypeWithoutShadow::Water => PokemonType::Water,
        PokemonTypeWithoutShadow::Grass => PokemonType::Grass,
        PokemonTypeWithoutShadow::Electric => PokemonType::Electric,
        PokemonTypeWithoutShadow::Psychic => PokemonType::Psychic,
        PokemonTypeWithoutShadow::Ice => PokemonType::Ice,
        PokemonTypeWithoutShadow::Dragon => PokemonType::Dragon,
        PokemonTypeWithoutShadow::Dark => PokemonType::Dark,
        PokemonTypeWithoutShadow::Fairy => PokemonType::Fairy,
    }
}

/// The lowercase name of a type, as it appears in database column names.
pub open spec fn column_suffix(t: PokemonTypeWithoutShadow) -> Seq<char> {
    match t {
        PokemonTypeWithoutShadow::Normal => "normal"@,
        PokemonTypeWithoutShadow::Fighting => "fighting"@,
        PokemonTypeWithoutShadow::Flying => "flying"@,
        PokemonTypeWithoutShadow::Poison => "poison"@,
        PokemonTypeWithoutShadow::Ground => "ground"@,
        PokemonTypeWithoutShadow::Rock => "rock"@,
        PokemonTypeWithoutShadow::Bug => "bug"@,
        PokemonTypeWithoutShadow::GhostType => "ghost"@,
        PokemonTypeWithoutShadow::Steel => "steel"@,
        PokemonTypeWithoutShadow::Fire => "fire"@,
        PokemonTypeWithoutShadow::Water => "water"@,
        PokemonTypeWithoutShadow::Grass => "grass"@,
        PokemonTypeWithoutShadow::Electric => "electric"@,
        PokemonTypeWithoutShadow::Psychic => "psychic"@,
        PokemonTypeWithoutShadow::Ice => "ice"@,
        PokemonTypeWithoutShadow::Dragon => "dragon"@,
        PokemonTypeWithoutShadow::Dark => "dark"@,
        PokemonTypeWithoutShadow::Fairy => "fairy"@,
    }
}

impl PokemonTypeWithoutShadow {
    /// The name of the type, as the bot writes it.
    pub fn name(&self) -> (s: &'static str)
        ensures
            s@ == type_label(with_shadow(*self)),
    {
        match self {
            PokemonTypeWithoutShadow::Normal => "Normal",
            PokemonTypeWithoutShadow::Fighting => "Fighting",
            PokemonTypeWithoutShadow::Flying => "Flying",
            PokemonTypeWithoutShadow::Poison => "Poison",
            PokemonTypeWithoutShadow::Ground => "Ground",
            PokemonTypeWithoutShadow::Rock => "Rock",
            PokemonTypeWithoutShadow::Bug => "Bug",
            PokemonTypeWithoutShadow::GhostType => "Ghost",
            PokemonTypeWithoutShadow::Steel => "Steel",
            PokemonTypeWithoutShadow::Fire => "Fire",
            PokemonTypeWithoutShadow::Water => "Water",
            PokemonTypeWithoutShadow::Grass => "Grass",
            PokemonTypeWithoutShadow::Electric => "Electric",
            PokemonTypeWithoutShadow::Psychic => "Psychic",
            PokemonTypeWithoutShadow::Ice => "Ice",
            PokemonTypeWithoutShadow::Dragon => "Dragon",
            PokemonTypeWithoutShadow::Dark => "Dark",
            PokemonTypeWithoutShadow::Fairy => "Fairy",
        }
    }

    /// The lowercase name of the type, as it appears in database column names.
    pub fn column_suffix(&self) -> (s: &'static str)
        ensures
            s@ == column_suffix(*self),
    {
        match self {
            PokemonTypeWithoutShadow::Normal => "normal",
            PokemonTypeWithoutShadow::Fighting => "fighting",
            PokemonTypeWithoutShadow::Flying => "flying",
            PokemonTypeWithoutShadow::Poison => "poison",
            PokemonTypeWithoutShadow::Ground => "ground",
            PokemonTypeWithoutShadow::Rock => "rock",
            PokemonTypeWithoutShadow::Bug => "bug",
            PokemonTypeWithoutShadow::GhostType => "ghost",
            PokemonTypeWithoutShadow::Steel => "steel",
            PokemonTypeWithoutShadow::Fire => "fire",
            PokemonTypeWithoutShadow::Water => "water",
            PokemonTypeWithoutShadow::Grass => "grass",
            PokemonTypeWithoutShadow::Electric => "electric",
            PokemonTypeWithoutShadow::Psychic => "psychic",
            PokemonTypeWithoutShadow::Ice => "ice",
            PokemonTypeWithoutShadow::Dragon => "dragon",
            PokemonTypeWithoutShadow::Dark => "dark",
            PokemonTypeWithoutShadow::Fairy => "fairy",
        }
    }
}

/// The lower and upper bound of a species' stat.
#[derive(Clone, Copy, Debug, PartialEq, Eq, Structural)]
pub struct PokemonStat {
    pub min: u8,
    pub max: u8,
}

/// A move that a species learns, and the rank from which it does.
#[derive(Clone, Debug)]
pub struct RankedMove {
    pub name: String,
    pub rank: MysteryDungeonRank,
}

/// The region whose form a species is.
#[derive(Clone, Copy, Debug, PartialEq, Eq, Structural)]
pub enum RegionalVariant {
    Alola,
    Galar,
    Hisui,
    Paldea,
}

/// What the library reads of a species.
#[derive(Clone, Debug)]
pub struct Pokemon {
    pub name: String,
    /// The species' id in the Pokemon API.
    pub poke_api_id: u16,
    /// The generation that introduced the species.
    pub generation: u8,
    pub has_gender_differences: bool,
    pub regional_variant: Option<RegionalVariant>,
    pub type1: PokemonType,
    pub type2: Option<PokemonType>,
    pub base_hp: u8,
    pub strength: PokemonStat,
    pub dexterity: PokemonStat,
    pub vitality: PokemonStat,
    pub special: PokemonStat,
    pub insight: PokemonStat,
    pub ability1: String,
    pub ability2: Option<String>,
    pub hidden_ability: Option<String>,
    pub moves_by_rank: Vec<RankedMove>,
}

/// A combat stat.
#[derive(Clone, Copy, Debug, PartialEq, Eq, Structural)]
pub enum Stat {
    Strength,
    Dexterity,
    Vitality,
    Special,
    Insight,
    Copy,
    StrengthOrSpecial,
}

/// A social stat.
#[derive(Clone, Copy, Debug, PartialEq, Eq, Structural)]
pub enum SocialStat {
    Tough,
    Cool,
    Beauty,
    Clever,
    Cute,
}

/// The stat or skill a move's accuracy is rolled with.
#[derive(Clone, Copy, Debug, PartialEq, Eq, Structural)]
pub enum CombatOrSocialStat {
    Strength,
    Dexterity,
    Vitality,
    Special,
    Insight,
    Tough,
    Cool,
    Beauty,
    Clever,
    Cute,
    Brawl,
    Channel,
    Clash,
    Evasion,
    Alert,
    Athletic,
    Nature,
    Stealth,
    Allure,
    Etiquette,
    Intimidate,
    Perform,
    Will,
    Copied,
    ToughOrCute,
    MissingBeauty,
    BrawlOrChannel,
    Varies,
    Medicine,
    Empathy,
    Rank,
}

/// A phenotype.
#[derive(Clone, Copy, Debug, PartialEq, Eq, Structural)]
pub enum Gender {
    Male,
    Female,
}

/// The name of a phenotype.
pub open spec fn gender_name(g: Gender) -> Seq<char> {
    match g {
        Gender::Male => "Male"@,
        Gender::Female => "Female"@,
    }
}

impl Gender {
    pub fn name(&self) -> (s: &'static str)
        ensures
            s@ == gender_name(*self),
    {
        match self {
            Gender::Male => "Male",
            Gender::Female => "Female",
        }
    }
}

/// A Mystery Dungeon rank, from lowest to highest.
#[derive(Clone, Copy, Debug, PartialEq, Eq, Structural)]
pub enum MysteryDungeonRank {
    Bronze,
    Silver,
    Gold,
    Platinum,
    Diamond,
}

/// The position of a rank: Bronze 0 up to Diamond 4.
pub open spec fn rank_index(r: MysteryDungeonRank) -> nat {
    match r {
        MysteryDungeonRank::Bronze => 0,
        MysteryDungeonRank::Silver => 1,
        MysteryDungeonRank::Gold => 2,
        MysteryDungeonRank::Platinum => 3,
        MysteryDungeonRank::Diamond => 4,
    }
}

/// The name of a rank.
pub open spec fn rank_name(r: MysteryDungeonRank) -> Seq<char> {
    match r {
        MysteryDungeonRank::Bronze => "Bronze"@,
        MysteryDungeonRank::Silver => "Silver"@,
        MysteryDungeonRank::Gold => "Gold"@,
        MysteryDungeonRank::Platinum => "Platinum"@,
        MysteryDungeonRank::Diamond => "Diamond"@,
    }
}

impl MysteryDungeonRank {
    /// How many dice the rank adds to skill checks: one per rank, Bronze one.
    pub fn die_count(&self) -> (n: u8)
        ensures
            n == rank_index(*self) + 1,
    {
        match self {
            MysteryDungeonRank::Bronze => 1,
            MysteryDungeonRank::Silver => 2,
            MysteryDungeonRank::Gold => 3,
            MysteryDungeonRank::Platinum => 4,
            MysteryDungeonRank::Diamond => 5,
        }
    }

    pub fn name(&self) -> (s: &'static str)
        ensures
            s@ == rank_name(*self),
    {
        match self {
            MysteryDungeonRank::Bronze => "Bronze",
            MysteryDungeonRank::Silver => "Silver",
            MysteryDungeonRank::Gold => "Gold",
            MysteryDungeonRank::Platinum => "Platinum",
            MysteryDungeonRank::Diamond => "Diamond",
        }
    }

    /// Whether this rank is at most `other`.
    pub fn at_most(&self, other: &MysteryDungeonRank) -> (b: bool)
        ensures
            b == (rank_index(*self) <= rank_index(*other)),
    {
        self.index() <= other.index()
    }

    fn index(&self) -> (i: u8)
        ensures
            i == rank_index(*self),
    {
        match self {
            MysteryDungeonRank::Bronze => 0,
            MysteryDungeonRank::Silver => 1,
            MysteryDungeonRank::Gold => 2,
            MysteryDungeonRank::Platinum => 3,
            MysteryDungeonRank::Diamond => 4,
        }
    }
}

} // verus!
