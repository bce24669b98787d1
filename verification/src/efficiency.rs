//! The type chart of a species: which attacking types hit it how hard.

use vstd::prelude::*;

use crate::game::{all_types, all_pokemon_types, type_label, Pokemon, PokemonType};
use crate::autocompletion::{is_substring, lemma_prefix_substring, lemma_substring_extend};
use crate::text::{join, push_str};

verus! {

/// How effective an attacking type is against a species.
#[derive(Clone, Copy, Debug, PartialEq, Eq, Structural)]
pub enum Efficiency {
    SuperEffective,
    Effective,
    Normal,
    Ineffective,
    SuperIneffective,
    Immune,
}

/// The heading of an efficiency.
pub open spec fn efficiency_label(e: Efficiency) -> Seq<char> {
    match e {
        Efficiency::SuperEffective => "Super Effective"@,
        Efficiency::Effective => "Effective"@,
        Efficiency::Normal => "Normal"@,
        Efficiency::Ineffective => "Ineffective"@,
        Efficiency::SuperIneffective => "Super Ineffective"@,
        Efficiency::Immune => "Immune"@,
    }
}

impl Efficiency {
    pub fn name(&self) -> (s: &'static str)
        ensures
            s@ == efficiency_label(*self),
    {
        match self {
            Efficiency::SuperEffective => "Super Effective",
            Efficiency::Effective => "Effective",
            Efficiency::Normal => "Normal",
            Efficiency::Ineffective => "Ineffective",
            Efficiency::SuperIneffective => "Super Ineffective",
            Efficiency::Immune => "Immune",
        }
    }
}

/// An attacking type and its efficiency.
#[derive(Clone, Copy, Debug, PartialEq, Eq, Structural)]
pub struct EfficiencyMapping {
    pub pokemon_type: PokemonType,
    pub efficiency: Efficiency,
}

/// The names of the types that have the given efficiency, Shadow left out, in order.
pub open spec fn names_with(efficiencies: Seq<EfficiencyMapping>, efficiency: Efficiency) -> Seq<Seq<char>>
    decreases efficiencies.len(),
{
    if efficiencies.len() == 0 {
        Seq::empty()
    } else {
        let m = efficiencies.last();
        names_with(efficiencies.drop_last(), efficiency) + if m.efficiency == efficiency
            && m.pokemon_type != PokemonType::Shadow {
            seq![type_label(m.pokemon_type)]
        } else {
            Seq::empty()
        }
    }
}

/// The section of one efficiency: nothing when no type has it, else a heading and the
/// type names separated by bars.
pub open spec fn efficiency_section(efficiencies: Seq<EfficiencyMapping>, efficiency: Efficiency) -> Seq<char> {
    let names = names_with(efficiencies, efficiency);
    if names.len() == 0 {
        Seq::empty()
    } else {
        "### "@ + efficiency_label(efficiency) + seq!['\n'] + join(names, "  |  "@) + seq!['\n']
    }
}

/// Appends the section of one efficiency.
pub fn print(result: &mut String, efficiencies: &[EfficiencyMapping], efficiency: Efficiency)
    ensures
        final(result)@ == old(result)@ + efficiency_section(efficiencies@, efficiency),
{
    let mut names: Vec<String> = Vec::new();
    let mut i: usize = 0;
    while i < efficiencies.len()
        invariant
            i <= efficiencies.len(),
            names@.map_values(|n: String| n@) == names_with(efficiencies@.subrange(0, i as int), efficiency),
        decreases efficiencies.len() - i,
    {
        let m = efficiencies[i];
        assert(efficiencies@.subrange(0, i + 1).drop_last() =~= efficiencies@.subrange(0, i as int));
        if m.efficiency == efficiency && m.pokemon_type != PokemonType::Shadow {
            let mut name = String::new();
            push_str(&mut name, m.pokemon_type.name());
            names.push(name);
        }
        assert(names@.map_values(|n: String| n@) =~= names_with(
            efficiencies@.subrange(0, i + 1),
            efficiency,
        ));
        i = i + 1;
    }
    assert(efficiencies@.subrange(0, i as int) =~= efficiencies@);
    if names.len() == 0 {
        return;
    }
    push_str(result, "### ");
    push_str(result, efficiency.name());
    push_str(result, "\n");
    let joined = crate::text::joined(&names, "  |  ");
    assert(crate::text::views(names@) =~= names@.map_values(|n: String| n@));
    push_str(result, joined.as_str());
    push_str(result, "\n");
    proof {
        reveal_strlit("\n");
    }
    assert(result@ =~= old(result)@ + efficiency_section(efficiencies@, efficiency));
}

/// The mapping of each type but Shadow, in the listed order, to its efficiency.
pub open spec fn chart_mappings(efficiency_of: Seq<Efficiency>) -> Seq<EfficiencyMapping> {
    Seq::new(18, |i: int| EfficiencyMapping { pokemon_type: all_types()[i], efficiency: efficiency_of[i] })
}

/// The type chart message of a species.
pub open spec fn type_resistances(name: Seq<char>, emoji: Seq<char>, efficiency_of: Seq<Efficiency>) -> Seq<char> {
    let m = chart_mappings(efficiency_of);
    "## Type Efficiency against "@ + emoji + name + seq!['\n']
        + efficiency_section(m, Efficiency::SuperEffective)
        + efficiency_section(m, Efficiency::Effective)
        + efficiency_section(m, Efficiency::Ineffective)
        + efficiency_section(m, Efficiency::SuperIneffective)
        + efficiency_section(m, Efficiency::Immune)
}

/// The type chart of a species, grouped by efficiency; types of normal efficiency are
/// not listed. `efficiency_of[i]` is the efficiency of the i-th type of the listed
/// order (Shadow, the last, excluded) against the species, as the game's chart gives it.
pub fn get_type_resistances_string(pokemon: &Pokemon, emoji: String, efficiency_of: &Vec<Efficiency>) -> (s: String)
    requires
        efficiency_of.len() == 18,
    ensures
        s@ == type_resistances(pokemon.name@, emoji@, efficiency_of@),
{
    let types = all_pokemon_types();
    let mut mappings: Vec<EfficiencyMapping> = Vec::new();
    let mut i: usize = 0;
    while i < 18
        invariant
            i <= 18,
            types@ == all_types(),
            efficiency_of.len() == 18,
            mappings@ == chart_mappings(efficiency_of@).subrange(0, i as int),
        decreases 18 - i,
    {
        mappings.push(EfficiencyMapping { pokemon_type: types[i], efficiency: efficiency_of[i] });
        assert(mappings@ =~= chart_mappings(efficiency_of@).subrange(0, i + 1));
        i = i + 1;
    }
    assert(mappings@ =~= chart_mappings(efficiency_of@));
    let mut result = String::new();
    push_str(&mut result, "## Type Efficiency against ");
    push_str(&mut result, emoji.as_str());
    push_str(&mut result, pokemon.name.as_str());
    push_str(&mut result, "\n");
    print(&mut result, mappings.as_slice(), Efficiency::SuperEffective);
    print(&mut result, mappings.as_slice(), Efficiency::Effective);
    print(&mut result, mappings.as_slice(), Efficiency::Ineffective);
    print(&mut result, mappings.as_slice(), Efficiency::SuperIneffective);
    print(&mut result, mappings.as_slice(), Efficiency::Immune);
    proof {
        reveal_strlit("\n");
    }
    assert(result@ =~= type_resistances(pokemon.name@, emoji@, efficiency_of@));
    result
}

/// A joined list starts with its first part.
proof fn lemma_join_starts_with_first(parts: Seq<Seq<char>>, sep: Seq<char>)
    requires
        parts.len() >= 1,
    ensures
        parts[0].len() <= join(parts, sep).len(),
        join(parts, sep).subrange(0, parts[0].len() as int) == parts[0],
    decreases parts.len(),
{
    if parts.len() > 1 {
        lemma_join_starts_with_first(parts.drop_last(), sep);
        let j = join(parts.drop_last(), sep);
        assert((j + sep + parts.last()).subrange(0, parts[0].len() as int) =~= j.subrange(
            0,
            parts[0].len() as int,
        ));
    }
}

/// Whether the mapping lists a type other than Shadow with the efficiency.
pub open spec fn lists_with(m: EfficiencyMapping, efficiency: Efficiency) -> bool {
    m.efficiency == efficiency && m.pokemon_type != PokemonType::Shadow
}

/// The names of a given efficiency begin with the first type that has it.
proof fn lemma_names_with_first(s: Seq<EfficiencyMapping>, efficiency: Efficiency, i: int)
    requires
        0 <= i < s.len(),
        lists_with(s[i], efficiency),
        forall|j: int| 0 <= j < i ==> !lists_with(#[trigger] s[j], efficiency),
    ensures
        names_with(s, efficiency).len() >= 1,
        names_with(s, efficiency)[0] == type_label(s[i].pokemon_type),
    decreases s.len(),
{
    if i == s.len() - 1 {
        lemma_names_with_none(s.drop_last(), efficiency);
        assert(names_with(s, efficiency) =~= seq![type_label(s[i].pokemon_type)]);
    } else {
        assert forall|j: int| 0 <= j < i implies !lists_with(#[trigger] s.drop_last()[j], efficiency) by {
            assert(s.drop_last()[j] == s[j]);
        }
        assert(s.drop_last()[i] == s[i]);
        lemma_names_with_first(s.drop_last(), efficiency, i);
    }
}

/// No names when no type but Shadow has the efficiency.
proof fn lemma_names_with_none(s: Seq<EfficiencyMapping>, efficiency: Efficiency)
    requires
        forall|j: int| 0 <= j < s.len() ==> !lists_with(#[trigger] s[j], efficiency),
    ensures
        names_with(s, efficiency).len() == 0,
    decreases s.len(),
{
    if s.len() > 0 {
        assert forall|j: int| 0 <= j < s.len() - 1 implies !lists_with(#[trigger] s.drop_last()[j], efficiency) by {
            assert(s.drop_last()[j] == s[j]);
        }
        assert(!lists_with(s[s.len() - 1], efficiency));
        lemma_names_with_none(s.drop_last(), efficiency);
    }
}

/// What occurs in the section of an efficiency other than Normal occurs in the chart.
proof fn lemma_section_in_chart(
    name: Seq<char>,
    emoji: Seq<char>,
    efficiency_of: Seq<Efficiency>,
    e: Efficiency,
    q: Seq<char>,
)
    requires
        e != Efficiency::Normal,
        is_substring(efficiency_section(chart_mappings(efficiency_of), e), q),
    ensures
        is_substring(type_resistances(name, emoji, efficiency_of), q),
{
    let m = chart_mappings(efficiency_of);
    let header = "## Type Efficiency against "@ + emoji + name + seq!['\n'];
    let s1 = efficiency_section(m, Efficiency::SuperEffective);
    let s2 = efficiency_section(m, Efficiency::Effective);
    let s3 = efficiency_section(m, Efficiency::Ineffective);
    let s4 = efficiency_section(m, Efficiency::SuperIneffective);
    let s5 = efficiency_section(m, Efficiency::Immune);
    let t = type_resistances(name, emoji, efficiency_of);
    assert(t == header + s1 + s2 + s3 + s4 + s5);
    if e == Efficiency::SuperEffective {
        lemma_substring_extend(header, s1, q);
        lemma_substring_extend(s2, header + s1, q);
        lemma_substring_extend(s3, header + s1 + s2, q);
        lemma_substring_extend(s4, header + s1 + s2 + s3, q);
        lemma_substring_extend(s5, header + s1 + s2 + s3 + s4, q);
    } else if e == Efficiency::Effective {
        lemma_substring_extend(header + s1, s2, q);
        lemma_substring_extend(s3, header + s1 + s2, q);
        lemma_substring_extend(s4, header + s1 + s2 + s3, q);
        lemma_substring_extend(s5, header + s1 + s2 + s3 + s4, q);
    } else if e == Efficiency::Ineffective {
        lemma_substring_extend(header + s1 + s2, s3, q);
        lemma_substring_extend(s4, header + s1 + s2 + s3, q);
        lemma_substring_extend(s5, header + s1 + s2 + s3 + s4, q);
    } else if e == Efficiency::SuperIneffective {
        lemma_substring_extend(header + s1 + s2 + s3, s4, q);
        lemma_substring_extend(s5, header + s1 + s2 + s3 + s4, q);
    } else {
        lemma_substring_extend(header + s1 + s2 + s3 + s4, s5, q);
    }
}

/// The labels of the types, among the first `n` of the listed order, that have the
/// efficiency, in that order.
pub open spec fn types_with_among(efficiency_of: Seq<Efficiency>, efficiency: Efficiency, n: nat) -> Seq<Seq<char>> {
    first_indices(n).filter(has_efficiency(efficiency_of, efficiency)).map_values(label_at())
}

/// The indices from 0 up to `n`, excluded.
pub open spec fn first_indices(n: nat) -> Seq<int> {
    Seq::new(n, |k: int| k)
}

/// Whether the type at an index has the efficiency.
pub open spec fn has_efficiency(efficiency_of: Seq<Efficiency>, efficiency: Efficiency) -> spec_fn(int) -> bool {
    |k: int| efficiency_of[k] == efficiency
}

/// The label of the type at an index of the listed order.
pub open spec fn label_at() -> spec_fn(int) -> Seq<char> {
    |k: int| type_label(all_types()[k])
}

/// The labels of the types (Shadow left out) that have the efficiency, in the listed order.
pub open spec fn types_with(efficiency_of: Seq<Efficiency>, efficiency: Efficiency) -> Seq<Seq<char>> {
    types_with_among(efficiency_of, efficiency, 18)
}

proof fn lemma_names_with_types(efficiency_of: Seq<Efficiency>, efficiency: Efficiency, n: nat)
    requires
        efficiency_of.len() == 18,
        n <= 18,
    ensures
        names_with(chart_mappings(efficiency_of).take(n as int), efficiency) == types_with_among(
            efficiency_of,
            efficiency,
            n,
        ),
    decreases n,
{
    let m = chart_mappings(efficiency_of);
    if n == 0 {
        assert(m.take(0) =~= Seq::<EfficiencyMapping>::empty());
        assert(first_indices(0) =~= Seq::<int>::empty());
        reveal(Seq::filter);
    } else {
        lemma_names_with_types(efficiency_of, efficiency, (n - 1) as nat);
        assert(m.take(n as int).drop_last() =~= m.take(n - 1));
        assert(m.take(n as int).last() == m[n - 1]);
        assert(all_types()[n - 1] != PokemonType::Shadow);
        let ids = first_indices(n);
        assert(ids.drop_last() =~= first_indices((n - 1) as nat));
        assert(ids.last() == n - 1);
        let pred = has_efficiency(efficiency_of, efficiency);
        let label = label_at();
        let before = first_indices((n - 1) as nat).filter(pred);
        assert(ids.filter(pred) == if pred(n - 1) { before.push(n - 1) } else { before }) by {
            reveal(Seq::filter);
        }
        if pred(n - 1) {
            assert(before.push(n - 1).map_values(label) =~= before.map_values(label) + seq![label(n - 1)]);
        }
    }
}

/// The chart lists, under the heading of each efficiency other than Normal that some
/// type has, exactly the types that have it, in the listed order and separated by bars.
pub proof fn law_section_lists_exactly_its_types(
    name: Seq<char>,
    emoji: Seq<char>,
    efficiency_of: Seq<Efficiency>,
    efficiency: Efficiency,
)
    requires
        efficiency_of.len() == 18,
        efficiency != Efficiency::Normal,
        types_with(efficiency_of, efficiency).len() > 0,
    ensures
        is_substring(
            type_resistances(name, emoji, efficiency_of),
            "### "@ + efficiency_label(efficiency) + seq!['\n'] + join(types_with(efficiency_of, efficiency), "  |  "@)
                + seq!['\n'],
        ),
{
    let m = chart_mappings(efficiency_of);
    lemma_names_with_types(efficiency_of, efficiency, 18);
    assert(m.take(18) =~= m);
    let section = efficiency_section(m, efficiency);
    assert(section.subrange(0, section.len() as int) =~= section);
    lemma_prefix_substring(section, section);
    lemma_section_in_chart(name, emoji, efficiency_of, efficiency, section);
}

/// Every efficiency other than Normal that a type has against the species is listed: the
/// chart holds its heading, followed on the next line by the first type that has it.
pub proof fn law_every_efficiency_is_listed(name: Seq<char>, emoji: Seq<char>, efficiency_of: Seq<Efficiency>, i: int)
    requires
        efficiency_of.len() == 18,
        0 <= i < 18,
        efficiency_of[i] != Efficiency::Normal,
        forall|j: int| 0 <= j < i ==> #[trigger] efficiency_of[j] != efficiency_of[i],
    ensures
        is_substring(
            type_resistances(name, emoji, efficiency_of),
            "### "@ + efficiency_label(efficiency_of[i]) + seq!['\n'] + type_label(all_types()[i]),
        ),
{
    let e = efficiency_of[i];
    let m = chart_mappings(efficiency_of);
    assert(all_types()[i] != PokemonType::Shadow);
    assert forall|j: int| 0 <= j < i implies !lists_with(#[trigger] m[j], e) by {
        assert(efficiency_of[j] != e);
    }
    lemma_names_with_first(m, e, i);
    let names = names_with(m, e);
    lemma_join_starts_with_first(names, "  |  "@);
    let heading = "### "@ + efficiency_label(e) + seq!['\n'];
    let q = heading + type_label(all_types()[i]);
    let section = efficiency_section(m, e);
    assert(section == heading + join(names, "  |  "@) + seq!['\n']);
    assert(section.subrange(0, q.len() as int) =~= q) by {
        assert(section.subrange(0, q.len() as int) =~= heading + join(names, "  |  "@).subrange(
            0,
            names[0].len() as int,
        ));
    }
    lemma_prefix_substring(section, q);
    lemma_section_in_chart(name, emoji, efficiency_of, e, q);
}

} // verus!
