//! Editing a character: which requested changes apply, what else they imply (new
//! emoji, a stat reset, a stale cache), and how the change is reported.

use vstd::prelude::*;

use crate::errors::ValidationError;
use crate::game::{type_label, with_shadow, PokemonTypeWithoutShadow};
use crate::text::{int_text, join, push_i64, push_joined, push_str, views};

verus! {

/// The stored values of a character that an edit may change.
pub struct CharacterEditRecord {
    pub user_id: i64,
    pub name: String,
    pub species_api_id: i64,
    pub is_shiny: bool,
    pub species_override_for_stats: Option<i64>,
}

/// A species picked by the user, with its API id.
pub struct SpeciesChoice {
    pub api_id: i64,
    pub name: String,
}

/// A new owner picked by the user: their id and their mention.
pub struct OwnerChoice {
    pub id: u64,
    pub mention: String,
}

/// The changes a user asked for; each is optional.
pub struct CharacterEditRequest {
    pub name: Option<String>,
    pub species: Option<SpeciesChoice>,
    pub species_override_for_stats: Option<SpeciesChoice>,
    pub is_shiny: Option<bool>,
    pub tera_type: Option<PokemonTypeWithoutShadow>,
    pub tera_count: Option<i64>,
    pub new_owner: Option<OwnerChoice>,
}

/// What to store and do for an edit, and the list of changes to report.
pub struct CharacterEditPlan {
    pub name: String,
    pub species_api_id: i64,
    pub species_override_for_stats: Option<i64>,
    pub is_shiny: bool,
    pub user_id: i64,
    pub tera_charges: Option<(PokemonTypeWithoutShadow, i64)>,
    pub create_emojis: bool,
    pub reset_stats: bool,
    pub invalidate_cache: bool,
    pub changes: Vec<String>,
}

/// The refusal to change a species and its override at once.
pub const SPECIES_AND_OVERRIDE: &'static str = "You can't (and probably also don't really want to) edit a character's species and its override at the same time:
- Changing the species will remove any existing overrides.
- Overrides are meant for situations where you aren't able to change the species due to to other external constraints.";

/// The refusal of a terastallization type without a count.
pub const TERA_COUNT_MISSING: &'static str = "To set tera_type, also set tera_count to the amount of tera charges that type should have.";

/// The refusal of a terastallization count without a type.
pub const TERA_TYPE_MISSING: &'static str = "To set tera_count, also set tera_type so I know which type you want to change.";

/// The refusal of an edit that changes nothing.
pub const NO_CHANGES: &'static str = "No changes requested, aborting.";

/// The change reported for the species, if a new one is picked.
pub open spec fn species_change(r: CharacterEditRecord, q: CharacterEditRequest) -> Seq<Seq<char>> {
    match q.species {
        Some(s) => if s.api_id != r.species_api_id {
            seq!["species to "@ + s.name@]
        } else {
            Seq::empty()
        },
        None => Seq::empty(),
    }
}

/// Whether picking the species that the override pointed to drops the override.
pub open spec fn drops_override(r: CharacterEditRecord, q: CharacterEditRequest) -> bool {
    q.species matches Some(s) && r.species_override_for_stats == Some(s.api_id)
}

/// The change reported for the override.
pub open spec fn override_change(r: CharacterEditRecord, q: CharacterEditRequest) -> Seq<Seq<char>> {
    match q.species_override_for_stats {
        Some(o) => if o.api_id != r.species_api_id {
            seq!["species stat override to "@ + o.name@]
        } else {
            seq!["removed species stat override"@]
        },
        None => if drops_override(r, q) {
            seq!["removed species stat override"@]
        } else {
            Seq::empty()
        },
    }
}

/// The override after the edit.
pub open spec fn new_override(r: CharacterEditRecord, q: CharacterEditRequest) -> Option<i64> {
    match q.species_override_for_stats {
        Some(o) => if o.api_id != r.species_api_id { Some(o.api_id) } else { None },
        None => if drops_override(r, q) { None } else { r.species_override_for_stats },
    }
}

/// Whether the stats are reset: a new species resets them unless an override keeps the
/// stats, or the new species is the override's; a new override always resets them.
pub open spec fn resets_stats(r: CharacterEditRecord, q: CharacterEditRequest) -> bool {
    let by_species = match q.species {
        Some(s) => if drops_override(r, q) {
            false
        } else {
            s.api_id != r.species_api_id && r.species_override_for_stats is None
        },
        None => false,
    };
    match q.species_override_for_stats {
        Some(o) => o.api_id != r.species_api_id || by_species,
        None => by_species,
    }
}

/// The text of a `bool` as `Display` writes it.
pub open spec fn bool_text(b: bool) -> Seq<char> {
    if b { "true"@ } else { "false"@ }
}

/// All changes to report, in order: species, override, name, shininess,
/// terastallization, owner.
pub open spec fn edit_changes(r: CharacterEditRecord, q: CharacterEditRequest) -> Seq<Seq<char>> {
    species_change(r, q) + override_change(r, q) + other_changes(q)
}

/// The changes to report for name, shininess, terastallization and owner.
pub open spec fn other_changes(q: CharacterEditRequest) -> Seq<Seq<char>> {
    let name_change: Seq<Seq<char>> = match q.name {
        Some(n) => seq!["name to "@ + n@],
        None => Seq::empty(),
    };
    let shiny_change: Seq<Seq<char>> = match q.is_shiny {
        Some(b) => seq!["is_shiny to "@ + bool_text(b)],
        None => Seq::empty(),
    };
    let tera_change: Seq<Seq<char>> = match (q.tera_type, q.tera_count) {
        (Some(t), Some(c)) => seq![type_label(with_shadow(t)) + " Terastallization count to "@ + int_text(c as int)],
        _ => Seq::empty(),
    };
    let owner_change: Seq<Seq<char>> = match q.new_owner {
        Some(o) => seq!["owner to "@ + o.mention@],
        None => Seq::empty(),
    };
    name_change + shiny_change + tera_change + owner_change
}

/// The error of an edit, if it is refused.
pub open spec fn edit_error(r: CharacterEditRecord, q: CharacterEditRequest) -> Option<Seq<char>> {
    if q.species is Some && q.species_override_for_stats is Some {
        Some(SPECIES_AND_OVERRIDE@)
    } else if q.tera_type is Some && q.tera_count is None {
        Some(TERA_COUNT_MISSING@)
    } else if q.tera_type is None && q.tera_count is Some {
        Some(TERA_TYPE_MISSING@)
    } else if edit_changes(r, q).len() == 0 {
        Some(NO_CHANGES@)
    } else {
        None
    }
}

fn push_change(changes: &mut Vec<String>, prefix: &str, value: &str)
    ensures
        final(changes)@.len() == old(changes)@.len() + 1,
        views(final(changes)@) == views(old(changes)@).push(prefix@ + value@),
{
    let mut s = String::new();
    push_str(&mut s, prefix);
    push_str(&mut s, value);
    let ghost before = views(changes@);
    changes.push(s);
    assert(views(changes@) =~= before.push(prefix@ + value@));
}

fn push_change_text(changes: &mut Vec<String>, text: &str)
    ensures
        views(final(changes)@) == views(old(changes)@).push(text@),
{
    let mut s = String::new();
    push_str(&mut s, text);
    let ghost before = views(changes@);
    changes.push(s);
    assert(views(changes@) =~= before.push(text@));
}

/// The species, the override and whether stats are reset, with the changes reported
/// for species and override.
fn plan_species(record: &CharacterEditRecord, request: &CharacterEditRequest) -> (r: (i64, Option<i64>, bool, Vec<String>))
    requires
        !(request.species is Some && request.species_override_for_stats is Some),
    ensures
        r.0 == match request.species {
            Some(s) => s.api_id,
            None => record.species_api_id,
        },
        r.1 == new_override(*record, *request),
        r.2 == resets_stats(*record, *request),
        views(r.3@) == species_change(*record, *request) + override_change(*record, *request),
{
    let mut changes: Vec<String> = Vec::new();
    let mut should_stats_be_reset = false;
    let mut reset_species_override = false;
    let species_api_id = match &request.species {
        Some(species) => {
            if species.api_id != record.species_api_id {
                push_change(&mut changes, "species to ", species.name.as_str());
                should_stats_be_reset = record.species_override_for_stats.is_none();
            }
            if let Some(existing) = record.species_override_for_stats {
                if existing == species.api_id {
                    reset_species_override = true;
                    should_stats_be_reset = false;
                }
            }
            species.api_id
        },
        None => record.species_api_id,
    };
    assert(views(changes@) =~= species_change(*record, *request));
    let species_override_for_stats = match &request.species_override_for_stats {
        Some(o) => {
            if o.api_id != record.species_api_id {
                push_change(&mut changes, "species stat override to ", o.name.as_str());
                should_stats_be_reset = true;
                Some(o.api_id)
            } else {
                push_change_text(&mut changes, "removed species stat override");
                None
            }
        },
        None => if reset_species_override {
            push_change_text(&mut changes, "removed species stat override");
            None
        } else {
            record.species_override_for_stats
        },
    };
    assert(views(changes@) =~= species_change(*record, *request) + override_change(*record, *request));
    (species_api_id, species_override_for_stats, should_stats_be_reset, changes)
}

fn push_other_changes(changes: &mut Vec<String>, request: &CharacterEditRequest)
    requires
        !(request.tera_type is Some && request.tera_count is None),
    ensures
        views(final(changes)@) == views(old(changes)@) + other_changes(*request),
{
    let ghost start = views(changes@);
    match &request.name {
        Some(n) => push_change(changes, "name to ", n.as_str()),
        None => {},
    }
    let ghost after_name = views(changes@);
    match request.is_shiny {
        Some(b) => push_change(changes, "is_shiny to ", if b { "true" } else { "false" }),
        None => {},
    }
    let ghost after_shiny = views(changes@);
    match (request.tera_type, request.tera_count) {
        (Some(t), Some(c)) => {
            let mut s = String::new();
            push_str(&mut s, t.name());
            push_str(&mut s, " Terastallization count to ");
            push_i64(&mut s, c);
            push_change_text(changes, s.as_str());
        },
        _ => {},
    }
    let ghost after_tera = views(changes@);
    match &request.new_owner {
        Some(o) => push_change(changes, "owner to ", o.mention.as_str()),
        None => {},
    }
    assert(views(changes@) =~= start + other_changes(*request));
}

/// Plans an edit: refused where species and override are both given, where only one of
/// terastallization type and count is given, or where nothing would change; else the
/// values to store, what else to do, and the changes to report.
pub fn plan_character_edit(record: &CharacterEditRecord, request: &CharacterEditRequest) -> (r: Result<CharacterEditPlan, ValidationError>)
    ensures
        edit_error(*record, *request) is Some <==> r is Err,
        r matches Err(e) ==> Some(e.message@) == edit_error(*record, *request),
        r matches Ok(p) ==> {
            &&& p.name@ == match request.name {
                Some(n) => n@,
                None => record.name@,
            }
            &&& p.species_api_id == match request.species {
                Some(s) => s.api_id,
                None => record.species_api_id,
            }
            &&& p.species_override_for_stats == new_override(*record, *request)
            &&& p.is_shiny == match request.is_shiny {
                Some(b) => b,
                None => record.is_shiny,
            }
            &&& p.user_id == match request.new_owner {
                Some(o) => o.id as i64,
                None => record.user_id,
            }
            &&& p.tera_charges == match (request.tera_type, request.tera_count) {
                (Some(t), Some(c)) => Some((t, c)),
                _ => None,
            }
            &&& p.create_emojis == (request.species is Some || request.is_shiny is Some)
            &&& p.reset_stats == resets_stats(*record, *request)
            &&& p.invalidate_cache == request.new_owner is Some
            &&& views(p.changes@) == edit_changes(*record, *request)
        },
{
    if request.species.is_some() && request.species_override_for_stats.is_some() {
        return Err(ValidationError::new(SPECIES_AND_OVERRIDE));
    }
    if request.tera_type.is_some() && request.tera_count.is_none() {
        return Err(ValidationError::new(TERA_COUNT_MISSING));
    }
    if request.tera_type.is_none() && request.tera_count.is_some() {
        return Err(ValidationError::new(TERA_TYPE_MISSING));
    }
    let (species_api_id, species_override_for_stats, should_stats_be_reset, mut changes) = plan_species(
        record,
        request,
    );
    let create_emojis = request.species.is_some() || request.is_shiny.is_some();
    push_other_changes(&mut changes, request);
    let mut name = String::new();
    match &request.name {
        Some(n) => push_str(&mut name, n.as_str()),
        None => push_str(&mut name, record.name.as_str()),
    }
    let is_shiny = match request.is_shiny {
        Some(b) => b,
        None => record.is_shiny,
    };
    let tera_charges = match (request.tera_type, request.tera_count) {
        (Some(t), Some(c)) => Some((t, c)),
        _ => None,
    };
    let invalidate_cache = request.new_owner.is_some();
    let user_id = match &request.new_owner {
        Some(o) => o.id as i64,
        None => record.user_id,
    };
    if changes.len() == 0 {
        return Err(ValidationError::new(NO_CHANGES));
    }
    Ok(CharacterEditPlan {
        name,
        species_api_id,
        species_override_for_stats,
        is_shiny,
        user_id,
        tera_charges,
        create_emojis,
        reset_stats: should_stats_be_reset,
        invalidate_cache,
        changes,
    })
}

/// The changes as reported, with the stat reset added where it happened.
pub open spec fn reported_changes(changes: Seq<Seq<char>>, reset_stats: bool) -> Seq<char> {
    join(if reset_stats { changes.push("and reset their stats"@) } else { changes }, ", "@)
}

/// The report of an edit: `{verb} {name}'s {changes}.`, with `Set` for the action log
/// and `Updated` for the reply.
pub fn edit_report(verb: &str, character_name: &str, changes: &Vec<String>, reset_stats: bool) -> (s: String)
    ensures
        s@ == verb@ + seq![' '] + character_name@ + "'s "@ + reported_changes(views(changes@), reset_stats)
            + seq!['.'],
{
    let mut all: Vec<String> = Vec::new();
    let mut i: usize = 0;
    while i < changes.len()
        invariant
            i <= changes.len(),
            views(all@) == views(changes@).subrange(0, i as int),
        decreases changes.len() - i,
    {
        let mut c = String::new();
        push_str(&mut c, changes[i].as_str());
        let ghost old_all = all@;
        all.push(c);
        assert(views(all@) =~= views(old_all).push(changes@[i as int]@));
        assert(views(all@) =~= views(changes@).subrange(0, i + 1));
        i = i + 1;
    }
    assert(views(all@) =~= views(changes@));
    if reset_stats {
        let mut c = String::new();
        push_str(&mut c, "and reset their stats");
        let ghost old_all = all@;
        all.push(c);
        assert(views(all@) =~= views(old_all).push("and reset their stats"@));
        assert(views(all@) =~= views(changes@).push("and reset their stats"@));
    }
    let mut s = String::new();
    push_str(&mut s, verb);
    push_str(&mut s, " ");
    push_str(&mut s, character_name);
    push_str(&mut s, "'s ");
    push_joined(&mut s, &all, ", ");
    push_str(&mut s, ".");
    proof {
        reveal_strlit(" ");
        reveal_strlit(".");
    }
    assert(s@ =~= verb@ + seq![' '] + character_name@ + "'s "@ + reported_changes(views(changes@), reset_stats)
        + seq!['.']);
    s
}

} // verus!
