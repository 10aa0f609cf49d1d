//! The name resolver.
//!
//! A font's naming table is an ordered sequence of records, each pairing a
//! numeric identifier with a value that may or may not decode to a string;
//! the same identifier may occur several times. Resolution returns the first
//! record with the wanted identifier that decodes; records that do not decode
//! are skipped, never reported. If none of the five standard identifiers
//! (family, subfamily, full name, PostScript name, version) resolves, the
//! resolver falls back to the diagnostic dump: every decodable record with
//! its raw identifier, in the font's native record order — no deduplication,
//! no sorting.

use vstd::prelude::*;
use crate::model::NameRecord;

verus! {

pub const NAME_ID_FAMILY: u16 = 1;

pub const NAME_ID_SUBFAMILY: u16 = 2;

pub const NAME_ID_FULL_NAME: u16 = 4;

pub const NAME_ID_VERSION: u16 = 5;

pub const NAME_ID_POST_SCRIPT_NAME: u16 = 6;

/// The value of the first record with identifier `id` that decodes to a
/// string, or `None` if no record with that identifier decodes.
pub open spec fn spec_first_name(records: Seq<NameRecord>, id: u16) -> Option<Seq<char>>
    decreases records.len(),
{
    if records.len() == 0 {
        None
    } else if records[0].name_id == id && records[0].value is Some {
        Some(records[0].value->0@)
    } else {
        spec_first_name(records.drop_first(), id)
    }
}

/// Whether `v` is exactly what resolving `id` against `records` yields.
pub open spec fn matches_first(records: Seq<NameRecord>, id: u16, v: Option<String>) -> bool {
    match v {
        Some(s) => spec_first_name(records, id) == Some(s@),
        None => spec_first_name(records, id) is None,
    }
}

/// The decodable records, as (identifier, value) pairs in record order.
pub open spec fn spec_decodable_entries(records: Seq<NameRecord>) -> Seq<(u16, Seq<char>)>
    decreases records.len(),
{
    if records.len() == 0 {
        Seq::empty()
    } else {
        let rest = spec_decodable_entries(records.drop_last());
        if records.last().value is Some {
            rest + seq![(records.last().name_id, records.last().value->0@)]
        } else {
            rest
        }
    }
}

/// Whether any of the five standard identifiers resolves against `records`.
pub open spec fn has_standard_name(records: Seq<NameRecord>) -> bool {
    spec_first_name(records, NAME_ID_FAMILY) is Some || spec_first_name(
        records,
        NAME_ID_SUBFAMILY,
    ) is Some || spec_first_name(records, NAME_ID_FULL_NAME) is Some || spec_first_name(
        records,
        NAME_ID_POST_SCRIPT_NAME,
    ) is Some || spec_first_name(records, NAME_ID_VERSION) is Some
}

/// The five standard naming-table entries, each resolved independently.
#[derive(PartialEq, Eq, Debug)]
pub struct StandardNames {
    pub family: Option<String>,
    pub subfamily: Option<String>,
    pub full_name: Option<String>,
    pub postscript_name: Option<String>,
    pub version: Option<String>,
}

/// One entry of the diagnostic fallback dump.
#[derive(PartialEq, Eq, Debug)]
pub struct NameEntry {
    pub name_id: u16,
    pub text: String,
}

/// What the name resolver reports: the standard entries where at least one
/// of them resolves, otherwise the fallback dump of every decodable record.
pub enum NameReport {
    Standard { names: StandardNames },
    Fallback { entries: Vec<NameEntry> },
}

/// Returns the value of the first record with identifier `name_id` that
/// decodes to a string; records that do not decode are skipped.
#[verifier::loop_isolation(false)]
pub fn get_name(records: &Vec<NameRecord>, name_id: u16) -> (r: Option<String>)
    ensures
        matches_first(records@, name_id, r),
{
    let mut i: usize = 0;
    proof {
        assert(records@.skip(0) =~= records@);
    }
    while i < records.len()
        invariant
            i <= records@.len(),
            spec_first_name(records@, name_id) == spec_first_name(
                records@.skip(i as int),
                name_id,
            ),
        decreases records@.len() - i,
    {
        let rec = &records[i];
        proof {
            assert(records@.skip(i as int)[0] == records@[i as int]);
        }
        if rec.name_id == name_id {
            if let Some(s) = &rec.value {
                return Some(s.clone());
            }
        }
        proof {
            assert(records@.skip(i as int).drop_first() =~= records@.skip(i as int + 1));
        }
        i += 1;
    }
    proof {
        assert(records@.skip(records@.len() as int) =~= Seq::<NameRecord>::empty());
    }
    None
}

/// Returns every record that decodes to a string, paired with its raw
/// identifier, in the font's native record order.
#[verifier::loop_isolation(false)]
pub fn fallback_name_entries(records: &Vec<NameRecord>) -> (r: Vec<NameEntry>)
    ensures
        r@.map_values(|e: NameEntry| (e.name_id, e.text@)) == spec_decodable_entries(records@),
{
    let mut out: Vec<NameEntry> = Vec::new();
    let mut i: usize = 0;
    while i < records.len()
        invariant
            i <= records@.len(),
            out@.map_values(|e: NameEntry| (e.name_id, e.text@)) == spec_decodable_entries(
                records@.take(i as int),
            ),
        decreases records@.len() - i,
    {
        let ghost prefix = records@.take(i as int);
        let ghost prefix_next = records@.take(i as int + 1);
        proof {
            assert(prefix_next.drop_last() =~= prefix);
            assert(prefix_next.last() == records@[i as int]);
        }
        let rec = &records[i];
        if let Some(s) = &rec.value {
            let ghost before = out@;
            out.push(NameEntry { name_id: rec.name_id, text: s.clone() });
            proof {
                assert(out@.map_values(|e: NameEntry| (e.name_id, e.text@)) =~= before.map_values(
                    |e: NameEntry| (e.name_id, e.text@),
                ) + seq![(records@[i as int].name_id, records@[i as int].value->0@)]);
            }
        }
        i += 1;
    }
    proof {
        assert(records@.take(records@.len() as int) =~= records@);
    }
    out
}

/// Determinism of name resolution: the resolver's contract — the exact first
/// decodable record per identifier — admits a single answer per record
/// sequence, so any two results for the same records agree.
pub proof fn lemma_name_resolution_deterministic(
    records: Seq<NameRecord>,
    id: u16,
    r1: Option<String>,
    r2: Option<String>,
)
    requires
        matches_first(records, id, r1),
        matches_first(records, id, r2),
    ensures
        r1 is Some <==> r2 is Some,
        r1 is Some ==> r1->0@ == r2->0@,
{
}

/// Resolves the five standard names; if none of them resolves, reports the
/// diagnostic fallback dump instead. The fallback runs exactly when no record
/// with one of the five standard identifiers decodes to a string.
pub fn resolve_names(records: &Vec<NameRecord>) -> (r: NameReport)
    ensures
        r is Standard <==> has_standard_name(records@),
        r is Standard ==> matches_first(records@, NAME_ID_FAMILY, r->names.family),
        r is Standard ==> matches_first(records@, NAME_ID_SUBFAMILY, r->names.subfamily),
        r is Standard ==> matches_first(records@, NAME_ID_FULL_NAME, r->names.full_name),
        r is Standard ==> matches_first(
            records@,
            NAME_ID_POST_SCRIPT_NAME,
            r->names.postscript_name,
        ),
        r is Standard ==> matches_first(records@, NAME_ID_VERSION, r->names.version),
        r is Fallback ==> r->entries@.map_values(|e: NameEntry| (e.name_id, e.text@))
            == spec_decodable_entries(records@),
{
    let family = get_name(records, NAME_ID_FAMILY);
    let subfamily = get_name(records, NAME_ID_SUBFAMILY);
    let full_name = get_name(records, NAME_ID_FULL_NAME);
    let postscript_name = get_name(records, NAME_ID_POST_SCRIPT_NAME);
    let version = get_name(records, NAME_ID_VERSION);
    if family.is_some() || subfamily.is_some() || full_name.is_some() || postscript_name.is_some()
        || version.is_some() {
        NameReport::Standard {
            names: StandardNames { family, subfamily, full_name, postscript_name, version },
        }
    } else {
        NameReport::Fallback { entries: fallback_name_entries(records) }
    }
}

} // verus!
