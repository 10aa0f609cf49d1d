//! The parsed-font data model the collectors traverse.
//!
//! A layout table (GSUB or GPOS — the two share this shape) owns an ordered
//! list of script records and a feature list indexed by feature indices.
//! Each script record carries an optional default language system and an
//! ordered list of further language systems; a language system is a list of
//! feature indices into the table's feature list. Naming records pair a
//! numeric identifier with an optional decoded string (a record whose raw
//! value does not decode to a string carries `None`).
//!
//! The spec functions below say when a tag is reachable from a table; the
//! collectors' contracts are stated over them. A feature index with no entry
//! in the feature list reaches nothing — dangling indices are tolerated, not
//! reported.

use vstd::prelude::*;
use crate::tags::Tag;

verus! {

/// A language system: the feature indices it selects from the owning table's
/// feature list.
pub struct LangSystem {
    pub feature_indices: Vec<u16>,
}

/// A script record: its tag, its optional default language system, and its
/// further language systems, in table order.
pub struct ScriptRecord {
    pub tag: Tag,
    pub default_language: Option<LangSystem>,
    pub languages: Vec<LangSystem>,
}

/// A GSUB or GPOS table: scripts in table order, and the feature list the
/// scripts' language systems index into. Only each feature's tag matters
/// here, so the feature list is a list of tags.
pub struct LayoutTable {
    pub scripts: Vec<ScriptRecord>,
    pub features: Vec<Tag>,
}

/// A naming record: its numeric identifier and its decoded string value,
/// `None` where the raw record does not decode to a string.
pub struct NameRecord {
    pub name_id: u16,
    pub value: Option<String>,
}

/// Whether the language system `ls` reaches `tag` through some feature index
/// that resolves against the feature list `features`. An index at or beyond
/// the end of the feature list reaches nothing.
pub open spec fn langsys_has_feature(features: Seq<Tag>, ls: LangSystem, tag: Tag) -> bool {
    exists|k: int|
        0 <= k < ls.feature_indices@.len() && ls.feature_indices@[k] < features.len()
            && features[ls.feature_indices@[k] as int] == tag
}

/// Whether the script record `sc` reaches `tag`, through any of its language
/// systems or through its default language system.
pub open spec fn script_has_feature(features: Seq<Tag>, sc: ScriptRecord, tag: Tag) -> bool {
    (exists|li: int|
        0 <= li < sc.languages@.len() && langsys_has_feature(features, sc.languages@[li], tag)) || (
    sc.default_language is Some && langsys_has_feature(features, sc.default_language->0, tag))
}

/// Whether the table reaches `tag` from any of its scripts.
pub open spec fn table_has_feature(t: &LayoutTable, tag: Tag) -> bool {
    exists|si: int|
        0 <= si < t.scripts@.len() && script_has_feature(t.features@, t.scripts@[si], tag)
}

/// Whether an optional table reaches `tag`: an absent table reaches nothing.
pub open spec fn opt_table_has_feature(t: Option<&LayoutTable>, tag: Tag) -> bool {
    t is Some && table_has_feature(t->0, tag)
}

/// Whether the table's script list holds a script with tag `tag`.
pub open spec fn table_has_script(t: &LayoutTable, tag: Tag) -> bool {
    exists|si: int| 0 <= si < t.scripts@.len() && t.scripts@[si].tag == tag
}

/// Whether an optional table lists the script `tag`: an absent table lists
/// nothing.
pub open spec fn opt_table_has_script(t: Option<&LayoutTable>, tag: Tag) -> bool {
    t is Some && table_has_script(t->0, tag)
}

} // verus!
