use fontinfo::model::NameRecord;
use fontinfo::names::{
    fallback_name_entries, get_name, resolve_names, NameEntry, NameReport, NAME_ID_FAMILY,
    NAME_ID_FULL_NAME, NAME_ID_POST_SCRIPT_NAME, NAME_ID_SUBFAMILY, NAME_ID_VERSION,
};

fn rec(name_id: u16, value: Option<&str>) -> NameRecord {
    NameRecord { name_id, value: value.map(String::from) }
}

#[test]
fn get_name_returns_first_decodable_match() {
    let records = vec![
        rec(1, None),
        rec(2, Some("Regular")),
        rec(1, Some("Demo Sans")),
        rec(1, Some("Demo Sans Duplicate")),
    ];
    assert_eq!(get_name(&records, 1), Some(String::from("Demo Sans")));
    assert_eq!(get_name(&records, 2), Some(String::from("Regular")));
    assert_eq!(get_name(&records, 4), None);
}

#[test]
fn get_name_skips_undecodable_records() {
    let records = vec![rec(4, None), rec(4, None)];
    assert_eq!(get_name(&records, 4), None);
}

#[test]
fn standard_names_suppress_the_fallback() {
    // One standard identifier (version, id 5) decodes: the resolver reports
    // the standard entries and the fallback dump must not run.
    let records = vec![rec(3, Some("Unique ID")), rec(5, Some("Version 1.000"))];
    match resolve_names(&records) {
        NameReport::Standard { names } => {
            assert_eq!(names.family, None);
            assert_eq!(names.subfamily, None);
            assert_eq!(names.full_name, None);
            assert_eq!(names.postscript_name, None);
            assert_eq!(names.version, Some(String::from("Version 1.000")));
        }
        NameReport::Fallback { .. } => panic!("fallback ran despite a standard name"),
    }
}

#[test]
fn fallback_runs_when_no_standard_name_decodes() {
    // Ids 1, 2, 4, 5, 6 are absent or undecodable: the resolver dumps every
    // decodable record with its raw id, in record order, without sorting or
    // deduplication.
    let records = vec![
        rec(7, Some("Trademark")),
        rec(1, None),
        rec(3, Some("Unique ID")),
        rec(8, None),
        rec(3, Some("Unique ID")),
    ];
    match resolve_names(&records) {
        NameReport::Standard { .. } => panic!("no standard name decodes, yet Standard was reported"),
        NameReport::Fallback { entries } => {
            assert_eq!(
                entries,
                vec![
                    NameEntry { name_id: 7, text: String::from("Trademark") },
                    NameEntry { name_id: 3, text: String::from("Unique ID") },
                    NameEntry { name_id: 3, text: String::from("Unique ID") },
                ]
            );
        }
    }
}

#[test]
fn all_five_standard_names_resolve() {
    let records = vec![
        rec(NAME_ID_FAMILY, Some("Demo Sans")),
        rec(NAME_ID_SUBFAMILY, Some("Bold")),
        rec(NAME_ID_FULL_NAME, Some("Demo Sans Bold")),
        rec(NAME_ID_VERSION, Some("Version 2.1")),
        rec(NAME_ID_POST_SCRIPT_NAME, Some("DemoSans-Bold")),
    ];
    match resolve_names(&records) {
        NameReport::Standard { names } => {
            assert_eq!(names.family, Some(String::from("Demo Sans")));
            assert_eq!(names.subfamily, Some(String::from("Bold")));
            assert_eq!(names.full_name, Some(String::from("Demo Sans Bold")));
            assert_eq!(names.postscript_name, Some(String::from("DemoSans-Bold")));
            assert_eq!(names.version, Some(String::from("Version 2.1")));
        }
        NameReport::Fallback { .. } => panic!("fallback ran despite standard names"),
    }
}

#[test]
fn fallback_entries_keep_record_order() {
    let records = vec![rec(9, Some("c")), rec(7, Some("a")), rec(8, Some("b"))];
    let entries = fallback_name_entries(&records);
    let ids: Vec<u16> = entries.iter().map(|e| e.name_id).collect();
    assert_eq!(ids, vec![9, 7, 8]);
}

#[test]
fn empty_record_list_yields_empty_fallback() {
    let records: Vec<NameRecord> = vec![];
    match resolve_names(&records) {
        NameReport::Standard { .. } => panic!("Standard reported for an empty record list"),
        NameReport::Fallback { entries } => assert!(entries.is_empty()),
    }
}
