use fontinfo::model::{LangSystem, LayoutTable, ScriptRecord};
use fontinfo::features::collect_features;
use fontinfo::scripts::collect_scripts;
use fontinfo::tags::{sort_tags, tag_less, tags_contain, Tag};

fn t(s: &str) -> Tag {
    let b = s.as_bytes();
    assert_eq!(b.len(), 4);
    Tag::new(b[0], b[1], b[2], b[3])
}

fn lang(indices: Vec<u16>) -> LangSystem {
    LangSystem { feature_indices: indices }
}

#[test]
fn example_scenario() {
    // GSUB: "latn" with one language system using feature 0 and a default
    // language system using feature 1; "cyrl" with only a default language
    // system using feature 0. Features: [kern, liga].
    let gsub = LayoutTable {
        scripts: vec![
            ScriptRecord {
                tag: t("latn"),
                default_language: Some(lang(vec![1])),
                languages: vec![lang(vec![0])],
            },
            ScriptRecord {
                tag: t("cyrl"),
                default_language: Some(lang(vec![0])),
                languages: vec![],
            },
        ],
        features: vec![t("kern"), t("liga")],
    };
    let features = collect_features(Some(&gsub));
    assert_eq!(features, vec![t("kern"), t("liga")]);
    let scripts = collect_scripts(Some(&gsub), None);
    assert_eq!(scripts, vec![t("cyrl"), t("latn")]);
}

#[test]
fn deduplicates_features_across_scripts_and_languages() {
    // The same feature is reachable through two scripts, two language
    // systems, and a default language system; it must appear once.
    let table = LayoutTable {
        scripts: vec![
            ScriptRecord {
                tag: t("latn"),
                default_language: Some(lang(vec![0])),
                languages: vec![lang(vec![0, 0]), lang(vec![0])],
            },
            ScriptRecord {
                tag: t("grek"),
                default_language: None,
                languages: vec![lang(vec![0])],
            },
        ],
        features: vec![t("liga")],
    };
    let features = collect_features(Some(&table));
    assert_eq!(features, vec![t("liga")]);
}

#[test]
fn deduplicates_scripts_across_tables() {
    let gsub = LayoutTable {
        scripts: vec![
            ScriptRecord { tag: t("latn"), default_language: None, languages: vec![] },
            ScriptRecord { tag: t("arab"), default_language: None, languages: vec![] },
        ],
        features: vec![],
    };
    let gpos = LayoutTable {
        scripts: vec![
            ScriptRecord { tag: t("latn"), default_language: None, languages: vec![] },
            ScriptRecord { tag: t("cyrl"), default_language: None, languages: vec![] },
        ],
        features: vec![],
    };
    let scripts = collect_scripts(Some(&gsub), Some(&gpos));
    assert_eq!(scripts, vec![t("arab"), t("cyrl"), t("latn")]);
}

#[test]
fn output_is_strictly_ascending() {
    let table = LayoutTable {
        scripts: vec![ScriptRecord {
            tag: t("latn"),
            default_language: Some(lang(vec![3, 0, 2, 1, 0, 3])),
            languages: vec![],
        }],
        features: vec![t("zero"), t("kern"), t("liga"), t("calt")],
    };
    let features = collect_features(Some(&table));
    assert_eq!(features, vec![t("calt"), t("kern"), t("liga"), t("zero")]);
    for i in 1..features.len() {
        assert!(tag_less(&features[i - 1], &features[i]));
    }
}

#[test]
fn absent_and_empty_tables_agree() {
    let empty = LayoutTable { scripts: vec![], features: vec![t("kern")] };
    let from_absent = collect_features(None);
    let from_empty = collect_features(Some(&empty));
    assert!(from_absent.is_empty());
    assert_eq!(from_absent, from_empty);
    assert!(collect_scripts(None, None).is_empty());
}

#[test]
fn dangling_feature_indices_are_excluded() {
    // Index 7 has no entry in the two-element feature list: it is skipped,
    // while the valid indices still contribute.
    let table = LayoutTable {
        scripts: vec![ScriptRecord {
            tag: t("latn"),
            default_language: Some(lang(vec![7, 1])),
            languages: vec![lang(vec![0, 9])],
        }],
        features: vec![t("kern"), t("liga")],
    };
    let features = collect_features(Some(&table));
    assert_eq!(features, vec![t("kern"), t("liga")]);

    let all_dangling = LayoutTable {
        scripts: vec![ScriptRecord {
            tag: t("latn"),
            default_language: Some(lang(vec![2, 3])),
            languages: vec![],
        }],
        features: vec![t("kern"), t("liga")],
    };
    assert!(collect_features(Some(&all_dangling)).is_empty());
}

#[test]
fn collectors_are_deterministic() {
    let gsub = LayoutTable {
        scripts: vec![ScriptRecord {
            tag: t("latn"),
            default_language: Some(lang(vec![0, 1])),
            languages: vec![lang(vec![1])],
        }],
        features: vec![t("liga"), t("kern")],
    };
    let gpos = LayoutTable {
        scripts: vec![ScriptRecord {
            tag: t("grek"),
            default_language: Some(lang(vec![0])),
            languages: vec![],
        }],
        features: vec![t("mark")],
    };
    assert_eq!(collect_features(Some(&gsub)), collect_features(Some(&gsub)));
    assert_eq!(collect_features(Some(&gpos)), collect_features(Some(&gpos)));
    assert_eq!(
        collect_scripts(Some(&gsub), Some(&gpos)),
        collect_scripts(Some(&gsub), Some(&gpos))
    );
}

#[test]
fn gsub_and_gpos_are_collected_independently() {
    let gsub = LayoutTable {
        scripts: vec![ScriptRecord {
            tag: t("latn"),
            default_language: Some(lang(vec![0])),
            languages: vec![],
        }],
        features: vec![t("liga")],
    };
    let gpos = LayoutTable {
        scripts: vec![ScriptRecord {
            tag: t("latn"),
            default_language: Some(lang(vec![0])),
            languages: vec![],
        }],
        features: vec![t("kern")],
    };
    assert_eq!(collect_features(Some(&gsub)), vec![t("liga")]);
    assert_eq!(collect_features(Some(&gpos)), vec![t("kern")]);
}

#[test]
fn script_merge_is_symmetric() {
    let gsub = LayoutTable {
        scripts: vec![
            ScriptRecord { tag: t("latn"), default_language: None, languages: vec![] },
            ScriptRecord { tag: t("deva"), default_language: None, languages: vec![] },
        ],
        features: vec![],
    };
    let gpos = LayoutTable {
        scripts: vec![ScriptRecord { tag: t("arab"), default_language: None, languages: vec![] }],
        features: vec![],
    };
    assert_eq!(
        collect_scripts(Some(&gsub), Some(&gpos)),
        collect_scripts(Some(&gpos), Some(&gsub))
    );
}

#[test]
fn sort_tags_sorts_and_deduplicates() {
    let jumbled = vec![t("liga"), t("kern"), t("liga"), t("aalt"), t("kern")];
    let sorted = sort_tags(&jumbled);
    assert_eq!(sorted, vec![t("aalt"), t("kern"), t("liga")]);
    assert!(tags_contain(&sorted, &t("kern")));
    assert!(!tags_contain(&sorted, &t("zero")));
}

#[test]
fn tag_order_is_lexicographic() {
    assert!(tag_less(&t("aalt"), &t("abvf")));
    assert!(tag_less(&t("kern"), &t("kerx")));
    assert!(tag_less(&t("ss01"), &t("ss02")));
    assert!(!tag_less(&t("kern"), &t("kern")));
    assert!(!tag_less(&t("liga"), &t("kern")));
}
