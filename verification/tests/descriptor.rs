use fontinfo::descriptor::describe_opentype_feature;

#[test]
fn registered_tags_have_their_registry_names() {
    assert_eq!(describe_opentype_feature("kern"), "Kerning");
    assert_eq!(describe_opentype_feature("liga"), "Standard Ligatures");
    assert_eq!(describe_opentype_feature("aalt"), "Access All Alternates");
    assert_eq!(describe_opentype_feature("c2sc"), "Small Capitals From Capitals");
    assert_eq!(describe_opentype_feature("ss01"), "Stylistic Set 1");
    assert_eq!(describe_opentype_feature("ss20"), "Stylistic Set 20");
    assert_eq!(describe_opentype_feature("zero"), "Slashed Zero");
    assert_eq!(describe_opentype_feature("vrt2"), "Vertical Alternates and Rotation");
}

#[test]
fn unregistered_four_character_tags_are_unknown() {
    assert_eq!(describe_opentype_feature("zzzz"), "Unknown feature");
    assert_eq!(describe_opentype_feature("ss21"), "Unknown feature");
    assert_eq!(describe_opentype_feature("KERN"), "Unknown feature");
}

#[test]
fn malformed_tags_are_unknown_not_errors() {
    assert_eq!(describe_opentype_feature(""), "Unknown feature");
    assert_eq!(describe_opentype_feature("ker"), "Unknown feature");
    assert_eq!(describe_opentype_feature("kerning"), "Unknown feature");
    assert_eq!(describe_opentype_feature("k\u{e9}rn"), "Unknown feature");
    assert_eq!(describe_opentype_feature("    "), "Unknown feature");
}

#[test]
fn descriptor_is_deterministic() {
    assert_eq!(describe_opentype_feature("kern"), describe_opentype_feature("kern"));
    assert_eq!(describe_opentype_feature("zzzz"), describe_opentype_feature("zzzz"));
}
