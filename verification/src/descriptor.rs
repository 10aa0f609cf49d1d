//! The feature descriptor.
//!
//! Maps a four-character OpenType feature tag to its fixed human-readable
//! English name, by exact match against the static registry of known feature
//! tags. The lookup is total: a tag that is not registered — including a
//! private-use tag or a string that is not four characters long — yields the
//! constant "Unknown feature" marker, never an error.

use vstd::prelude::*;

verus! {

/// The registry entry for the tag with characters `c0 c1 c2 c3`, or
/// "Unknown feature" for an unregistered tag.
pub open spec fn spec_feature_description4(c0: char, c1: char, c2: char, c3: char) -> Seq<char> {
    if c0 == 'a' && c1 == 'a' && c2 == 'l' && c3 == 't' {
        "Access All Alternates"@
    } else if c0 == 'a' && c1 == 'b' && c2 == 'v' && c3 == 'f' {
        "Above-base Forms"@
    } else if c0 == 'a' && c1 == 'b' && c2 == 'v' && c3 == 'm' {
        "Above-base Mark Positioning"@
    } else if c0 == 'a' && c1 == 'b' && c2 == 'v' && c3 == 's' {
        "Above-base Substitutions"@
    } else if c0 == 'a' && c1 == 'f' && c2 == 'r' && c3 == 'c' {
        "Alternative Fractions"@
    } else if c0 == 'a' && c1 == 'k' && c2 == 'h' && c3 == 'n' {
        "Akhand"@
    } else if c0 == 'b' && c1 == 'l' && c2 == 'w' && c3 == 'f' {
        "Below-base Forms"@
    } else if c0 == 'b' && c1 == 'l' && c2 == 'w' && c3 == 'm' {
        "Below-base Mark Positioning"@
    } else if c0 == 'b' && c1 == 'l' && c2 == 'w' && c3 == 's' {
        "Below-base Substitutions"@
    } else if c0 == 'c' && c1 == 'a' && c2 == 'l' && c3 == 't' {
        "Contextual Alternates"@
    } else if c0 == 'c' && c1 == 'a' && c2 == 's' && c3 == 'e' {
        "Case-Sensitive Forms"@
    } else if c0 == 'c' && c1 == 'c' && c2 == 'm' && c3 == 'p' {
        "Glyph Composition/Decomposition"@
    } else if c0 == 'c' && c1 == 'f' && c2 == 'a' && c3 == 'r' {
        "Conjunct Form After Ro"@
    } else if c0 == 'c' && c1 == 'j' && c2 == 'c' && c3 == 't' {
        "Conjunct Forms"@
    } else if c0 == 'c' && c1 == 'l' && c2 == 'i' && c3 == 'g' {
        "Contextual Ligatures"@
    } else if c0 == 'c' && c1 == 'p' && c2 == 'c' && c3 == 't' {
        "Centered CJK Punctuation"@
    } else if c0 == 'c' && c1 == 'p' && c2 == 's' && c3 == 'p' {
        "Capital Spacing"@
    } else if c0 == 'c' && c1 == 's' && c2 == 'w' && c3 == 'h' {
        "Contextual Swash"@
    } else if c0 == 'c' && c1 == 'u' && c2 == 'r' && c3 == 's' {
        "Cursive Positioning"@
    } else if c0 == 'c' && c1 == 'v' && c2 == '0' && c3 == '1' {
        "Character Variant 1"@
    } else if c0 == 'c' && c1 == 'v' && c2 == '0' && c3 == '2' {
        "Character Variant 2"@
    } else if c0 == 'c' && c1 == 'v' && c2 == '0' && c3 == '3' {
        "Character Variant 3"@
    } else if c0 == 'c' && c1 == 'v' && c2 == '0' && c3 == '4' {
        "Character Variant 4"@
    } else if c0 == 'c' && c1 == 'v' && c2 == '0' && c3 == '5' {
        "Character Variant 5"@
    } else if c0 == 'c' && c1 == 'v' && c2 == '9' && c3 == '9' {
        "Character Variant 99"@
    } else if c0 == 'c' && c1 == '2' && c2 == 'p' && c3 == 'c' {
        "Petite Capitals From Capitals"@
    } else if c0 == 'c' && c1 == '2' && c2 == 's' && c3 == 'c' {
        "Small Capitals From Capitals"@
    } else if c0 == 'd' && c1 == 'i' && c2 == 's' && c3 == 't' {
        "Distances"@
    } else if c0 == 'd' && c1 == 'l' && c2 == 'i' && c3 == 'g' {
        "Discretionary Ligatures"@
    } else if c0 == 'd' && c1 == 'n' && c2 == 'o' && c3 == 'm' {
        "Denominators"@
    } else if c0 == 'd' && c1 == 't' && c2 == 'l' && c3 == 's' {
        "Dotless Forms"@
    } else if c0 == 'e' && c1 == 'x' && c2 == 'p' && c3 == 't' {
        "Expert Forms"@
    } else if c0 == 'f' && c1 == 'a' && c2 == 'l' && c3 == 't' {
        "Final Glyph on Line Alternates"@
    } else if c0 == 'f' && c1 == 'i' && c2 == 'n' && c3 == '2' {
        "Terminal Forms #2"@
    } else if c0 == 'f' && c1 == 'i' && c2 == 'n' && c3 == '3' {
        "Terminal Forms #3"@
    } else if c0 == 'f' && c1 == 'i' && c2 == 'n' && c3 == 'a' {
        "Terminal Forms"@
    } else if c0 == 'f' && c1 == 'l' && c2 == 'a' && c3 == 'c' {
        "Flattened accent forms"@
    } else if c0 == 'f' && c1 == 'r' && c2 == 'a' && c3 == 'c' {
        "Fractions"@
    } else if c0 == 'f' && c1 == 'w' && c2 == 'i' && c3 == 'd' {
        "Full Widths"@
    } else if c0 == 'h' && c1 == 'a' && c2 == 'l' && c3 == 'f' {
        "Half Forms"@
    } else if c0 == 'h' && c1 == 'a' && c2 == 'l' && c3 == 'n' {
        "Halant Forms"@
    } else if c0 == 'h' && c1 == 'a' && c2 == 'l' && c3 == 't' {
        "Alternate Half Widths"@
    } else if c0 == 'h' && c1 == 'i' && c2 == 's' && c3 == 't' {
        "Historical Forms"@
    } else if c0 == 'h' && c1 == 'k' && c2 == 'n' && c3 == 'a' {
        "Horizontal Kana Alternates"@
    } else if c0 == 'h' && c1 == 'l' && c2 == 'i' && c3 == 'g' {
        "Historical Ligatures"@
    } else if c0 == 'h' && c1 == 'n' && c2 == 'g' && c3 == 'l' {
        "Hangul"@
    } else if c0 == 'h' && c1 == 'o' && c2 == 'j' && c3 == 'o' {
        "Hojo Kanji Forms"@
    } else if c0 == 'h' && c1 == 'w' && c2 == 'i' && c3 == 'd' {
        "Half Widths"@
    } else if c0 == 'i' && c1 == 'n' && c2 == 'i' && c3 == 't' {
        "Initial Forms"@
    } else if c0 == 'i' && c1 == 's' && c2 == 'o' && c3 == 'l' {
        "Isolated Forms"@
    } else if c0 == 'i' && c1 == 't' && c2 == 'a' && c3 == 'l' {
        "Italics"@
    } else if c0 == 'j' && c1 == 'a' && c2 == 'l' && c3 == 't' {
        "Justification Alternates"@
    } else if c0 == 'j' && c1 == 'p' && c2 == '7' && c3 == '8' {
        "JIS78 Forms"@
    } else if c0 == 'j' && c1 == 'p' && c2 == '8' && c3 == '3' {
        "JIS83 Forms"@
    } else if c0 == 'j' && c1 == 'p' && c2 == '9' && c3 == '0' {
        "JIS90 Forms"@
    } else if c0 == 'j' && c1 == 'p' && c2 == '0' && c3 == '4' {
        "JIS2004 Forms"@
    } else if c0 == 'k' && c1 == 'e' && c2 == 'r' && c3 == 'n' {
        "Kerning"@
    } else if c0 == 'l' && c1 == 'f' && c2 == 'b' && c3 == 'd' {
        "Left Bounds"@
    } else if c0 == 'l' && c1 == 'i' && c2 == 'g' && c3 == 'a' {
        "Standard Ligatures"@
    } else if c0 == 'l' && c1 == 'j' && c2 == 'm' && c3 == 'o' {
        "Leading Jamo Forms"@
    } else if c0 == 'l' && c1 == 'n' && c2 == 'u' && c3 == 'm' {
        "Lining Figures"@
    } else if c0 == 'l' && c1 == 'o' && c2 == 'c' && c3 == 'l' {
        "Localized Forms"@
    } else if c0 == 'l' && c1 == 't' && c2 == 'r' && c3 == 'a' {
        "Left-to-right alternates"@
    } else if c0 == 'l' && c1 == 't' && c2 == 'r' && c3 == 'm' {
        "Left-to-right mirrored forms"@
    } else if c0 == 'm' && c1 == 'a' && c2 == 'r' && c3 == 'k' {
        "Mark Positioning"@
    } else if c0 == 'm' && c1 == 'e' && c2 == 'd' && c3 == '2' {
        "Medial Forms #2"@
    } else if c0 == 'm' && c1 == 'e' && c2 == 'd' && c3 == 'i' {
        "Medial Forms"@
    } else if c0 == 'm' && c1 == 'g' && c2 == 'r' && c3 == 'k' {
        "Mathematical Greek"@
    } else if c0 == 'm' && c1 == 'k' && c2 == 'm' && c3 == 'k' {
        "Mark to Mark Positioning"@
    } else if c0 == 'm' && c1 == 's' && c2 == 'e' && c3 == 't' {
        "Mark Positioning via Substitution"@
    } else if c0 == 'n' && c1 == 'a' && c2 == 'l' && c3 == 't' {
        "Alternate Annotation Forms"@
    } else if c0 == 'n' && c1 == 'l' && c2 == 'c' && c3 == 'k' {
        "NLC Kanji Forms"@
    } else if c0 == 'n' && c1 == 'u' && c2 == 'k' && c3 == 't' {
        "Nukta Forms"@
    } else if c0 == 'n' && c1 == 'u' && c2 == 'm' && c3 == 'r' {
        "Numerators"@
    } else if c0 == 'o' && c1 == 'n' && c2 == 'u' && c3 == 'm' {
        "Oldstyle Figures"@
    } else if c0 == 'o' && c1 == 'p' && c2 == 'b' && c3 == 'd' {
        "Optical Bounds"@
    } else if c0 == 'o' && c1 == 'r' && c2 == 'd' && c3 == 'n' {
        "Ordinals"@
    } else if c0 == 'o' && c1 == 'r' && c2 == 'n' && c3 == 'm' {
        "Ornaments"@
    } else if c0 == 'p' && c1 == 'a' && c2 == 'l' && c3 == 't' {
        "Proportional Alternate Widths"@
    } else if c0 == 'p' && c1 == 'c' && c2 == 'a' && c3 == 'p' {
        "Petite Capitals"@
    } else if c0 == 'p' && c1 == 'k' && c2 == 'n' && c3 == 'a' {
        "Proportional Kana"@
    } else if c0 == 'p' && c1 == 'n' && c2 == 'u' && c3 == 'm' {
        "Proportional Figures"@
    } else if c0 == 'p' && c1 == 'r' && c2 == 'e' && c3 == 'f' {
        "Pre-Base Forms"@
    } else if c0 == 'p' && c1 == 'r' && c2 == 'e' && c3 == 's' {
        "Pre-base Substitutions"@
    } else if c0 == 'p' && c1 == 's' && c2 == 't' && c3 == 'f' {
        "Post-base Forms"@
    } else if c0 == 'p' && c1 == 's' && c2 == 't' && c3 == 's' {
        "Post-base Substitutions"@
    } else if c0 == 'p' && c1 == 'w' && c2 == 'i' && c3 == 'd' {
        "Proportional Widths"@
    } else if c0 == 'q' && c1 == 'w' && c2 == 'i' && c3 == 'd' {
        "Quarter Widths"@
    } else if c0 == 'r' && c1 == 'a' && c2 == 'n' && c3 == 'd' {
        "Randomize"@
    } else if c0 == 'r' && c1 == 'c' && c2 == 'l' && c3 == 't' {
        "Required Contextual Alternates"@
    } else if c0 == 'r' && c1 == 'k' && c2 == 'r' && c3 == 'f' {
        "Rakar Forms"@
    } else if c0 == 'r' && c1 == 'l' && c2 == 'i' && c3 == 'g' {
        "Required Ligatures"@
    } else if c0 == 'r' && c1 == 'p' && c2 == 'h' && c3 == 'f' {
        "Reph Forms"@
    } else if c0 == 'r' && c1 == 't' && c2 == 'b' && c3 == 'd' {
        "Right Bounds"@
    } else if c0 == 'r' && c1 == 't' && c2 == 'l' && c3 == 'a' {
        "Right-to-left alternates"@
    } else if c0 == 'r' && c1 == 't' && c2 == 'l' && c3 == 'm' {
        "Right-to-left mirrored forms"@
    } else if c0 == 'r' && c1 == 'u' && c2 == 'b' && c3 == 'y' {
        "Ruby Notation Forms"@
    } else if c0 == 'r' && c1 == 'v' && c2 == 'r' && c3 == 'n' {
        "Required Variation Alternates"@
    } else if c0 == 's' && c1 == 'a' && c2 == 'l' && c3 == 't' {
        "Stylistic Alternates"@
    } else if c0 == 's' && c1 == 'i' && c2 == 'n' && c3 == 'f' {
        "Scientific Inferiors"@
    } else if c0 == 's' && c1 == 'i' && c2 == 'z' && c3 == 'e' {
        "Optical size"@
    } else if c0 == 's' && c1 == 'm' && c2 == 'c' && c3 == 'p' {
        "Small Capitals"@
    } else if c0 == 's' && c1 == 'm' && c2 == 'p' && c3 == 'l' {
        "Simplified Forms"@
    } else if c0 == 's' && c1 == 's' && c2 == '0' && c3 == '1' {
        "Stylistic Set 1"@
    } else if c0 == 's' && c1 == 's' && c2 == '0' && c3 == '2' {
        "Stylistic Set 2"@
    } else if c0 == 's' && c1 == 's' && c2 == '0' && c3 == '3' {
        "Stylistic Set 3"@
    } else if c0 == 's' && c1 == 's' && c2 == '0' && c3 == '4' {
        "Stylistic Set 4"@
    } else if c0 == 's' && c1 == 's' && c2 == '0' && c3 == '5' {
        "Stylistic Set 5"@
    } else if c0 == 's' && c1 == 's' && c2 == '0' && c3 == '6' {
        "Stylistic Set 6"@
    } else if c0 == 's' && c1 == 's' && c2 == '0' && c3 == '7' {
        "Stylistic Set 7"@
    } else if c0 == 's' && c1 == 's' && c2 == '0' && c3 == '8' {
        "Stylistic Set 8"@
    } else if c0 == 's' && c1 == 's' && c2 == '0' && c3 == '9' {
        "Stylistic Set 9"@
    } else if c0 == 's' && c1 == 's' && c2 == '1' && c3 == '0' {
        "Stylistic Set 10"@
    } else if c0 == 's' && c1 == 's' && c2 == '1' && c3 == '1' {
        "Stylistic Set 11"@
    } else if c0 == 's' && c1 == 's' && c2 == '1' && c3 == '2' {
        "Stylistic Set 12"@
    } else if c0 == 's' && c1 == 's' && c2 == '1' && c3 == '3' {
        "Stylistic Set 13"@
    } else if c0 == 's' && c1 == 's' && c2 == '1' && c3 == '4' {
        "Stylistic Set 14"@
    } else if c0 == 's' && c1 == 's' && c2 == '1' && c3 == '5' {
        "Stylistic Set 15"@
    } else if c0 == 's' && c1 == 's' && c2 == '1' && c3 == '6' {
        "Stylistic Set 16"@
    } else if c0 == 's' && c1 == 's' && c2 == '1' && c3 == '7' {
        "Stylistic Set 17"@
    } else if c0 == 's' && c1 == 's' && c2 == '1' && c3 == '8' {
        "Stylistic Set 18"@
    } else if c0 == 's' && c1 == 's' && c2 == '1' && c3 == '9' {
        "Stylistic Set 19"@
    } else if c0 == 's' && c1 == 's' && c2 == '2' && c3 == '0' {
        "Stylistic Set 20"@
    } else if c0 == 's' && c1 == 's' && c2 == 't' && c3 == 'y' {
        "Math script style alternates"@
    } else if c0 == 's' && c1 == 't' && c2 == 'c' && c3 == 'h' {
        "Stretching Glyph Decomposition"@
    } else if c0 == 's' && c1 == 'u' && c2 == 'b' && c3 == 's' {
        "Subscript"@
    } else if c0 == 's' && c1 == 'u' && c2 == 'p' && c3 == 's' {
        "Superscript"@
    } else if c0 == 's' && c1 == 'w' && c2 == 's' && c3 == 'h' {
        "Swash"@
    } else if c0 == 't' && c1 == 'i' && c2 == 't' && c3 == 'l' {
        "Titling"@
    } else if c0 == 't' && c1 == 'j' && c2 == 'm' && c3 == 'o' {
        "Trailing Jamo Forms"@
    } else if c0 == 't' && c1 == 'n' && c2 == 'a' && c3 == 'm' {
        "Traditional Name Forms"@
    } else if c0 == 't' && c1 == 'n' && c2 == 'u' && c3 == 'm' {
        "Tabular Figures"@
    } else if c0 == 't' && c1 == 'r' && c2 == 'a' && c3 == 'd' {
        "Traditional Forms"@
    } else if c0 == 't' && c1 == 'w' && c2 == 'i' && c3 == 'd' {
        "Third Widths"@
    } else if c0 == 'u' && c1 == 'n' && c2 == 'i' && c3 == 'c' {
        "Unicase"@
    } else if c0 == 'v' && c1 == 'a' && c2 == 'l' && c3 == 't' {
        "Alternate Vertical Metrics"@
    } else if c0 == 'v' && c1 == 'a' && c2 == 't' && c3 == 'u' {
        "Vattu Variants"@
    } else if c0 == 'v' && c1 == 'e' && c2 == 'r' && c3 == 't' {
        "Vertical Writing"@
    } else if c0 == 'v' && c1 == 'h' && c2 == 'a' && c3 == 'l' {
        "Alternate Vertical Half Metrics"@
    } else if c0 == 'v' && c1 == 'j' && c2 == 'm' && c3 == 'o' {
        "Vowel Jamo Forms"@
    } else if c0 == 'v' && c1 == 'k' && c2 == 'n' && c3 == 'a' {
        "Vertical Kana Alternates"@
    } else if c0 == 'v' && c1 == 'k' && c2 == 'r' && c3 == 'n' {
        "Vertical Kerning"@
    } else if c0 == 'v' && c1 == 'p' && c2 == 'a' && c3 == 'l' {
        "Proportional Alternate Vertical Metrics"@
    } else if c0 == 'v' && c1 == 'r' && c2 == 't' && c3 == '2' {
        "Vertical Alternates and Rotation"@
    } else if c0 == 'v' && c1 == 'r' && c2 == 't' && c3 == 'r' {
        "Vertical Alternates for Rotation"@
    } else if c0 == 'z' && c1 == 'e' && c2 == 'r' && c3 == 'o' {
        "Slashed Zero"@
    } else {
        "Unknown feature"@
    }
}

/// The description of `tag`: its registry entry if it is a registered
/// four-character tag, "Unknown feature" otherwise.
pub open spec fn spec_feature_description(tag: Seq<char>) -> Seq<char> {
    if tag.len() == 4 {
        spec_feature_description4(tag[0], tag[1], tag[2], tag[3])
    } else {
        "Unknown feature"@
    }
}

fn describe4(c0: char, c1: char, c2: char, c3: char) -> (r: &'static str)
    ensures
        r@ == spec_feature_description4(c0, c1, c2, c3),
{
    if c0 == 'a' && c1 == 'a' && c2 == 'l' && c3 == 't' {
        "Access All Alternates"
    } else if c0 == 'a' && c1 == 'b' && c2 == 'v' && c3 == 'f' {
        "Above-base Forms"
    } else if c0 == 'a' && c1 == 'b' && c2 == 'v' && c3 == 'm' {
        "Above-base Mark Positioning"
    } else if c0 == 'a' && c1 == 'b' && c2 == 'v' && c3 == 's' {
        "Above-base Substitutions"
    } else if c0 == 'a' && c1 == 'f' && c2 == 'r' && c3 == 'c' {
        "Alternative Fractions"
    } else if c0 == 'a' && c1 == 'k' && c2 == 'h' && c3 == 'n' {
        "Akhand"
    } else if c0 == 'b' && c1 == 'l' && c2 == 'w' && c3 == 'f' {
        "Below-base Forms"
    } else if c0 == 'b' && c1 == 'l' && c2 == 'w' && c3 == 'm' {
        "Below-base Mark Positioning"
    } else if c0 == 'b' && c1 == 'l' && c2 == 'w' && c3 == 's' {
        "Below-base Substitutions"
    } else if c0 == 'c' && c1 == 'a' && c2 == 'l' && c3 == 't' {
        "Contextual Alternates"
    } else if c0 == 'c' && c1 == 'a' && c2 == 's' && c3 == 'e' {
        "Case-Sensitive Forms"
    } else if c0 == 'c' && c1 == 'c' && c2 == 'm' && c3 == 'p' {
        "Glyph Composition/Decomposition"
    } else if c0 == 'c' && c1 == 'f' && c2 == 'a' && c3 == 'r' {
        "Conjunct Form After Ro"
    } else if c0 == 'c' && c1 == 'j' && c2 == 'c' && c3 == 't' {
        "Conjunct Forms"
    } else if c0 == 'c' && c1 == 'l' && c2 == 'i' && c3 == 'g' {
        "Contextual Ligatures"
    } else if c0 == 'c' && c1 == 'p' && c2 == 'c' && c3 == 't' {
        "Centered CJK Punctuation"
    } else if c0 == 'c' && c1 == 'p' && c2 == 's' && c3 == 'p' {
        "Capital Spacing"
    } else if c0 == 'c' && c1 == 's' && c2 == 'w' && c3 == 'h' {
        "Contextual Swash"
    } else if c0 == 'c' && c1 == 'u' && c2 == 'r' && c3 == 's' {
        "Cursive Positioning"
    } else if c0 == 'c' && c1 == 'v' && c2 == '0' && c3 == '1' {
        "Character Variant 1"
    } else if c0 == 'c' && c1 == 'v' && c2 == '0' && c3 == '2' {
        "Character Variant 2"
    } else if c0 == 'c' && c1 == 'v' && c2 == '0' && c3 == '3' {
        "Character Variant 3"
    } else if c0 == 'c' && c1 == 'v' && c2 == '0' && c3 == '4' {
        "Character Variant 4"
    } else if c0 == 'c' && c1 == 'v' && c2 == '0' && c3 == '5' {
        "Character Variant 5"
    } else if c0 == 'c' && c1 == 'v' && c2 == '9' && c3 == '9' {
        "Character Variant 99"
    } else if c0 == 'c' && c1 == '2' && c2 == 'p' && c3 == 'c' {
        "Petite Capitals From Capitals"
    } else if c0 == 'c' && c1 == '2' && c2 == 's' && c3 == 'c' {
        "Small Capitals From Capitals"
    } else if c0 == 'd' && c1 == 'i' && c2 == 's' && c3 == 't' {
        "Distances"
    } else if c0 == 'd' && c1 == 'l' && c2 == 'i' && c3 == 'g' {
        "Discretionary Ligatures"
    } else if c0 == 'd' && c1 == 'n' && c2 == 'o' && c3 == 'm' {
        "Denominators"
    } else if c0 == 'd' && c1 == 't' && c2 == 'l' && c3 == 's' {
        "Dotless Forms"
    } else if c0 == 'e' && c1 == 'x' && c2 == 'p' && c3 == 't' {
        "Expert Forms"
    } else if c0 == 'f' && c1 == 'a' && c2 == 'l' && c3 == 't' {
        "Final Glyph on Line Alternates"
    } else if c0 == 'f' && c1 == 'i' && c2 == 'n' && c3 == '2' {
        "Terminal Forms #2"
    } else if c0 == 'f' && c1 == 'i' && c2 == 'n' && c3 == '3' {
        "Terminal Forms #3"
    } else if c0 == 'f' && c1 == 'i' && c2 == 'n' && c3 == 'a' {
        "Terminal Forms"
    } else if c0 == 'f' && c1 == 'l' && c2 == 'a' && c3 == 'c' {
        "Flattened accent forms"
    } else if c0 == 'f' && c1 == 'r' && c2 == 'a' && c3 == 'c' {
        "Fractions"
    } else if c0 == 'f' && c1 == 'w' && c2 == 'i' && c3 == 'd' {
        "Full Widths"
    } else if c0 == 'h' && c1 == 'a' && c2 == 'l' && c3 == 'f' {
        "Half Forms"
    } else if c0 == 'h' && c1 == 'a' && c2 == 'l' && c3 == 'n' {
        "Halant Forms"
    } else if c0 == 'h' && c1 == 'a' && c2 == 'l' && c3 == 't' {
        "Alternate Half Widths"
    } else if c0 == 'h' && c1 == 'i' && c2 == 's' && c3 == 't' {
        "Historical Forms"
    } else if c0 == 'h' && c1 == 'k' && c2 == 'n' && c3 == 'a' {
        "Horizontal Kana Alternates"
    } else if c0 == 'h' && c1 == 'l' && c2 == 'i' && c3 == 'g' {
        "Historical Ligatures"
    } else if c0 == 'h' && c1 == 'n' && c2 == 'g' && c3 == 'l' {
        "Hangul"
    } else if c0 == 'h' && c1 == 'o' && c2 == 'j' && c3 == 'o' {
        "Hojo Kanji Forms"
    } else if c0 == 'h' && c1 == 'w' && c2 == 'i' && c3 == 'd' {
        "Half Widths"
    } else if c0 == 'i' && c1 == 'n' && c2 == 'i' && c3 == 't' {
        "Initial Forms"
    } else if c0 == 'i' && c1 == 's' && c2 == 'o' && c3 == 'l' {
        "Isolated Forms"
    } else if c0 == 'i' && c1 == 't' && c2 == 'a' && c3 == 'l' {
        "Italics"
    } else if c0 == 'j' && c1 == 'a' && c2 == 'l' && c3 == 't' {
        "Justification Alternates"
    } else if c0 == 'j' && c1 == 'p' && c2 == '7' && c3 == '8' {
        "JIS78 Forms"
    } else if c0 == 'j' && c1 == 'p' && c2 == '8' && c3 == '3' {
        "JIS83 Forms"
    } else if c0 == 'j' && c1 == 'p' && c2 == '9' && c3 == '0' {
        "JIS90 Forms"
    } else if c0 == 'j' && c1 == 'p' && c2 == '0' && c3 == '4' {
        "JIS2004 Forms"
    } else if c0 == 'k' && c1 == 'e' && c2 == 'r' && c3 == 'n' {
        "Kerning"
    } else if c0 == 'l' && c1 == 'f' && c2 == 'b' && c3 == 'd' {
        "Left Bounds"
    } else if c0 == 'l' && c1 == 'i' && c2 == 'g' && c3 == 'a' {
        "Standard Ligatures"
    } else if c0 == 'l' && c1 == 'j' && c2 == 'm' && c3 == 'o' {
        "Leading Jamo Forms"
    } else if c0 == 'l' && c1 == 'n' && c2 == 'u' && c3 == 'm' {
        "Lining Figures"
    } else if c0 == 'l' && c1 == 'o' && c2 == 'c' && c3 == 'l' {
        "Localized Forms"
    } else if c0 == 'l' && c1 == 't' && c2 == 'r' && c3 == 'a' {
        "Left-to-right alternates"
    } else if c0 == 'l' && c1 == 't' && c2 == 'r' && c3 == 'm' {
        "Left-to-right mirrored forms"
    } else if c0 == 'm' && c1 == 'a' && c2 == 'r' && c3 == 'k' {
        "Mark Positioning"
    } else if c0 == 'm' && c1 == 'e' && c2 == 'd' && c3 == '2' {
        "Medial Forms #2"
    } else if c0 == 'm' && c1 == 'e' && c2 == 'd' && c3 == 'i' {
        "Medial Forms"
    } else if c0 == 'm' && c1 == 'g' && c2 == 'r' && c3 == 'k' {
        "Mathematical Greek"
    } else if c0 == 'm' && c1 == 'k' && c2 == 'm' && c3 == 'k' {
        "Mark to Mark Positioning"
    } else if c0 == 'm' && c1 == 's' && c2 == 'e' && c3 == 't' {
        "Mark Positioning via Substitution"
    } else if c0 == 'n' && c1 == 'a' && c2 == 'l' && c3 == 't' {
        "Alternate Annotation Forms"
    } else if c0 == 'n' && c1 == 'l' && c2 == 'c' && c3 == 'k' {
        "NLC Kanji Forms"
    } else if c0 == 'n' && c1 == 'u' && c2 == 'k' && c3 == 't' {
        "Nukta Forms"
    } else if c0 == 'n' && c1 == 'u' && c2 == 'm' && c3 == 'r' {
        "Numerators"
    } else if c0 == 'o' && c1 == 'n' && c2 == 'u' && c3 == 'm' {
        "Oldstyle Figures"
    } else if c0 == 'o' && c1 == 'p' && c2 == 'b' && c3 == 'd' {
        "Optical Bounds"
    } else if c0 == 'o' && c1 == 'r' && c2 == 'd' && c3 == 'n' {
        "Ordinals"
    } else if c0 == 'o' && c1 == 'r' && c2 == 'n' && c3 == 'm' {
        "Ornaments"
    } else if c0 == 'p' && c1 == 'a' && c2 == 'l' && c3 == 't' {
        "Proportional Alternate Widths"
    } else if c0 == 'p' && c1 == 'c' && c2 == 'a' && c3 == 'p' {
        "Petite Capitals"
    } else if c0 == 'p' && c1 == 'k' && c2 == 'n' && c3 == 'a' {
        "Proportional Kana"
    } else if c0 == 'p' && c1 == 'n' && c2 == 'u' && c3 == 'm' {
        "Proportional Figures"
    } else if c0 == 'p' && c1 == 'r' && c2 == 'e' && c3 == 'f' {
        "Pre-Base Forms"
    } else if c0 == 'p' && c1 == 'r' && c2 == 'e' && c3 == 's' {
        "Pre-base Substitutions"
    } else if c0 == 'p' && c1 == 's' && c2 == 't' && c3 == 'f' {
        "Post-base Forms"
    } else if c0 == 'p' && c1 == 's' && c2 == 't' && c3 == 's' {
        "Post-base Substitutions"
    } else if c0 == 'p' && c1 == 'w' && c2 == 'i' && c3 == 'd' {
        "Proportional Widths"
    } else if c0 == 'q' && c1 == 'w' && c2 == 'i' && c3 == 'd' {
        "Quarter Widths"
    } else if c0 == 'r' && c1 == 'a' && c2 == 'n' && c3 == 'd' {
        "Randomize"
    } else if c0 == 'r' && c1 == 'c' && c2 == 'l' && c3 == 't' {
        "Required Contextual Alternates"
    } else if c0 == 'r' && c1 == 'k' && c2 == 'r' && c3 == 'f' {
        "Rakar Forms"
    } else if c0 == 'r' && c1 == 'l' && c2 == 'i' && c3 == 'g' {
        "Required Ligatures"
    } else if c0 == 'r' && c1 == 'p' && c2 == 'h' && c3 == 'f' {
        "Reph Forms"
    } else if c0 == 'r' && c1 == 't' && c2 == 'b' && c3 == 'd' {
        "Right Bounds"
    } else if c0 == 'r' && c1 == 't' && c2 == 'l' && c3 == 'a' {
        "Right-to-left alternates"
    } else if c0 == 'r' && c1 == 't' && c2 == 'l' && c3 == 'm' {
        "Right-to-left mirrored forms"
    } else if c0 == 'r' && c1 == 'u' && c2 == 'b' && c3 == 'y' {
        "Ruby Notation Forms"
    } else if c0 == 'r' && c1 == 'v' && c2 == 'r' && c3 == 'n' {
        "Required Variation Alternates"
    } else if c0 == 's' && c1 == 'a' && c2 == 'l' && c3 == 't' {
        "Stylistic Alternates"
    } else if c0 == 's' && c1 == 'i' && c2 == 'n' && c3 == 'f' {
        "Scientific Inferiors"
    } else if c0 == 's' && c1 == 'i' && c2 == 'z' && c3 == 'e' {
        "Optical size"
    } else if c0 == 's' && c1 == 'm' && c2 == 'c' && c3 == 'p' {
        "Small Capitals"
    } else if c0 == 's' && c1 == 'm' && c2 == 'p' && c3 == 'l' {
        "Simplified Forms"
    } else if c0 == 's' && c1 == 's' && c2 == '0' && c3 == '1' {
        "Stylistic Set 1"
    } else if c0 == 's' && c1 == 's' && c2 == '0' && c3 == '2' {
        "Stylistic Set 2"
    } else if c0 == 's' && c1 == 's' && c2 == '0' && c3 == '3' {
        "Stylistic Set 3"
    } else if c0 == 's' && c1 == 's' && c2 == '0' && c3 == '4' {
        "Stylistic Set 4"
    } else if c0 == 's' && c1 == 's' && c2 == '0' && c3 == '5' {
        "Stylistic Set 5"
    } else if c0 == 's' && c1 == 's' && c2 == '0' && c3 == '6' {
        "Stylistic Set 6"
    } else if c0 == 's' && c1 == 's' && c2 == '0' && c3 == '7' {
        "Stylistic Set 7"
    } else if c0 == 's' && c1 == 's' && c2 == '0' && c3 == '8' {
        "Stylistic Set 8"
    } else if c0 == 's' && c1 == 's' && c2 == '0' && c3 == '9' {
        "Stylistic Set 9"
    } else if c0 == 's' && c1 == 's' && c2 == '1' && c3 == '0' {
        "Stylistic Set 10"
    } else if c0 == 's' && c1 == 's' && c2 == '1' && c3 == '1' {
        "Stylistic Set 11"
    } else if c0 == 's' && c1 == 's' && c2 == '1' && c3 == '2' {
        "Stylistic Set 12"
    } else if c0 == 's' && c1 == 's' && c2 == '1' && c3 == '3' {
        "Stylistic Set 13"
    } else if c0 == 's' && c1 == 's' && c2 == '1' && c3 == '4' {
        "Stylistic Set 14"
    } else if c0 == 's' && c1 == 's' && c2 == '1' && c3 == '5' {
        "Stylistic Set 15"
    } else if c0 == 's' && c1 == 's' && c2 == '1' && c3 == '6' {
        "Stylistic Set 16"
    } else if c0 == 's' && c1 == 's' && c2 == '1' && c3 == '7' {
        "Stylistic Set 17"
    } else if c0 == 's' && c1 == 's' && c2 == '1' && c3 == '8' {
        "Stylistic Set 18"
    } else if c0 == 's' && c1 == 's' && c2 == '1' && c3 == '9' {
        "Stylistic Set 19"
    } else if c0 == 's' && c1 == 's' && c2 == '2' && c3 == '0' {
        "Stylistic Set 20"
    } else if c0 == 's' && c1 == 's' && c2 == 't' && c3 == 'y' {
        "Math script style alternates"
    } else if c0 == 's' && c1 == 't' && c2 == 'c' && c3 == 'h' {
        "Stretching Glyph Decomposition"
    } else if c0 == 's' && c1 == 'u' && c2 == 'b' && c3 == 's' {
        "Subscript"
    } else if c0 == 's' && c1 == 'u' && c2 == 'p' && c3 == 's' {
        "Superscript"
    } else if c0 == 's' && c1 == 'w' && c2 == 's' && c3 == 'h' {
        "Swash"
    } else if c0 == 't' && c1 == 'i' && c2 == 't' && c3 == 'l' {
        "Titling"
    } else if c0 == 't' && c1 == 'j' && c2 == 'm' && c3 == 'o' {
        "Trailing Jamo Forms"
    } else if c0 == 't' && c1 == 'n' && c2 == 'a' && c3 == 'm' {
        "Traditional Name Forms"
    } else if c0 == 't' && c1 == 'n' && c2 == 'u' && c3 == 'm' {
        "Tabular Figures"
    } else if c0 == 't' && c1 == 'r' && c2 == 'a' && c3 == 'd' {
        "Traditional Forms"
    } else if c0 == 't' && c1 == 'w' && c2 == 'i' && c3 == 'd' {
        "Third Widths"
    } else if c0 == 'u' && c1 == 'n' && c2 == 'i' && c3 == 'c' {
        "Unicase"
    } else if c0 == 'v' && c1 == 'a' && c2 == 'l' && c3 == 't' {
        "Alternate Vertical Metrics"
    } else if c0 == 'v' && c1 == 'a' && c2 == 't' && c3 == 'u' {
        "Vattu Variants"
    } else if c0 == 'v' && c1 == 'e' && c2 == 'r' && c3 == 't' {
        "Vertical Writing"
    } else if c0 == 'v' && c1 == 'h' && c2 == 'a' && c3 == 'l' {
        "Alternate Vertical Half Metrics"
    } else if c0 == 'v' && c1 == 'j' && c2 == 'm' && c3 == 'o' {
        "Vowel Jamo Forms"
    } else if c0 == 'v' && c1 == 'k' && c2 == 'n' && c3 == 'a' {
        "Vertical Kana Alternates"
    } else if c0 == 'v' && c1 == 'k' && c2 == 'r' && c3 == 'n' {
        "Vertical Kerning"
    } else if c0 == 'v' && c1 == 'p' && c2 == 'a' && c3 == 'l' {
        "Proportional Alternate Vertical Metrics"
    } else if c0 == 'v' && c1 == 'r' && c2 == 't' && c3 == '2' {
        "Vertical Alternates and Rotation"
    } else if c0 == 'v' && c1 == 'r' && c2 == 't' && c3 == 'r' {
        "Vertical Alternates for Rotation"
    } else if c0 == 'z' && c1 == 'e' && c2 == 'r' && c3 == 'o' {
        "Slashed Zero"
    } else {
        "Unknown feature"
    }
}

/// Returns the human-readable name of an OpenType feature tag, or
/// "Unknown feature" for any string that is not a registered four-character
/// tag. Defined for every input string.
pub fn describe_opentype_feature(tag: &str) -> (r: &'static str)
    ensures
        r@ == spec_feature_description(tag@),
{
    if tag.unicode_len() != 4 {
        return "Unknown feature";
    }
    let c0 = tag.get_char(0);
    let c1 = tag.get_char(1);
    let c2 = tag.get_char(2);
    let c3 = tag.get_char(3);
    describe4(c0, c1, c2, c3)
}

} // verus!
