//! Tests for punctuation splitting and polytonic to monotonic
//! conversion.

use grac::{not_punct, split_punctuation, to_monotonic};

#[test]
fn test_not_punct() {
    let non_punct = ['α', 'a', 'ή'];
    for p in non_punct {
        assert!(not_punct(p));
    }

    let punct = ['.', '2', '᾿'];
    for p in punct {
        assert!(!not_punct(p));
    }
}

#[test]
fn test_split_word_punctuation() {
    let cases = [
        ("λέξη...", ("", "λέξη", "...")),
        (";?λέξη", (";?", "λέξη", "")),
        (";?λέξη...", (";?", "λέξη", "...")),
        (";?λέ-ξη...", (";?", "λέ-ξη", "...")),
        (";?...", (";?...", "", "")),
        ("2ος", ("2", "ος", "")),
    ];
    for (input, (l, c, r)) in cases {
        let res = split_punctuation(input);
        assert_eq!(res.0, l, "input {input}");
        assert_eq!(res.1, c, "input {input}");
        assert_eq!(res.2, r, "input {input}");
    }
}

#[test]
fn test_mono_special_cases() {
    let cases = [
        ("ποὺ", "που"),
        ("Ἐκεῖνον ποὺ μοῦ", "Εκείνον που μου"),
        ("καὶ ποιὸς τὸν ἐσκότωσε;", "και ποιος τον εσκότωσε;"),
        ("Ἤξερες ποιὰ ἦτον αὐτή;", "Ήξερες ποια ήτον αυτή;"),
        ("βρωμόσκυλο! Ποὺ βρωμᾷς πρωὶ-πρωὶ", "βρωμόσκυλο! Που βρωμάς πρωί-πρωί"),
    ];
    for (input, expected) in cases {
        assert_eq!(to_monotonic(input), expected, "input {input}");
    }
}

#[test]
fn test_mono_one_syllable() {
    let cases = [
        ("Πιὸ σιγά, πιὸ ταπεινά", "Πιο σιγά, πιο ταπεινά"),
        ("πιό", "πιο"),
        ("τί θὲς;", "τι θες;"),
        ("ζείς", "ζεις"),
        ("Τὴν", "Την"),
        ("μιᾶς", "μιας"),
    ];
    for (input, expected) in cases {
        assert_eq!(to_monotonic(input), expected, "input {input}");
    }
}

#[test]
fn test_mono_diaeresis() {
    let cases = [
        ("γάϊδουρος", "γάιδουρος"),
        ("μπέϊκον", "μπέικον"),
        ("μπέικον", "μπέικον"),
        ("ἄϋλος", "άυλος"),
        ("φαΐ", "φαΐ"),
        ("ἀρχαϊκάς", "αρχαϊκάς"),
        ("Στάυλς", "Στάυλς"),
    ];
    for (input, expected) in cases {
        assert_eq!(to_monotonic(input), expected, "input {input}");
    }
}

#[test]
fn test_mono_diphthong_monosyllable() {
    let cases = [("σόι", "σόι"), ("Κάιν", "Κάιν"), ("Μπόις", "Μπόις")];
    for (input, expected) in cases {
        assert_eq!(to_monotonic(input), expected, "input {input}");
    }
}

#[test]
fn test_mono_double_accents() {
    let cases = [
        ("εἶναί", "είναι"),
        ("οἶκόν", "οίκον"),
        ("πρᾶγμά", "πράγμα"),
        ("νὰ εἶναί τις Βενετός...", "να είναι τις Βενετός..."),
        ("ἐλαττώματά του", "ελαττώματά του"),
    ];
    for (input, expected) in cases {
        assert_eq!(to_monotonic(input), expected, "input {input}");
    }
}

#[test]
fn test_mono_punctuation() {
    let cases = [
        ("Ὅλ᾽", "Όλ᾽"),
        ("ἔτσ᾿ εἶναι", "έτσ᾿ είναι"),
        ("έτσ' είναι", "έτσ' είναι"),
        ("«τὸ", "«το"),
        ("ἐμάλωσες·", "εμάλωσες·"),
        ("Ναί… ναί…", "Ναι… ναι…"),
    ];
    for (input, expected) in cases {
        assert_eq!(to_monotonic(input), expected, "input {input}");
    }
}

#[test]
fn test_mono_not_greek() {
    let cases = [
        ("1808·", "1808·"),
        ("Poète", "Poète"),
        ("Poète.", "Poète."),
        (".Poète", ".Poète"),
        ("Poè-te", "Poè-te"),
        ("Le Poète des nuées", "Le Poète des nuées"),
    ];
    for (input, expected) in cases {
        assert_eq!(to_monotonic(input), expected, "input {input}");
    }
}

#[test]
fn test_mono_capital() {
    let cases = [
        ("ΩΙΔΗ ΑΙΘΟΥΣΑ ΗΙΩΝΑ", "ΩΙΔΗ ΑΙΘΟΥΣΑ ΗΙΩΝΑ"),
        ("ΕΛΛΑΔΑ", "ΕΛΛΑΔΑ"),
    ];
    for (input, expected) in cases {
        assert_eq!(to_monotonic(input), expected, "input {input}");
    }
}

#[test]
fn test_mono_ancient() {
    let cases = [
        ("Ἑλλάς καὶ κόσμος.\r\n...ἄνθρωπος.", "Ελλάς και κόσμος.\r\n...άνθρωπος."),
        ("ἐξεσάωσεν ὑπʼ ἰλύος", "εξεσάωσεν υπʼ ιλύος"),
        ("σῶφρον ἐπʼ ἀρετήν", "σώφρον επʼ αρετήν"),
        ("δύο-τρεῖς", "δύο-τρεις"),
        ("λογιῶν-τῶν-λογιῶν", "λογιών-των-λογιών"),
    ];
    for (input, expected) in cases {
        assert_eq!(to_monotonic(input), expected, "input {input}");
    }
}
