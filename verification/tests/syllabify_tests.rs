//! Tests for the syllabification entry points.

use grac::{syllabify, syllabify_gr, syllabify_gr_ref, syllabify_with_merge};
use grac::{Merge, Syllables, is_diphthong};

fn joined(r: &Syllables) -> String {
    r.as_slice().join("-")
}

#[test]
fn test_is_diphthong() {
    assert!(is_diphthong(&['α', 'ι']));
    assert!(!is_diphthong(&['α', 'ε']));
    assert!(!is_diphthong(&['α', 'ϋ']));
}

#[test]
fn test_syllabify() {
    assert_eq!(syllabify("μπεις").len(), 1);
    assert_eq!(syllabify("Ώστε").len(), 2);
}

#[test]
fn test_syllabify_consonant_cluster() {
    assert_eq!(syllabify("στρες").len(), 1);
    assert_eq!(syllabify("ΣΤΡΕΣ").len(), 1);
    assert_eq!(syllabify("χλόη").len(), 2);
}

#[test]
fn test_syllabify_diaeresis() {
    assert_eq!(syllabify("φαΐ").len(), 2);
    assert_eq!(syllabify("φαϊ").len(), 2);
}

#[test]
fn test_merge_never() {
    assert_eq!(syllabify_with_merge("αστειάκιαν", Merge::Never).len(), 5);
}

#[test]
fn test_merge_never_consonant_cluster() {
    assert_eq!(syllabify_with_merge("ενδο", Merge::Never).len(), 2);
}

#[test]
fn test_merge_never_intersecting_diphthongs() {
    assert_eq!(syllabify_with_merge("αρουι", Merge::Never).len(), 3);
    assert_eq!(syllabify_with_merge("αρουιν", Merge::Never).len(), 3);
    assert_eq!(syllabify_with_merge("αλληλούια", Merge::Never).len(), 5);
    assert_eq!(syllabify_with_merge("παλαιικά", Merge::Never).len(), 4);
}

#[test]
fn test_merge_never_extended() {
    assert_eq!(syllabify_with_merge("κίᾳ", Merge::Never).len(), 2);
    assert_eq!(
        syllabify_with_merge("\u{3AC}\u{313}κίᾳ", Merge::Never).len(),
        3
    );
}

#[test]
fn test_equality() {
    let words = ["άην", "άη", "αη", "άι", "αϊ", "αΐ"];
    for word in words {
        assert_eq!(syllabify_gr(word), syllabify_gr_ref(word));
    }
}

#[test]
fn test_scenarios() {
    assert_eq!(joined(&syllabify_gr("γυναικός")), "γυ-ναι-κός");
    assert_eq!(joined(&syllabify("άνθρωπος")), "άν-θρω-πος");
    assert_eq!(joined(&syllabify("αρρώστια")), "αρ-ρώ-στια");
    assert_eq!(
        joined(&syllabify_with_merge("αστειάκια", Merge::from_indices(&[1, 2]))),
        "α-στειά-κια"
    );
    assert_eq!(
        joined(&syllabify_with_merge("αστειάκια", Merge::Never)),
        "α-στει-ά-κι-α"
    );
    assert_eq!(joined(&syllabify("φαΐ")), "φα-ΐ");
}

#[test]
fn test_merge_modes() {
    let word = "αστειάκια";
    assert_eq!(joined(&syllabify_with_merge(word, Merge::Every)), "α-στειά-κια");
    assert_eq!(
        joined(&syllabify_with_merge(word, Merge::from_indices(&[1]))),
        "α-στει-ά-κια"
    );
}

#[test]
fn test_syllabify_gr_basic() {
    let cases = [
        ("γυναικός", "γυ-ναι-κός"),
        ("φ\u{1FE1}\u{301}ω", "φ\u{1FE1}\u{301}-ω"),
        ("Μελέτες", "Με-λέ-τες"),
        ("στρες", "στρες"),
        ("άνδρας", "άν-δρας"),
        ("ἄρουι", "ἄ-ρου-ι"),
        ("ἄρουιν", "ἄ-ρου-ιν"),
        ("Ἀχαιιά", "Ἀ-χαι-ι-ά"),
        ("Ἠελίοιο", "Ἠ-ε-λί-οι-ο"),
        ("Θρήικι", "Θρή-ι-κι"),
        ("Ἠοῖα", "Ἠ-οῖ-α"),
        ("κόσμος", "κό-σμος"),
        ("Πυθαγόρας", "Πυ-θα-γό-ρας"),
        ("Αλέξανδρος", "Α-λέ-ξαν-δρος"),
        ("Ἀθήνα", "Ἀ-θή-να"),
        ("Ὅμηρος", "Ὅ-μη-ρος"),
    ];
    for (input, expected) in cases {
        assert_eq!(joined(&syllabify_gr(input)), expected, "input {input}");
        assert_eq!(joined(&syllabify_gr_ref(input)), expected, "input {input}");
    }
}

#[test]
fn test_syllabify_el_corpus() {
    let cases = [
        ("ἄρουιν", "ἄ-ρου-ιν"),
        ("οιωνός", "οι-ω-νός"),
        ("Αθήνα.", "Α-θή-να."),
        ("φιλοσοφία,", "φι-λο-σο-φί-α,"),
        ("παιδεία;", "παι-δεί-α;"),
        ("μέλισσα", "μέ-λισ-σα"),
        ("θάλασσα", "θά-λασ-σα"),
        ("Ελλάδα", "Ελ-λά-δα"),
        ("κόσμος", "κό-σμος"),
        ("δεσμός", "δε-σμός"),
        ("πάντα", "πά-ντα"),
        ("Τζιτζίκι", "Τζι-τζί-κι"),
        ("τμήμα", "τμή-μα"),
        ("χνούδι", "χνού-δι"),
        ("αχνός", "α-χνός"),
        ("χθες", "χθες"),
        ("βγη", "βγη"),
        ("εχθρός", "ε-χθρός"),
        ("άσπρος", "ά-σπρος"),
        ("αντλώ", "α-ντλώ"),
        ("ωραιοπάθεια", "ω-ραι-ο-πά-θει-α"),
        ("ποίηση", "ποί-η-ση"),
        ("σημειώνω", "ση-μει-ώ-νω"),
        ("ναυς", "ναυς"),
        ("νηυς", "νηυς"),
        ("ναύαρχος", "ναύ-αρ-χος"),
        ("απηύδησα", "α-πηύ-δη-σα"),
        ("Αγλαΐα", "Α-γλα-ΐ-α"),
        ("αδενοϋπόφυση", "α-δε-νο-ϋ-πό-φυ-ση"),
        ("νταηλίκι", "ντα-η-λί-κι"),
        ("άηχος", "ά-η-χος"),
        ("πλάι", "πλά-ι"),
        ("παϊδάκι", "πα-ϊ-δά-κι"),
        ("αλόη", "α-λό-η"),
        ("χλόη", "χλό-η"),
        ("αγνόηση", "α-γνό-η-ση"),
        ("σόι", "σό-ι"),
        ("ρολόι", "ρο-λό-ι"),
        ("μοιρολόι", "μοι-ρο-λό-ι"),
        ("δρύινος", "δρύ-ι-νος"),
        ("βουίζω", "βου-ί-ζω"),
        ("βουΐζω", "βου-ΐ-ζω"),
        ("δωμάτιο", "δω-μά-τι-ο"),
        ("σιτηρέσιο", "σι-τη-ρέ-σι-ο"),
        ("σχέδιο", "σχέ-δι-ο"),
        ("δάκρυα", "δά-κρυ-α"),
        ("δίκτυα", "δί-κτυ-α"),
        ("έχω", "έ-χω"),
        ("ουρανός", "ου-ρα-νός"),
        ("μπέικον", "μπέι-κον"),
        ("άυλος", "άυ-λος"),
        ("κορόιδο", "κο-ρόι-δο"),
        ("ναύτης", "ναύ-της"),
        ("ατμός", "α-τμός"),
        ("έρχομαι", "έρ-χο-μαι"),
        ("αστράφτω", "α-στρά-φτω"),
        ("άνθρωπος", "άν-θρω-πος"),
        ("φεγγάρι", "φεγ-γά-ρι"),
        ("σύννεφο", "σύν-νε-φο"),
        ("δύο", "δύ-ο"),
    ];
    for (input, expected) in cases {
        assert_eq!(joined(&syllabify(input)), expected, "input {input}");
    }
}

#[test]
fn test_synizesis_lexicon() {
    let cases = [
        ("αηδόνι", "αη-δό-νι"),
        ("καημένος", "καη-μέ-νος"),
        ("γάιδαρος", "γάι-δα-ρος"),
        ("νεράιδα", "νε-ράι-δα"),
        ("μαϊμού", "μαϊ-μού"),
        ("ρόιδι", "ρόι-δι"),
        ("αστέρια", "α-στέ-ρια"),
        ("γέλιο", "γέ-λιο"),
        ("στεναχώρια", "στε-να-χώ-ρια"),
        ("ρολόγια", "ρο-λό-για"),
        ("τέτοιο", "τέ-τοιο"),
        ("άδειο", "ά-δειο"),
        ("πιρούνια", "πι-ρού-νια"),
        ("αστειάκια", "α-στει-ά-κια"),
        ("καλάθια", "κα-λά-θια"),
        ("μάτια", "μά-τια"),
        ("μάγια", "μά-για"),
        ("βράδια", "βρά-δια"),
        ("δίχτυα", "δί-χτυα"),
        ("στάχυα", "στά-χυα"),
        ("μια", "μια"),
        ("για", "για"),
        ("δυο", "δυο"),
        ("Δυο", "Δυο"),
        ("Ποιος", "Ποιος"),
        ("πιω", "πιω"),
        ("ήπιαν", "ή-πιαν"),
    ];
    for (input, expected) in cases {
        assert_eq!(joined(&syllabify(input)), expected, "input {input}");
    }
}

#[test]
fn test_merge_synizesis_modes() {
    let cases = [
        (Merge::Every, "μάγια", "μά-για"),
        (Merge::Never, "μάγια", "μά-γι-α"),
        (Merge::Every, "μυαλό", "μυα-λό"),
        (Merge::Never, "μυαλό", "μυ-α-λό"),
        (Merge::Every, "καληώρα", "κα-ληώ-ρα"),
        (Merge::Never, "καληώρα", "κα-λη-ώ-ρα"),
        (Merge::Every, "άι", "άι"),
        (Merge::Never, "άι", "ά-ι"),
        (Merge::Every, "αϊ", "αϊ"),
        (Merge::Never, "αϊ", "α-ϊ"),
        (Merge::Every, "φαΐ", "φαΐ"),
        (Merge::Never, "φαΐ", "φα-ΐ"),
        (Merge::Every, "όι", "όι"),
        (Merge::Never, "όι", "ό-ι"),
        (Merge::Every, "υι", "υι"),
        (Merge::Never, "υι", "υι"),
        (Merge::Every, "ύι", "ύι"),
        (Merge::Never, "ύι", "ύ-ι"),
        (Merge::Every, "υί", "υί"),
        (Merge::Never, "υί", "υ-ί"),
        (Merge::Every, "έι", "έι"),
        (Merge::Never, "έι", "έι"),
    ];
    for (merge, input, expected) in cases {
        assert_eq!(
            joined(&syllabify_with_merge(input, merge)),
            expected,
            "input {input}"
        );
    }
}

#[test]
fn test_lossless_partition() {
    let words = [
        "γυναικός", "άνθρωπος", "αρρώστια", "αστειάκια", "φαΐ", "στρες", "Ὅμηρος",
        "αλληλούια", "παλαιικά", "1808·", "Poète", "", "ά",
    ];
    for w in words {
        assert_eq!(syllabify(w).as_slice().concat(), w, "word {w}");
        assert_eq!(syllabify_gr(w).as_slice().concat(), w, "word {w}");
        assert_eq!(
            syllabify_with_merge(w, Merge::Every).as_slice().concat(),
            w,
            "word {w}"
        );
    }
}

#[test]
fn test_non_emptiness() {
    let words = ["γυναικός", "ά", "σ", ".", "στρες", "Poète"];
    for w in words {
        assert!(syllabify(w).len() >= 1, "word {w}");
        assert!(syllabify_gr(w).len() >= 1, "word {w}");
    }
}

#[test]
fn test_merge_monotonicity() {
    let words = [
        "αστειάκια", "γυναικός", "μάγια", "καληώρα", "αλληλούια", "παλαιικά", "φαΐ",
        "άνθρωπος", "βουίζω", "αη",
    ];
    for w in words {
        let every = syllabify_with_merge(w, Merge::Every).len();
        let never = syllabify_with_merge(w, Merge::Never).len();
        assert!(every <= never, "word {w}: {every} > {never}");
    }
}

#[test]
fn test_boundary_cases() {
    let empty = syllabify("");
    assert_eq!(empty.len(), 0);
    // A vowel-less synthetic string comes back as a single syllable
    // equal to the whole input.
    assert_eq!(syllabify("στρβ").as_slice(), ["στρβ"]);
    assert_eq!(syllabify_gr("κτλ").as_slice(), ["κτλ"]);
    assert_eq!(syllabify("123!").as_slice(), ["123!"]);
}

#[test]
fn test_differential_corpus() {
    let words = [
        "γυναικός", "φ\u{1FE1}\u{301}ω", "Μελέτες", "στρες", "άνδρας", "ἄρουι",
        "ἄρουιν", "Ἀχαιιά", "Ἠελίοιο", "Θρήικι", "Ἠοῖα", "κόσμος", "Πυθαγόρας",
        "Αλέξανδρος", "Ἀθήνα", "Ὅμηρος", "ἄνθρωπος", "αλληλούια", "", "ᾄσματα",
    ];
    for w in words {
        assert_eq!(syllabify_gr(w), syllabify_gr_ref(w), "word {w}");
    }
}

#[test]
fn test_differential_random() {
    // A deterministic pseudo-random corpus over the two Greek blocks: the
    // reference scanner and the production scanner must agree on every
    // input, the partition must be lossless, and always-merging must
    // never yield more syllables than never-merging.
    let letters: Vec<char> = (0x0370u32..=0x03FF)
        .chain(0x1F00..=0x1FFF)
        .filter_map(char::from_u32)
        .collect();
    let mut state: u64 = 0x243F6A8885A308D3;
    let mut next = move || {
        state = state.wrapping_mul(6364136223846793005).wrapping_add(1442695040888963407);
        (state >> 33) as usize
    };
    for _ in 0..300 {
        let len = next() % 12 + 1;
        let word: String = (0..len).map(|_| letters[next() % letters.len()]).collect();
        assert_eq!(
            syllabify_gr(&word),
            syllabify_gr_ref(&word),
            "scanners disagree on {word}"
        );
        assert_eq!(syllabify(&word).as_slice().concat(), word);
        assert_eq!(syllabify_gr(&word).as_slice().concat(), word);
        let every = syllabify_with_merge(&word, Merge::Every).len();
        let never = syllabify_with_merge(&word, Merge::Never).len();
        assert!(every <= never, "monotonicity fails on {word}");
        assert!(syllabify(&word).len() >= 1);
    }
}

#[test]
fn test_syllables_accessors() {
    let r = syllabify("γυναικός");
    assert_eq!(r.len(), 3);
    assert_eq!(r.as_slice(), ["γυ", "ναι", "κός"]);
}
