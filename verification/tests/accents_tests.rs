//! Tests for diacritic queries and manipulation.

use grac::{
    Diacritic, add_acute_at, add_diacritic_to_char, diacritic_pos, has_acute, has_any_diacritic,
    has_diacritic, has_diaeresis, remove_acute, remove_all_diacritics, remove_diacritic_at,
    remove_diacritics,
};

#[test]
fn test_add_acute() {
    assert_eq!(add_diacritic_to_char('α', Diacritic::ACUTE), 'ά');
    assert_eq!(add_diacritic_to_char('Ω', Diacritic::GRAVE), 'Ὼ');
    assert_eq!(add_diacritic_to_char('ά', Diacritic::ACUTE), 'ά');
}

#[test]
fn test_any_diacritics() {
    assert!(!has_any_diacritic("τεστ"));
    assert!(has_any_diacritic("καλημέρα"));
    assert!(has_any_diacritic("ϊ"));
}

#[test]
fn test_has_diacritic() {
    assert_eq!(has_diacritic("α", Diacritic::GRAVE), false);
    assert_eq!(has_diacritic("ϊ", Diacritic::DIAERESIS), true);
    assert_eq!(has_diacritic("γάϊδουρος", Diacritic::ACUTE), true);
    assert_eq!(has_diacritic("σόι", Diacritic::ACUTE), true);
    assert!(has_diaeresis("φαΐ"));
    assert!(!has_diaeresis("φαι"));
    assert!(has_acute("καλημέρα"));
    assert!(!has_acute("καλημερα"));
}

#[test]
fn test_diacritic_pos() {
    assert_eq!(diacritic_pos("άνθρωπος", Diacritic::ACUTE), [3]);
    assert_eq!(diacritic_pos("άνθρωπός", Diacritic::ACUTE), [1, 3]);
    assert_eq!(diacritic_pos("τίποτα", Diacritic::GRAVE), []);
}

#[test]
fn test_remove_diacritics() {
    let diacritics = [Diacritic::GRAVE, Diacritic::SMOOTH];
    let text = "ἄνθρωπος ἐστὶ";
    let res = "άνθρωπος εστι";
    assert_eq!(remove_diacritics(text, &diacritics), res);
}

#[test]
fn test_remove_all_diacritics() {
    let homer = "τὴν δ᾽ ἐγὼ οὐ λύσω: πρίν μιν καὶ γῆρας ἔπεισιν\n
             ἡμετέρῳ ἐνὶ οἴκῳ ἐν Ἄργεϊ τηλόθι πάτρης";
    assert_eq!(
        remove_all_diacritics(homer),
        "την δ᾽ εγω ου λυσω: πριν μιν και γηρας επεισιν\n
             ημετερω ενι οικω εν Αργει τηλοθι πατρης"
    );
    assert_eq!(remove_acute("καλημέρα"), "καλημερα");
}

#[test]
fn test_remove_diacritic_at() {
    assert_eq!(remove_diacritic_at("άνθρωπέ", 1, Diacritic::ACUTE), "άνθρωπε");
    assert_eq!(remove_diacritic_at("άνθρωπέ", 2, Diacritic::ACUTE), "άνθρωπέ");
    assert_eq!(remove_diacritic_at("άνθρωπέ", 3, Diacritic::ACUTE), "ανθρωπέ");
    assert_eq!(remove_diacritic_at("άνθρωπέ", 0, Diacritic::ACUTE), "άνθρωπέ");
    assert_eq!(remove_diacritic_at("άνθρωπέ", 4, Diacritic::ACUTE), "άνθρωπέ");
}

#[test]
fn test_add_acute_at() {
    assert_eq!(add_acute_at("ανθρωπος", 1), "ανθρωπός");
    assert_eq!(add_acute_at("ανθρωπος", 2), "ανθρώπος");
    assert_eq!(add_acute_at("ανθρωπος", 3), "άνθρωπος");
    // Does nothing if the position is out of bounds.
    assert_eq!(add_acute_at("ανθρωπος", 0), "ανθρωπος");
    assert_eq!(add_acute_at("ανθρωπος", 4), "ανθρωπος");
    // May not yield the expected result based on syllabification.
    assert_eq!(add_acute_at("σοι", 1), "σοί");
}
