//! The synizesis lexicon: a static exception table mapping irregular word
//! forms to their precomputed syllable split points (character indices,
//! counted from the word's start). It is consulted only by the automatic
//! Modern Greek entry point, before the scanner runs.

use vstd::prelude::*;

use crate::strutil::str_eq;

verus! {

/// The lexicon as a mathematical partial map: for a known irregular word
/// form, the character positions where its syllables split.
pub open spec fn spec_lookup_synizesis(w: Seq<char>) -> Option<Seq<usize>> {
    if w == "κορόιδο"@ {
        Some(seq![2usize, 5usize])
    } else     if w == "αρρώστια"@ {
        Some(seq![2usize, 4usize])
    } else     if w == "δια"@ {
        Some(Seq::<usize>::empty())
    } else     if w == "διω"@ {
        Some(Seq::<usize>::empty())
    } else     if w == "μια"@ {
        Some(Seq::<usize>::empty())
    } else     if w == "μιαν"@ {
        Some(Seq::<usize>::empty())
    } else     if w == "για"@ {
        Some(Seq::<usize>::empty())
    } else     if w == "πια"@ {
        Some(Seq::<usize>::empty())
    } else     if w == "πλια"@ {
        Some(Seq::<usize>::empty())
    } else     if w == "πεια"@ {
        Some(Seq::<usize>::empty())
    } else     if w == "πλεια"@ {
        Some(Seq::<usize>::empty())
    } else     if w == "δυο"@ {
        Some(Seq::<usize>::empty())
    } else     if w == "Δυο"@ {
        Some(Seq::<usize>::empty())
    } else     if w == "ποια"@ {
        Some(Seq::<usize>::empty())
    } else     if w == "Ποιος"@ {
        Some(Seq::<usize>::empty())
    } else     if w == "Ποιαν"@ {
        Some(Seq::<usize>::empty())
    } else     if w == "γιεν"@ {
        Some(Seq::<usize>::empty())
    } else     if w == "πλιο"@ {
        Some(Seq::<usize>::empty())
    } else     if w == "Μπλια"@ {
        Some(Seq::<usize>::empty())
    } else     if w == "βιο"@ {
        Some(Seq::<usize>::empty())
    } else     if w == "βιος"@ {
        Some(Seq::<usize>::empty())
    } else     if w == "χλιος"@ {
        Some(Seq::<usize>::empty())
    } else     if w == "θιος"@ {
        Some(Seq::<usize>::empty())
    } else     if w == "σιορ"@ {
        Some(Seq::<usize>::empty())
    } else     if w == "πιω"@ {
        Some(Seq::<usize>::empty())
    } else     if w == "πιει"@ {
        Some(Seq::<usize>::empty())
    } else     if w == "πιεις"@ {
        Some(Seq::<usize>::empty())
    } else     if w == "ήπιαν"@ {
        Some(seq![1usize])
    } else     if w == "πιη"@ {
        Some(Seq::<usize>::empty())
    } else     if w == "πιης"@ {
        Some(Seq::<usize>::empty())
    } else     if w == "αηδόνι"@ {
        Some(seq![2usize, 4usize])
    } else     if w == "καημένος"@ {
        Some(seq![3usize, 5usize])
    } else     if w == "γάιδαρος"@ {
        Some(seq![3usize, 5usize])
    } else     if w == "νεράιδα"@ {
        Some(seq![2usize, 5usize])
    } else     if w == "μαϊμού"@ {
        Some(seq![3usize])
    } else     if w == "ρόιδι"@ {
        Some(seq![3usize])
    } else     if w == "αστέρια"@ {
        Some(seq![1usize, 4usize])
    } else     if w == "αλογίσιοι"@ {
        Some(seq![1usize, 3usize, 5usize])
    } else     if w == "αχυρένιε"@ {
        Some(seq![1usize, 3usize, 5usize])
    } else     if w == "γέλιο"@ {
        Some(seq![2usize])
    } else     if w == "γένεια"@ {
        Some(seq![2usize])
    } else     if w == "στεναχώρια"@ {
        Some(seq![3usize, 5usize, 7usize])
    } else     if w == "σκέλια"@ {
        Some(seq![3usize])
    } else     if w == "ρολόγια"@ {
        Some(seq![2usize, 4usize])
    } else     if w == "καπετάνιο"@ {
        Some(seq![2usize, 4usize, 6usize])
    } else     if w == "τέτοιο"@ {
        Some(seq![2usize])
    } else     if w == "πραμάτεια"@ {
        Some(seq![3usize, 5usize])
    } else     if w == "άδειο"@ {
        Some(seq![1usize])
    } else     if w == "ζαχαρένια"@ {
        Some(seq![2usize, 4usize, 6usize])
    } else     if w == "γυναικάκιας"@ {
        Some(seq![2usize, 5usize, 7usize])
    } else     if w == "γύμνια"@ {
        Some(seq![2usize])
    } else     if w == "πιρούνια"@ {
        Some(seq![2usize, 5usize])
    } else     if w == "σπιρούνια"@ {
        Some(seq![3usize, 6usize])
    } else     if w == "πηρούνια"@ {
        Some(seq![2usize, 5usize])
    } else     if w == "σπηρούνια"@ {
        Some(seq![3usize, 6usize])
    } else     if w == "σιντριβάνια"@ {
        Some(seq![2usize, 6usize, 8usize])
    } else     if w == "συντριβάνια"@ {
        Some(seq![2usize, 6usize, 8usize])
    } else     if w == "αστειάκια"@ {
        Some(seq![1usize, 5usize, 6usize])
    } else     if w == "καλάθια"@ {
        Some(seq![2usize, 4usize])
    } else     if w == "ντουλάπια"@ {
        Some(seq![4usize, 6usize])
    } else     if w == "μάτια"@ {
        Some(seq![2usize])
    } else     if w == "παγούρια"@ {
        Some(seq![2usize, 5usize])
    } else     if w == "κάμπια"@ {
        Some(seq![2usize])
    } else     if w == "δόντια"@ {
        Some(seq![2usize])
    } else     if w == "σελάχια"@ {
        Some(seq![2usize, 4usize])
    } else     if w == "μάγια"@ {
        Some(seq![2usize])
    } else     if w == "μπάμια"@ {
        Some(seq![3usize])
    } else     if w == "καραβάκια"@ {
        Some(seq![2usize, 4usize, 6usize])
    } else     if w == "βερεσέδια"@ {
        Some(seq![2usize, 4usize, 6usize])
    } else     if w == "βλαστήμια"@ {
        Some(seq![3usize, 6usize])
    } else     if w == "βράδια"@ {
        Some(seq![3usize])
    } else     if w == "δίχτυα"@ {
        Some(seq![2usize])
    } else     if w == "στάχυα"@ {
        Some(seq![3usize])
    } else {
        None
    }
}

/// Look a word form up in the synizesis lexicon.
pub(crate) fn lookup_synizesis(s: &str) -> (r: Option<Vec<usize>>)
    ensures
        match (r, spec_lookup_synizesis(s@)) {
            (Some(v), Some(bs)) => v@ == bs,
            (None, None) => true,
            _ => false,
        },
{
    if str_eq(s, "κορόιδο") {
        return Some(vec![2usize, 5usize]);
    }
    if str_eq(s, "αρρώστια") {
        return Some(vec![2usize, 4usize]);
    }
    if str_eq(s, "δια") {
        return Some(Vec::new());
    }
    if str_eq(s, "διω") {
        return Some(Vec::new());
    }
    if str_eq(s, "μια") {
        return Some(Vec::new());
    }
    if str_eq(s, "μιαν") {
        return Some(Vec::new());
    }
    if str_eq(s, "για") {
        return Some(Vec::new());
    }
    if str_eq(s, "πια") {
        return Some(Vec::new());
    }
    if str_eq(s, "πλια") {
        return Some(Vec::new());
    }
    if str_eq(s, "πεια") {
        return Some(Vec::new());
    }
    if str_eq(s, "πλεια") {
        return Some(Vec::new());
    }
    if str_eq(s, "δυο") {
        return Some(Vec::new());
    }
    if str_eq(s, "Δυο") {
        return Some(Vec::new());
    }
    if str_eq(s, "ποια") {
        return Some(Vec::new());
    }
    if str_eq(s, "Ποιος") {
        return Some(Vec::new());
    }
    if str_eq(s, "Ποιαν") {
        return Some(Vec::new());
    }
    if str_eq(s, "γιεν") {
        return Some(Vec::new());
    }
    if str_eq(s, "πλιο") {
        return Some(Vec::new());
    }
    if str_eq(s, "Μπλια") {
        return Some(Vec::new());
    }
    if str_eq(s, "βιο") {
        return Some(Vec::new());
    }
    if str_eq(s, "βιος") {
        return Some(Vec::new());
    }
    if str_eq(s, "χλιος") {
        return Some(Vec::new());
    }
    if str_eq(s, "θιος") {
        return Some(Vec::new());
    }
    if str_eq(s, "σιορ") {
        return Some(Vec::new());
    }
    if str_eq(s, "πιω") {
        return Some(Vec::new());
    }
    if str_eq(s, "πιει") {
        return Some(Vec::new());
    }
    if str_eq(s, "πιεις") {
        return Some(Vec::new());
    }
    if str_eq(s, "ήπιαν") {
        return Some(vec![1usize]);
    }
    if str_eq(s, "πιη") {
        return Some(Vec::new());
    }
    if str_eq(s, "πιης") {
        return Some(Vec::new());
    }
    if str_eq(s, "αηδόνι") {
        return Some(vec![2usize, 4usize]);
    }
    if str_eq(s, "καημένος") {
        return Some(vec![3usize, 5usize]);
    }
    if str_eq(s, "γάιδαρος") {
        return Some(vec![3usize, 5usize]);
    }
    if str_eq(s, "νεράιδα") {
        return Some(vec![2usize, 5usize]);
    }
    if str_eq(s, "μαϊμού") {
        return Some(vec![3usize]);
    }
    if str_eq(s, "ρόιδι") {
        return Some(vec![3usize]);
    }
    if str_eq(s, "αστέρια") {
        return Some(vec![1usize, 4usize]);
    }
    if str_eq(s, "αλογίσιοι") {
        return Some(vec![1usize, 3usize, 5usize]);
    }
    if str_eq(s, "αχυρένιε") {
        return Some(vec![1usize, 3usize, 5usize]);
    }
    if str_eq(s, "γέλιο") {
        return Some(vec![2usize]);
    }
    if str_eq(s, "γένεια") {
        return Some(vec![2usize]);
    }
    if str_eq(s, "στεναχώρια") {
        return Some(vec![3usize, 5usize, 7usize]);
    }
    if str_eq(s, "σκέλια") {
        return Some(vec![3usize]);
    }
    if str_eq(s, "ρολόγια") {
        return Some(vec![2usize, 4usize]);
    }
    if str_eq(s, "καπετάνιο") {
        return Some(vec![2usize, 4usize, 6usize]);
    }
    if str_eq(s, "τέτοιο") {
        return Some(vec![2usize]);
    }
    if str_eq(s, "πραμάτεια") {
        return Some(vec![3usize, 5usize]);
    }
    if str_eq(s, "άδειο") {
        return Some(vec![1usize]);
    }
    if str_eq(s, "ζαχαρένια") {
        return Some(vec![2usize, 4usize, 6usize]);
    }
    if str_eq(s, "γυναικάκιας") {
        return Some(vec![2usize, 5usize, 7usize]);
    }
    if str_eq(s, "γύμνια") {
        return Some(vec![2usize]);
    }
    if str_eq(s, "πιρούνια") {
        return Some(vec![2usize, 5usize]);
    }
    if str_eq(s, "σπιρούνια") {
        return Some(vec![3usize, 6usize]);
    }
    if str_eq(s, "πηρούνια") {
        return Some(vec![2usize, 5usize]);
    }
    if str_eq(s, "σπηρούνια") {
        return Some(vec![3usize, 6usize]);
    }
    if str_eq(s, "σιντριβάνια") {
        return Some(vec![2usize, 6usize, 8usize]);
    }
    if str_eq(s, "συντριβάνια") {
        return Some(vec![2usize, 6usize, 8usize]);
    }
    if str_eq(s, "αστειάκια") {
        return Some(vec![1usize, 5usize, 6usize]);
    }
    if str_eq(s, "καλάθια") {
        return Some(vec![2usize, 4usize]);
    }
    if str_eq(s, "ντουλάπια") {
        return Some(vec![4usize, 6usize]);
    }
    if str_eq(s, "μάτια") {
        return Some(vec![2usize]);
    }
    if str_eq(s, "παγούρια") {
        return Some(vec![2usize, 5usize]);
    }
    if str_eq(s, "κάμπια") {
        return Some(vec![2usize]);
    }
    if str_eq(s, "δόντια") {
        return Some(vec![2usize]);
    }
    if str_eq(s, "σελάχια") {
        return Some(vec![2usize, 4usize]);
    }
    if str_eq(s, "μάγια") {
        return Some(vec![2usize]);
    }
    if str_eq(s, "μπάμια") {
        return Some(vec![3usize]);
    }
    if str_eq(s, "καραβάκια") {
        return Some(vec![2usize, 4usize, 6usize]);
    }
    if str_eq(s, "βερεσέδια") {
        return Some(vec![2usize, 4usize, 6usize]);
    }
    if str_eq(s, "βλαστήμια") {
        return Some(vec![3usize, 6usize]);
    }
    if str_eq(s, "βράδια") {
        return Some(vec![3usize]);
    }
    if str_eq(s, "δίχτυα") {
        return Some(vec![2usize]);
    }
    if str_eq(s, "στάχυα") {
        return Some(vec![3usize]);
    }
    None
}


/// Every word form in the lexicon contains a vowel, so a vowel-less word
/// is never a lexicon key.
pub proof fn lemma_lexicon_needs_vowel(w: Seq<char>)
    requires
        forall|p: int| 0 <= p < w.len() ==> !crate::rules::spec_is_vowel(#[trigger] w[p]),
    ensures
        spec_lookup_synizesis(w) is None,
{
    assert(w != "κορόιδο"@) by {
        reveal_strlit("κορόιδο");
        if w == "κορόιδο"@ {
            assert(w[1] == 'ο');
        }
    }
    assert(w != "αρρώστια"@) by {
        reveal_strlit("αρρώστια");
        if w == "αρρώστια"@ {
            assert(w[0] == 'α');
        }
    }
    assert(w != "δια"@) by {
        reveal_strlit("δια");
        if w == "δια"@ {
            assert(w[1] == 'ι');
        }
    }
    assert(w != "διω"@) by {
        reveal_strlit("διω");
        if w == "διω"@ {
            assert(w[1] == 'ι');
        }
    }
    assert(w != "μια"@) by {
        reveal_strlit("μια");
        if w == "μια"@ {
            assert(w[1] == 'ι');
        }
    }
    assert(w != "μιαν"@) by {
        reveal_strlit("μιαν");
        if w == "μιαν"@ {
            assert(w[1] == 'ι');
        }
    }
    assert(w != "για"@) by {
        reveal_strlit("για");
        if w == "για"@ {
            assert(w[1] == 'ι');
        }
    }
    assert(w != "πια"@) by {
        reveal_strlit("πια");
        if w == "πια"@ {
            assert(w[1] == 'ι');
        }
    }
    assert(w != "πλια"@) by {
        reveal_strlit("πλια");
        if w == "πλια"@ {
            assert(w[2] == 'ι');
        }
    }
    assert(w != "πεια"@) by {
        reveal_strlit("πεια");
        if w == "πεια"@ {
            assert(w[1] == 'ε');
        }
    }
    assert(w != "πλεια"@) by {
        reveal_strlit("πλεια");
        if w == "πλεια"@ {
            assert(w[2] == 'ε');
        }
    }
    assert(w != "δυο"@) by {
        reveal_strlit("δυο");
        if w == "δυο"@ {
            assert(w[1] == 'υ');
        }
    }
    assert(w != "Δυο"@) by {
        reveal_strlit("Δυο");
        if w == "Δυο"@ {
            assert(w[1] == 'υ');
        }
    }
    assert(w != "ποια"@) by {
        reveal_strlit("ποια");
        if w == "ποια"@ {
            assert(w[1] == 'ο');
        }
    }
    assert(w != "Ποιος"@) by {
        reveal_strlit("Ποιος");
        if w == "Ποιος"@ {
            assert(w[1] == 'ο');
        }
    }
    assert(w != "Ποιαν"@) by {
        reveal_strlit("Ποιαν");
        if w == "Ποιαν"@ {
            assert(w[1] == 'ο');
        }
    }
    assert(w != "γιεν"@) by {
        reveal_strlit("γιεν");
        if w == "γιεν"@ {
            assert(w[1] == 'ι');
        }
    }
    assert(w != "πλιο"@) by {
        reveal_strlit("πλιο");
        if w == "πλιο"@ {
            assert(w[2] == 'ι');
        }
    }
    assert(w != "Μπλια"@) by {
        reveal_strlit("Μπλια");
        if w == "Μπλια"@ {
            assert(w[3] == 'ι');
        }
    }
    assert(w != "βιο"@) by {
        reveal_strlit("βιο");
        if w == "βιο"@ {
            assert(w[1] == 'ι');
        }
    }
    assert(w != "βιος"@) by {
        reveal_strlit("βιος");
        if w == "βιος"@ {
            assert(w[1] == 'ι');
        }
    }
    assert(w != "χλιος"@) by {
        reveal_strlit("χλιος");
        if w == "χλιος"@ {
            assert(w[2] == 'ι');
        }
    }
    assert(w != "θιος"@) by {
        reveal_strlit("θιος");
        if w == "θιος"@ {
            assert(w[1] == 'ι');
        }
    }
    assert(w != "σιορ"@) by {
        reveal_strlit("σιορ");
        if w == "σιορ"@ {
            assert(w[1] == 'ι');
        }
    }
    assert(w != "πιω"@) by {
        reveal_strlit("πιω");
        if w == "πιω"@ {
            assert(w[1] == 'ι');
        }
    }
    assert(w != "πιει"@) by {
        reveal_strlit("πιει");
        if w == "πιει"@ {
            assert(w[1] == 'ι');
        }
    }
    assert(w != "πιεις"@) by {
        reveal_strlit("πιεις");
        if w == "πιεις"@ {
            assert(w[1] == 'ι');
        }
    }
    assert(w != "ήπιαν"@) by {
        reveal_strlit("ήπιαν");
        if w == "ήπιαν"@ {
            assert(w[0] == 'ή');
        }
    }
    assert(w != "πιη"@) by {
        reveal_strlit("πιη");
        if w == "πιη"@ {
            assert(w[1] == 'ι');
        }
    }
    assert(w != "πιης"@) by {
        reveal_strlit("πιης");
        if w == "πιης"@ {
            assert(w[1] == 'ι');
        }
    }
    assert(w != "αηδόνι"@) by {
        reveal_strlit("αηδόνι");
        if w == "αηδόνι"@ {
            assert(w[0] == 'α');
        }
    }
    assert(w != "καημένος"@) by {
        reveal_strlit("καημένος");
        if w == "καημένος"@ {
            assert(w[1] == 'α');
        }
    }
    assert(w != "γάιδαρος"@) by {
        reveal_strlit("γάιδαρος");
        if w == "γάιδαρος"@ {
            assert(w[1] == 'ά');
        }
    }
    assert(w != "νεράιδα"@) by {
        reveal_strlit("νεράιδα");
        if w == "νεράιδα"@ {
            assert(w[1] == 'ε');
        }
    }
    assert(w != "μαϊμού"@) by {
        reveal_strlit("μαϊμού");
        if w == "μαϊμού"@ {
            assert(w[1] == 'α');
        }
    }
    assert(w != "ρόιδι"@) by {
        reveal_strlit("ρόιδι");
        if w == "ρόιδι"@ {
            assert(w[1] == 'ό');
        }
    }
    assert(w != "αστέρια"@) by {
        reveal_strlit("αστέρια");
        if w == "αστέρια"@ {
            assert(w[0] == 'α');
        }
    }
    assert(w != "αλογίσιοι"@) by {
        reveal_strlit("αλογίσιοι");
        if w == "αλογίσιοι"@ {
            assert(w[0] == 'α');
        }
    }
    assert(w != "αχυρένιε"@) by {
        reveal_strlit("αχυρένιε");
        if w == "αχυρένιε"@ {
            assert(w[0] == 'α');
        }
    }
    assert(w != "γέλιο"@) by {
        reveal_strlit("γέλιο");
        if w == "γέλιο"@ {
            assert(w[1] == 'έ');
        }
    }
    assert(w != "γένεια"@) by {
        reveal_strlit("γένεια");
        if w == "γένεια"@ {
            assert(w[1] == 'έ');
        }
    }
    assert(w != "στεναχώρια"@) by {
        reveal_strlit("στεναχώρια");
        if w == "στεναχώρια"@ {
            assert(w[2] == 'ε');
        }
    }
    assert(w != "σκέλια"@) by {
        reveal_strlit("σκέλια");
        if w == "σκέλια"@ {
            assert(w[2] == 'έ');
        }
    }
    assert(w != "ρολόγια"@) by {
        reveal_strlit("ρολόγια");
        if w == "ρολόγια"@ {
            assert(w[1] == 'ο');
        }
    }
    assert(w != "καπετάνιο"@) by {
        reveal_strlit("καπετάνιο");
        if w == "καπετάνιο"@ {
            assert(w[1] == 'α');
        }
    }
    assert(w != "τέτοιο"@) by {
        reveal_strlit("τέτοιο");
        if w == "τέτοιο"@ {
            assert(w[1] == 'έ');
        }
    }
    assert(w != "πραμάτεια"@) by {
        reveal_strlit("πραμάτεια");
        if w == "πραμάτεια"@ {
            assert(w[2] == 'α');
        }
    }
    assert(w != "άδειο"@) by {
        reveal_strlit("άδειο");
        if w == "άδειο"@ {
            assert(w[0] == 'ά');
        }
    }
    assert(w != "ζαχαρένια"@) by {
        reveal_strlit("ζαχαρένια");
        if w == "ζαχαρένια"@ {
            assert(w[1] == 'α');
        }
    }
    assert(w != "γυναικάκιας"@) by {
        reveal_strlit("γυναικάκιας");
        if w == "γυναικάκιας"@ {
            assert(w[1] == 'υ');
        }
    }
    assert(w != "γύμνια"@) by {
        reveal_strlit("γύμνια");
        if w == "γύμνια"@ {
            assert(w[1] == 'ύ');
        }
    }
    assert(w != "πιρούνια"@) by {
        reveal_strlit("πιρούνια");
        if w == "πιρούνια"@ {
            assert(w[1] == 'ι');
        }
    }
    assert(w != "σπιρούνια"@) by {
        reveal_strlit("σπιρούνια");
        if w == "σπιρούνια"@ {
            assert(w[2] == 'ι');
        }
    }
    assert(w != "πηρούνια"@) by {
        reveal_strlit("πηρούνια");
        if w == "πηρούνια"@ {
            assert(w[1] == 'η');
        }
    }
    assert(w != "σπηρούνια"@) by {
        reveal_strlit("σπηρούνια");
        if w == "σπηρούνια"@ {
            assert(w[2] == 'η');
        }
    }
    assert(w != "σιντριβάνια"@) by {
        reveal_strlit("σιντριβάνια");
        if w == "σιντριβάνια"@ {
            assert(w[1] == 'ι');
        }
    }
    assert(w != "συντριβάνια"@) by {
        reveal_strlit("συντριβάνια");
        if w == "συντριβάνια"@ {
            assert(w[1] == 'υ');
        }
    }
    assert(w != "αστειάκια"@) by {
        reveal_strlit("αστειάκια");
        if w == "αστειάκια"@ {
            assert(w[0] == 'α');
        }
    }
    assert(w != "καλάθια"@) by {
        reveal_strlit("καλάθια");
        if w == "καλάθια"@ {
            assert(w[1] == 'α');
        }
    }
    assert(w != "ντουλάπια"@) by {
        reveal_strlit("ντουλάπια");
        if w == "ντουλάπια"@ {
            assert(w[2] == 'ο');
        }
    }
    assert(w != "μάτια"@) by {
        reveal_strlit("μάτια");
        if w == "μάτια"@ {
            assert(w[1] == 'ά');
        }
    }
    assert(w != "παγούρια"@) by {
        reveal_strlit("παγούρια");
        if w == "παγούρια"@ {
            assert(w[1] == 'α');
        }
    }
    assert(w != "κάμπια"@) by {
        reveal_strlit("κάμπια");
        if w == "κάμπια"@ {
            assert(w[1] == 'ά');
        }
    }
    assert(w != "δόντια"@) by {
        reveal_strlit("δόντια");
        if w == "δόντια"@ {
            assert(w[1] == 'ό');
        }
    }
    assert(w != "σελάχια"@) by {
        reveal_strlit("σελάχια");
        if w == "σελάχια"@ {
            assert(w[1] == 'ε');
        }
    }
    assert(w != "μάγια"@) by {
        reveal_strlit("μάγια");
        if w == "μάγια"@ {
            assert(w[1] == 'ά');
        }
    }
    assert(w != "μπάμια"@) by {
        reveal_strlit("μπάμια");
        if w == "μπάμια"@ {
            assert(w[2] == 'ά');
        }
    }
    assert(w != "καραβάκια"@) by {
        reveal_strlit("καραβάκια");
        if w == "καραβάκια"@ {
            assert(w[1] == 'α');
        }
    }
    assert(w != "βερεσέδια"@) by {
        reveal_strlit("βερεσέδια");
        if w == "βερεσέδια"@ {
            assert(w[1] == 'ε');
        }
    }
    assert(w != "βλαστήμια"@) by {
        reveal_strlit("βλαστήμια");
        if w == "βλαστήμια"@ {
            assert(w[2] == 'α');
        }
    }
    assert(w != "βράδια"@) by {
        reveal_strlit("βράδια");
        if w == "βράδια"@ {
            assert(w[2] == 'ά');
        }
    }
    assert(w != "δίχτυα"@) by {
        reveal_strlit("δίχτυα");
        if w == "δίχτυα"@ {
            assert(w[1] == 'ί');
        }
    }
    assert(w != "στάχυα"@) by {
        reveal_strlit("στάχυα");
        if w == "στάχυα"@ {
            assert(w[2] == 'ά');
        }
    }
}

} // verus!
