use storylife_utils::game::{contains_chars, is_fivem_process, is_game_window_title, shell_launch_outcome};
use storylife_utils::keys::key_name_to_vk;
use storylife_utils::ocr_words::{find_name_in_words, joined_words, word_similarity, Similarity};
use storylife_utils::text::{chars_of, is_whitespace, normalize, normalized_words, string_of, trim_chars};

fn strings(words: &[&str]) -> Vec<String> {
    words.iter().map(|w| w.to_string()).collect()
}

#[test]
fn whitespace_follows_unicode() {
    assert!(is_whitespace(' '));
    assert!(is_whitespace('\t'));
    assert!(is_whitespace('\u{a0}'));
    assert!(is_whitespace('\u{3000}'));
    assert!(!is_whitespace('a'));
    assert!(!is_whitespace('_'));
    for c in ['x', ' ', '\n', '\u{2009}', '\u{200b}', '\u{85}'] {
        assert_eq!(is_whitespace(c), c.is_whitespace());
    }
}

#[test]
fn trim_matches_std() {
    for s in ["  Jean  ", "\tA B\n", "", "   ", "x"] {
        let t = trim_chars(&chars_of(s));
        assert_eq!(string_of(&t), s.trim());
    }
}

#[test]
fn normalize_cleans_a_name() {
    assert_eq!(normalize("  Jean-Pierre   DUPONT! "), "jeanpierre dupont");
    assert_eq!(normalize("Élodie  Martin"), "élodie martin");
    assert_eq!(normalize("..."), "");
    assert_eq!(normalize(""), "");
    assert_eq!(normalized_words("  Jean-Pierre   DUPONT! "), vec!["jeanpierre".to_string(), "dupont".to_string()]);
    assert!(normalized_words(" ?! ").is_empty());
}

#[test]
fn normalize_agrees_with_std_pipeline() {
    for s in ["Hello,   World", " a\tb\nc ", "Ünïcödé Name 42", "x--y  z"] {
        let expected = s
            .to_lowercase()
            .chars()
            .filter(|c| c.is_alphanumeric() || c.is_whitespace())
            .collect::<String>()
            .split_whitespace()
            .collect::<Vec<_>>()
            .join(" ");
        assert_eq!(normalize(s), expected);
    }
}

#[test]
fn similarity_cases() {
    assert_eq!(word_similarity("Dupont", "dupont"), Similarity::Identical);
    assert_eq!(word_similarity("", "dupont"), Similarity::Unrelated);
    assert_eq!(word_similarity("abcdef", "abc"), Similarity::Unrelated);
    assert_eq!(word_similarity("a", "b"), Similarity::Unrelated);
    // night: ni ig gh ht / nacht: na ac ch ht -> 1 shared of 7
    assert_eq!(word_similarity("night", "nacht"), Similarity::Overlap { shared: 1, total: 7 });
    // Dupond vs dupont: du up po on nd / du up po on nt -> 4 shared of 6
    assert_eq!(word_similarity("Dupond", "dupont"), Similarity::Overlap { shared: 4, total: 6 });
}

#[test]
fn similarity_ignores_word_order() {
    for (a, b) in [("night", "nacht"), ("Dupond", "dupont"), ("abc", ""), ("abcdef", "abc"), ("Jean", "JEAN")] {
        assert_eq!(word_similarity(a, b), word_similarity(b, a));
    }
}

#[test]
fn finds_the_name_among_ocr_words() {
    let ocr = strings(&["Personnage", "Jean", "Dupond", "Niveau"]);
    let name = strings(&["jean", "dupont"]);
    let (start, sims) = find_name_in_words(&ocr, &name).unwrap();
    assert_eq!(start, 1);
    assert_eq!(sims, vec![Similarity::Identical, Similarity::Overlap { shared: 4, total: 6 }]);
    assert!(find_name_in_words(&ocr, &strings(&["marie"])).is_none());
    assert!(find_name_in_words(&ocr, &Vec::new()).is_none());
    assert!(find_name_in_words(&Vec::new(), &name).is_none());
    assert!(find_name_in_words(&strings(&["Jean"]), &name).is_none());
}

#[test]
fn key_names_map_to_virtual_keys() {
    assert_eq!(key_name_to_vk("M"), Some(0x4D));
    assert_eq!(key_name_to_vk(" m "), Some(0x4D));
    assert_eq!(key_name_to_vk("7"), Some(0x37));
    assert_eq!(key_name_to_vk("f5"), Some(0x74));
    assert_eq!(key_name_to_vk("F12"), Some(0x7B));
    assert_eq!(key_name_to_vk("Espace"), Some(0x20));
    assert_eq!(key_name_to_vk("space"), Some(0x20));
    assert_eq!(key_name_to_vk("tab"), Some(0x09));
    assert_eq!(key_name_to_vk("F13"), None);
    assert_eq!(key_name_to_vk("?"), None);
    assert_eq!(key_name_to_vk(""), None);
    assert_eq!(key_name_to_vk("é"), None);
}

#[test]
fn recognises_game_processes_and_windows() {
    assert!(is_fivem_process("FiveM.exe"));
    assert!(is_fivem_process("FiveM_GTAProcess.exe"));
    assert!(is_fivem_process("fivem_b2802_gtaprocess.exe"));
    assert!(is_fivem_process("FIVEM_DUMPSERVER.EXE"));
    assert!(!is_fivem_process("fivem"));
    assert!(!is_fivem_process("notepad.exe"));
    assert!(is_game_window_title("StoryLife RP - FiveM"));
    assert!(is_game_window_title("FIVEM® by Cfx.re - StoryLife"));
    assert!(!is_game_window_title("FiveM"));
    assert!(!is_game_window_title("StoryLife forum"));
}

#[test]
fn substring_search() {
    let s: Vec<char> = "abcabd".chars().collect();
    let p: Vec<char> = "abd".chars().collect();
    let q: Vec<char> = "abe".chars().collect();
    assert!(contains_chars(&s, &p));
    assert!(!contains_chars(&s, &q));
    assert!(contains_chars(&s, &[]));
    assert!(!contains_chars(&[], &p));
}

#[test]
fn key_names_ignore_case_and_spaces() {
    for (a, b) in [("m", " M "), ("f5", "F5"), ("Espace", "ESPACE"), ("tab", "Tab"), ("7", " 7")] {
        assert_eq!(key_name_to_vk(a), key_name_to_vk(b));
    }
    assert_eq!(key_name_to_vk("q"), Some('Q' as i32));
    assert_eq!(key_name_to_vk("3"), Some('3' as i32));
}

#[test]
fn overlap_scores_stay_within_one() {
    for (a, b) in [("night", "nacht"), ("Dupond", "dupont"), ("abab", "baba"), ("jean", "jeanne")] {
        if let Similarity::Overlap { shared, total } = word_similarity(a, b) {
            assert!(0 < total && shared <= total);
        }
    }
}

#[test]
fn shell_launch_codes() {
    assert_eq!(shell_launch_outcome(42), Ok(()));
    assert_eq!(shell_launch_outcome(33), Ok(()));
    assert_eq!(shell_launch_outcome(32), Err(32));
    assert_eq!(shell_launch_outcome(2), Err(2));
}

#[test]
fn matched_words_are_joined_with_single_spaces() {
    let ocr = strings(&["Personnage", "Jean", "Dupond", "Niveau"]);
    assert_eq!(joined_words(&ocr, 1, 2), "Jean Dupond");
    assert_eq!(joined_words(&ocr, 3, 1), "Niveau");
    assert_eq!(joined_words(&ocr, 0, 0), "");
}

#[test]
fn key_names_read_as_trimmed_lowercase() {
    for name in ["F5 ", " Espace", "m", " TAB", "9", "f13", " x y "] {
        assert_eq!(key_name_to_vk(name), key_name_to_vk(&name.trim().to_ascii_lowercase()));
    }
}
