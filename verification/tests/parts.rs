use unicodeit::engine::Engine;
use unicodeit::marks::apply_all;
use unicodeit::marks::escaped;
use unicodeit::marks::resolve;
use unicodeit::matching::contains;
use unicodeit::matching::find;
use unicodeit::matching::find_byte_from;
use unicodeit::matching::find_from;
use unicodeit::matching::pattern_at;
use unicodeit::matching::scan_find;
use unicodeit::matching::Match;
use unicodeit::matching::Matcher;
use unicodeit::passes::byte_in;
use unicodeit::passes::count_alphabetic;
use unicodeit::passes::expand;
use unicodeit::passes::expand_script_groups;
use unicodeit::passes::is_allowed;
use unicodeit::passes::negate;
use unicodeit::passes::scalar_end_at;
use unicodeit::passes::Script;
use unicodeit::rewrite::replace_with;
use unicodeit::rewrite::Edit;
use unicodeit::rewrite::Rule;
use unicodeit::rewrite::Substitution;

fn rule(pattern: &str, replacement: &str) -> Rule {
    Rule { pattern: pattern.as_bytes().to_vec(), replacement: replacement.as_bytes().to_vec() }
}

fn pats(list: &[&str]) -> Vec<Vec<u8>> {
    list.iter().map(|p| p.as_bytes().to_vec()).collect()
}

#[test]
fn find_gives_first_offset() {
    assert_eq!(find("abcabc", "bc"), Some(1));
    assert_eq!(find("abcabc", "cb"), None);
    assert_eq!(find("a\u{e9}b", "b"), Some(3));
    assert_eq!(find("abc", ""), Some(0));
}

#[test]
fn contains_follows_find() {
    assert!(contains("\\alpha + 1", "\\alpha"));
    assert!(!contains("\\alpha + 1", "\\beta"));
}

#[test]
fn find_from_skips_earlier_occurrences() {
    assert_eq!(find_from(b"abcabc", b"bc", 0), Some(1));
    assert_eq!(find_from(b"abcabc", b"bc", 2), Some(4));
    assert_eq!(find_from(b"abcabc", b"bc", 5), None);
    assert_eq!(find_from(b"abcabc", b"bc", 6), None);
    assert_eq!(find_byte_from(b"a}b}", b'}', 2), Some(3));
    assert_eq!(find_byte_from(b"a}b}", b'{', 0), None);
}

#[test]
fn pattern_at_compares_bytes() {
    assert!(pattern_at(b"hello", b"ll", 2));
    assert!(!pattern_at(b"hello", b"ll", 3));
    assert!(!pattern_at(b"hello", b"lo!", 3));
    assert!(pattern_at(b"hello", b"", 5));
    assert!(!pattern_at(b"hello", b"", 6));
}

#[test]
fn leftmost_match_then_first_pattern() {
    let table = pats(&["bcd", "abcd", "ab", "abc"]);
    let expected = Some(Match { start: 1, end: 5, pattern: 1 });
    assert_eq!(scan_find(&table, b"xabcd", 0), expected);
    assert_eq!(Matcher::new(pats(&["bcd", "abcd", "ab", "abc"])).find(b"xabcd", 0), expected);
    assert_eq!(Matcher::scanning(pats(&["bcd", "abcd", "ab", "abc"])).find(b"xabcd", 0), expected);
    let later = Some(Match { start: 2, end: 5, pattern: 0 });
    assert_eq!(scan_find(&table, b"xabcd", 2), later);
    assert_eq!(Matcher::new(pats(&["bcd", "abcd", "ab", "abc"])).find(b"xabcd", 2), later);
    assert_eq!(Matcher::new(pats(&["bcd"])).find(b"xabcd", 3), None);
    assert_eq!(Matcher::new(pats(&["bcd"])).find(b"xabcd", 9), None);
}

#[test]
fn automaton_is_built_for_plain_tables() {
    assert!(Matcher::new(pats(&["ab", "abc"])).is_automated());
    assert!(!Matcher::new(pats(&["", "a"])).is_automated());
    assert!(!Matcher::scanning(pats(&["ab", "abc"])).is_automated());
}

#[test]
fn table_order_breaks_ties() {
    let short_first = Matcher::new(pats(&["ab", "abc"]));
    assert_eq!(short_first.find(b"abc", 0), Some(Match { start: 0, end: 2, pattern: 0 }));
    let scanning = Matcher::scanning(pats(&["ab", "abc"]));
    assert_eq!(scanning.find(b"abc", 0), Some(Match { start: 0, end: 2, pattern: 0 }));
}

#[test]
fn empty_pattern_matches_in_place() {
    let m = Matcher::new(pats(&["", "a"]));
    assert_eq!(m.find(b"ba", 1), Some(Match { start: 1, end: 1, pattern: 0 }));
    assert_eq!(m.find(b"ba", 2), Some(Match { start: 2, end: 2, pattern: 0 }));
    let s = Substitution::new(vec![rule("", "x"), rule("a", "y")], true);
    assert_eq!(s.apply(b"ba"), b"ba");
}

#[test]
fn replace_with_drops_overlapping_edits() {
    let edits = vec![
        Edit { start: 1, len: 3, replacement: b"X".to_vec() },
        Edit { start: 2, len: 1, replacement: b"Y".to_vec() },
        Edit { start: 4, len: 0, replacement: b"Z".to_vec() },
    ];
    assert_eq!(replace_with(b"abcdef", &edits), b"aXZef");
    assert_eq!(replace_with(b"abcdef", &Vec::new()), b"abcdef");
}

#[test]
fn substitution_replaces_every_match() {
    for automaton in [true, false] {
        let s = Substitution::new(vec![rule("aa", "1"), rule("a", "2"), rule("b", "")], automaton);
        assert_eq!(s.apply(b"aaab-a"), b"12-2");
        assert_eq!(s.apply(b""), b"");
        assert_eq!(s.apply(b"xyz"), b"xyz");
    }
}

#[test]
fn negation_pass_alone() {
    assert_eq!(negate(b"\\not\\in A"), b"\\slash{in} A");
    assert_eq!(negate(b"\\not\\not\\in"), b"\\slash{not}\\in");
    assert_eq!(negate(b"\\not\\1"), b"\\not\\1");
    assert_eq!(negate(b"\\not\\"), b"\\not\\");
    assert_eq!(negate(b"a\\not\\b\\not\\cd!"), b"a\\slash{b}\\slash{cd}!");
    assert_eq!(count_alphabetic(b"abC1d", 0), 3);
    assert_eq!(count_alphabetic(b"abC1d", 3), 0);
    assert_eq!(count_alphabetic(b"abC1d", 5), 0);
}

#[test]
fn script_groups_alone() {
    assert_eq!(expand_script_groups(Script::Sub, b"f_{34a5}"), b"f_3_4_a_5");
    assert_eq!(expand_script_groups(Script::Super, b"f^{34a5}"), b"f^3^4^a^5");
    assert_eq!(expand_script_groups(Script::Sub, b"f^{34a5}"), b"f^{34a5}");
    assert_eq!(expand_script_groups(Script::Sub, b"f_{}"), b"f_{}");
    assert_eq!(expand_script_groups(Script::Sub, b"f_{12"), b"f_{12");
    assert_eq!(expand_script_groups(Script::Sub, b"f_{1b}_{2}"), b"f_{1b}_2");
    assert_eq!(expand_script_groups(Script::Super, b"f^{1b}"), b"f^1^b");
    assert_eq!(expand_script_groups(Script::Sub, b"_{_{12}}"), b"_{_1_2}");
    assert_eq!(
        expand_script_groups(Script::Sub, "_{\u{3c1}\u{2212}}".as_bytes()),
        "_\u{3c1}_\u{2212}".as_bytes()
    );
    assert_eq!(expand(Script::Sub, b"1,2", 0, 3), Some(b"_1_,_2".to_vec()));
    assert_eq!(expand(Script::Sub, b"1q2", 0, 3), None);
    assert_eq!(expand(Script::Super, b"", 0, 0), Some(Vec::new()));
}

#[test]
fn allowed_sets_differ() {
    assert!(is_allowed(Script::Sub, b"a", 0, 1));
    assert!(!is_allowed(Script::Sub, b"b", 0, 1));
    assert!(is_allowed(Script::Super, b"b", 0, 1));
    assert!(!is_allowed(Script::Super, b"q", 0, 1));
    assert!(is_allowed(Script::Sub, b";", 0, 1));
    assert!(is_allowed(Script::Sub, b">", 0, 1));
    assert!(!is_allowed(Script::Sub, b"*", 0, 1));
    assert!(is_allowed(Script::Sub, "\u{3c1}".as_bytes(), 0, 2));
    assert!(!is_allowed(Script::Super, "\u{3c1}".as_bytes(), 0, 2));
    assert!(is_allowed(Script::Super, "\u{222b}".as_bytes(), 0, 3));
    assert!(!is_allowed(Script::Sub, "\u{222b}".as_bytes(), 0, 3));
    assert!(!is_allowed(Script::Sub, "\u{1d7d8}".as_bytes(), 0, 4));
    assert!(byte_in(b"abc", b'c'));
    assert!(!byte_in(b"abc", b'd'));
    assert!(!byte_in(b"", b'd'));
}

#[test]
fn scalar_ends() {
    let text = "a\u{e9}\u{2212}\u{1d7d8}".as_bytes();
    assert_eq!(scalar_end_at(text, 0, text.len()), 1);
    assert_eq!(scalar_end_at(text, 1, text.len()), 3);
    assert_eq!(scalar_end_at(text, 3, text.len()), 6);
    assert_eq!(scalar_end_at(text, 6, text.len()), 10);
    assert_eq!(scalar_end_at(text, 6, 8), 8);
    assert_eq!(scalar_end_at(text, 2, text.len()), 3);
}

#[test]
fn marks_alone() {
    assert_eq!(escaped(b"\\dot"), b"\\ dot{");
    assert_eq!(escaped(b""), b"\\ {");
    let dot = rule("\\dot", "\u{307}");
    assert_eq!(resolve(b"\\ dot{a}\\ dot{b}".to_vec(), &dot), "a\u{307}b\u{307}".as_bytes());
    assert_eq!(resolve(b"\\ dot{a".to_vec(), &dot), "a\u{307}".as_bytes());
    assert_eq!(resolve(b"x\\ dot{".to_vec(), &dot), b"x\\dot{");
    assert_eq!(resolve(b"\\ dot{ab".to_vec(), &dot), "a\u{307}".as_bytes());
    assert_eq!(resolve(b"none".to_vec(), &dot), b"none");
    let marks = vec![rule("\\dot", "\u{307}"), rule("\\vec", "\u{20d7}")];
    assert_eq!(
        apply_all(b"\\ vec{v}\\ dot{x}".to_vec(), &marks),
        "v\u{20d7}x\u{307}".as_bytes()
    );
    // an escaped form that a later mark leaves behind stays
    assert_eq!(
        apply_all(b"\\ dot\\ vec{{}".to_vec(), &marks),
        "\\ dot{\u{20d7}".as_bytes()
    );
}

#[test]
fn long_mark_value_is_applied_once() {
    let long = rule("\\m", "\\ m{ab");
    assert_eq!(resolve(b"\\ m{x}".to_vec(), &long), b"x\\ m{ab");
}

#[test]
fn engine_with_own_tables() {
    for automaton in [true, false] {
        let engine = Engine::new(
            vec![rule("\\foo{}", "F"), rule("\\x", "X")],
            vec![rule("\\foo{}", "F")],
            vec![rule("_1", "i")],
            vec![rule("\\foo", "~")],
            automaton,
        );
        assert_eq!(engine.rewrite(b"\\x_{11} \\foo{} \\foo{a} \\foo{"), b"Xii F a~ \\foo{");
    }
}

#[test]
fn rewrite_takes_any_bytes() {
    let engine = Engine::standard();
    let scanning = Engine::scanning();
    let garbage: &[u8] = &[0xff, b'\\', b' ', b'd', b'o', b't', b'{', 0xe2, 0x88, b'_', b'{', 0xce, b'}'];
    assert_eq!(engine.rewrite(garbage), scanning.rewrite(garbage));
    assert_eq!(engine.rewrite(&[0xff, 0xfe]), [0xff, 0xfe]);
}
