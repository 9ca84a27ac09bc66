use std::collections::HashMap;
use unicodeit::data::COMBINING_MARKS;
use unicodeit::data::REPLACEMENTS;
use unicodeit::data::REPLACEMENTS_WITH_BRACKET_SUFFIX;
use unicodeit::data::SUB_SUPER_SCRIPTS;

fn is_ordered(table: &[(&str, &str)]) {
    let mut expr_length = usize::MAX;
    for (l, _) in table {
        let char_length = l.chars().count();
        assert!(char_length <= expr_length);
        expr_length = char_length;
    }
}

#[test]
fn order_replacements() {
    is_ordered(&REPLACEMENTS);
    is_ordered(&REPLACEMENTS_WITH_BRACKET_SUFFIX);
}

#[test]
fn order_sub_super_scripts() {
    is_ordered(&SUB_SUPER_SCRIPTS);
}

#[test]
fn order_combining_marks() {
    is_ordered(&COMBINING_MARKS);
}

#[test]
fn combining_not_in_replacement() {
    let replacement_latex = REPLACEMENTS
        .iter()
        .map(|&(l, u)| (l.replace("{}", ""), u))
        .collect::<HashMap<String, &'static str>>();
    for &(l, u) in COMBINING_MARKS.iter() {
        let l = l.replace("{}", "");
        let Some(&replacement_val) = replacement_latex.get(&l) else {
            continue;
        };
        assert_ne!(replacement_val, u);
    }
}

#[test]
fn bracket_suffix_entries_end_in_braces() {
    for &(l, u) in REPLACEMENTS_WITH_BRACKET_SUFFIX.iter() {
        assert!(l.ends_with("{}"));
        assert!(REPLACEMENTS.contains(&(l, u)));
    }
}
