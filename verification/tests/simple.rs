use unicodeit::naive_replace;
use unicodeit::replace;

fn check_all(text: &str, expected: &str) {
    assert_eq!(unicodeit::replace(text), expected, "Failed to convert `{text}`");
    assert_eq!(replace::replace(text), expected, "Failed to convert `{text}`");
    assert_eq!(naive_replace::replace(text), expected, "Failed to convert `{text}`");
}

#[test]
fn test_optimized_basic() {
    assert_eq!(replace::replace(r#"\epsilon"#), "\u{3b5}");
    assert_eq!(replace::replace(r#"\epsilon + \delta"#), "\u{3b5} + \u{3b4}");
    assert_eq!(replace::replace(r#"\alpha"#), "\u{3b1}");
}

#[test]
fn test_naive_basic() {
    assert_eq!(naive_replace::replace(r#"\epsilon"#), "\u{3b5}");
    assert_eq!(naive_replace::replace(r#"\epsilon + \delta"#), "\u{3b5} + \u{3b4}");
    assert_eq!(naive_replace::replace(r#"\alpha"#), "\u{3b1}");
}

#[test]
fn test_optimized_combining() {
    assert_eq!(replace::replace(r#"\dot{a}"#), "a\u{307}");
    assert_eq!(replace::replace(r#"\dot{\alpha}"#), "\u{3b1}\u{307}");
    assert_eq!(replace::replace(r#"\breve{}"#), "\u{2d8}");
    assert_eq!(replace::replace(r#"\breve{"#), r#"\breve{"#);
}

#[test]
fn test_naive_combining() {
    assert_eq!(naive_replace::replace(r#"\dot{a}"#), "a\u{307}");
    assert_eq!(naive_replace::replace(r#"\dot{\alpha}"#), "\u{3b1}\u{307}");
    assert_eq!(naive_replace::replace(r#"\breve{}"#), "\u{2d8}");
    assert_eq!(naive_replace::replace(r#"\breve{"#), r#"\breve{"#);
}

fn past_bugs(replace: fn(&str) -> String) {
    assert_eq!(replace(r#"G_{}"#), "G_{}");
    assert_eq!(replace(r#"_{(-,-}"#), "₍₋_,₋");
    assert_eq!(replace(r#"_{(-,-}ZT'\\"#), r#"₍₋_,₋ZT'\\"#);
    assert_eq!(
        replace(r#"^{zz}z^{zz}z\u{6}{}\u{6}{}}"#),
        r#"ᶻᶻzᶻᶻz\u{6}{}\u{6}{}}"#
    );
    assert_eq!(
        replace("-[\\ vac{\u{1}\0\0\0\0\0~\\ vec{a---{"),
        "−[\\ vac{\u{1}\0\0\0\0\0~a⃗−−{"
    );
    assert_eq!(
        replace("-b\u{b}\\ hat{\\}{-\u{b}z\u{1a}\0\0\0{^(-^{(---;z(NBA}~--;"),
        "−b\u{b}}\u{302}−\u{b}z\u{1a}\0\0\0{⁽−⁽⁻⁻⁻^;ᶻ⁽ᴺᴮᴬ~−−;"
    );
}

#[test]
fn test_optimized_past_bugs() {
    past_bugs(replace::replace);
}

#[test]
fn test_naive_past_bugs() {
    past_bugs(naive_replace::replace);
}

#[test]
fn test_optimized_superscript_12() {
    assert_eq!(replace::replace("a^{12}"), "a¹²");
}

#[test]
fn test_naive_superscript_12() {
    assert_eq!(naive_replace::replace("a^{12}"), "a¹²");
}

#[test]
fn test_optimized_superscript_minus1() {
    assert_eq!(replace::replace("cm^{-1}"), "cm⁻¹");
}

#[test]
fn test_naive_superscript_minus1() {
    assert_eq!(naive_replace::replace("cm^{-1}"), "cm⁻¹");
}

#[test]
fn test_optimized_subscript_12() {
    assert_eq!(replace::replace("a_{12}"), "a₁₂");
}

#[test]
fn test_naive_subscript_12() {
    assert_eq!(naive_replace::replace("a_{12}"), "a₁₂");
}

#[test]
fn test_optimized_subscript_minus1() {
    assert_eq!(replace::replace("cm_{-1}"), "cm₋₁");
}

#[test]
fn test_naive_subscript_minus1() {
    assert_eq!(naive_replace::replace("cm_{-1}"), "cm₋₁");
}

#[test]
fn incomplete_combining_mark() {
    assert_eq!(unicodeit::replace("\\breve{"), "\\breve{");
    assert_eq!(naive_replace::replace("\\breve{"), "\\breve{");
}

#[test]
fn empty_text_stays_empty() {
    check_all("", "");
}

#[test]
fn text_without_commands_is_unchanged() {
    check_all("plain text, no commands: 1 + 2 = 3", "plain text, no commands: 1 + 2 = 3");
    check_all("caf\u{e9} \u{4e2d}\u{6587}", "caf\u{e9} \u{4e2d}\u{6587}");
}

#[test]
fn both_engines_agree() {
    let samples = [
        "\\alpha\\beta\\gamma",
        "x^{2n} + y_{ij}",
        "\\not\\in \\not\\ \\not\\subset",
        "\\vec{v}\\hat{\\imath}\\bar{",
        "\\infty\\int\\in\\input",
        "_{_{12}}^{^{ab}}",
        "\\ dot{\\ vec{{}",
        "\\dot{a\u{3b1}}",
    ];
    for text in samples {
        assert_eq!(replace::replace(text), naive_replace::replace(text), "{text}");
    }
}

#[test]
fn longest_pattern_wins() {
    check_all("\\infty", "∞");
    check_all("\\int", "∫");
    check_all("\\in", "∈");
    check_all("\\subseteq \\subset", "⊆ ⊂");
    check_all("\\leftrightarrow\\leftarrow", "↔←");
    check_all("\\top\\to", "\u{22a4}\u{2192}");
    check_all("\\mathbb{R}^{n}", "\u{211d}\u{207f}");
    check_all("\\dots \\dot{x}", "\u{2026} x\u{307}");
}

#[test]
fn negation_becomes_slash() {
    // the letters behind `\not\` move into the braces of `\slash`,
    // which then takes the first of them as its base
    check_all("\\not\\x", "x\u{338}");
    check_all("\\not\\ ", "\\not\\ ");
    check_all("\\not\\", "\\not\\");
}

#[test]
fn mark_takes_whole_scalar_behind_base() {
    check_all("\\vec{a}b", "a\u{20d7}b");
    check_all("\\vec{a", "a\u{20d7}");
    check_all("\\vec{\u{e9}}", "\u{e9}\u{20d7}");
    check_all("\\vec{a\u{e9}b", "a\u{20d7}b");
}

#[test]
fn script_groups_with_greek() {
    check_all("x_{\u{3b2}\u{3b3}}", "x\u{1d66}\u{1d67}");
    check_all("x^{\u{3b4}}", "x\u{1d5f}");
    check_all("x_{\u{3b4}}", "x_{\u{3b4}}");
    check_all("x_{1", "x_{1");
    check_all("x_{1q}", "x_{1q}");
}

#[test]
fn version_has_both_parts() {
    assert_eq!(unicodeit::version_info(), "unicodeit.rs0.2.1-data0.7.5");
}
