//! What holds of the substitution tables: their order, and that marks and
//! plain values do not mix.

use crate::data::COMBINING_MARKS;
use crate::data::REPLACEMENTS;
use crate::data::REPLACEMENTS_WITH_BRACKET_SUFFIX;
use crate::data::SUB_SUPER_SCRIPTS;
use vstd::prelude::*;

verus! {

/// The first `n` patterns of a table come in order of non-increasing
/// character length.
pub open spec fn sorted_prefix(table: Seq<(&'static str, &'static str)>, n: int) -> bool
    decreases n,
{
    n <= 1 || (sorted_prefix(table, n - 1) && table[n - 1].0@.len() <= table[n - 2].0@.len())
}

/// The character length of successive patterns is non-increasing.
pub open spec fn ordered(table: Seq<(&'static str, &'static str)>) -> bool {
    forall|i: int| 0 < i < table.len() ==> (#[trigger] table[i]).0@.len() <= table[i - 1].0@.len()
}

/// A combining code point: U+0300 to U+036F, or U+20D0 to U+20FF.
pub open spec fn is_combining(c: char) -> bool {
    (0x300 <= c as u32 <= 0x36f) || (0x20d0 <= c as u32 <= 0x20ff)
}

/// The first `n` values of a table are single combining code points.
pub open spec fn marks_prefix(table: Seq<(&'static str, &'static str)>, n: int) -> bool
    decreases n,
{
    n <= 0 || (marks_prefix(table, n - 1) && table[n - 1].1@.len() == 1 && is_combining(
        table[n - 1].1@[0],
    ))
}

/// None of the first `n` values of a table starts with a combining code point.
pub open spec fn plain_prefix(table: Seq<(&'static str, &'static str)>, n: int) -> bool
    decreases n,
{
    n <= 0 || (plain_prefix(table, n - 1) && table[n - 1].1@.len() >= 1 && !is_combining(
        table[n - 1].1@[0],
    ))
}

/// The first `n` patterns of a table start with a backslash.
pub open spec fn commands_prefix(table: Seq<(&'static str, &'static str)>, n: int) -> bool
    decreases n,
{
    n <= 0 || (commands_prefix(table, n - 1) && table[n - 1].0@.len() >= 1 && table[n - 1].0@[0]
        == '\\')
}

proof fn lemma_commands_prefix(table: Seq<(&'static str, &'static str)>, n: int, i: int)
    requires
        commands_prefix(table, n),
        0 <= i < n,
    ensures
        table[i].0@.len() >= 1,
        table[i].0@[0] == '\\',
    decreases n,
{
    if i < n - 1 {
        lemma_commands_prefix(table, n - 1, i);
    }
}

proof fn lemma_sorted_filled(table: Seq<(&'static str, &'static str)>, n: int, i: int)
    requires
        sorted_prefix(table, n),
        0 <= i < n,
        table[n - 1].0@.len() >= 1,
    ensures
        table[i].0@.len() >= 1,
    decreases n - i,
{
    if i < n - 1 {
        lemma_sorted_filled(table, n, i + 1);
        lemma_sorted_prefix(table, n, i + 1);
    }
}

proof fn lemma_sorted_prefix(table: Seq<(&'static str, &'static str)>, n: int, i: int)
    requires
        sorted_prefix(table, n),
        0 < i < n,
    ensures
        table[i].0@.len() <= table[i - 1].0@.len(),
    decreases n,
{
    if i < n - 1 {
        lemma_sorted_prefix(table, n - 1, i);
    }
}

proof fn lemma_marks_prefix(table: Seq<(&'static str, &'static str)>, n: int, i: int)
    requires
        marks_prefix(table, n),
        0 <= i < n,
    ensures
        table[i].1@.len() == 1,
        is_combining(table[i].1@[0]),
    decreases n,
{
    if i < n - 1 {
        lemma_marks_prefix(table, n - 1, i);
    }
}

proof fn lemma_plain_prefix(table: Seq<(&'static str, &'static str)>, n: int, i: int)
    requires
        plain_prefix(table, n),
        0 <= i < n,
    ensures
        table[i].1@.len() >= 1,
        !is_combining(table[i].1@[0]),
    decreases n,
{
    if i < n - 1 {
        lemma_plain_prefix(table, n - 1, i);
    }
}

proof fn lemma_replacements_sorted_0()
    ensures
        sorted_prefix(REPLACEMENTS@, 16),
{
    reveal_strlit("\\rightleftharpoons");
    reveal_strlit("\\leftrightarrow");
    reveal_strlit("\\longrightarrow");
    reveal_strlit("\\Leftrightarrow");
    reveal_strlit("\\hookrightarrow");
    reveal_strlit("\\longleftarrow");
    reveal_strlit("\\hookleftarrow");
    reveal_strlit("\\rightarrow");
    reveal_strlit("\\Rightarrow");
    reveal_strlit("\\varnothing");
    reveal_strlit("\\sqsubseteq");
    reveal_strlit("\\sqsupseteq");
    reveal_strlit("\\leftarrow");
    reveal_strlit("\\Leftarrow");
    reveal_strlit("\\downarrow");
    reveal_strlit("\\Downarrow");
    assert(sorted_prefix(REPLACEMENTS@, 1));
    assert(sorted_prefix(REPLACEMENTS@, 2));
    assert(sorted_prefix(REPLACEMENTS@, 3));
    assert(sorted_prefix(REPLACEMENTS@, 4));
    assert(sorted_prefix(REPLACEMENTS@, 5));
    assert(sorted_prefix(REPLACEMENTS@, 6));
    assert(sorted_prefix(REPLACEMENTS@, 7));
    assert(sorted_prefix(REPLACEMENTS@, 8));
    assert(sorted_prefix(REPLACEMENTS@, 9));
    assert(sorted_prefix(REPLACEMENTS@, 10));
    assert(sorted_prefix(REPLACEMENTS@, 11));
    assert(sorted_prefix(REPLACEMENTS@, 12));
    assert(sorted_prefix(REPLACEMENTS@, 13));
    assert(sorted_prefix(REPLACEMENTS@, 14));
    assert(sorted_prefix(REPLACEMENTS@, 15));
    assert(sorted_prefix(REPLACEMENTS@, 16));
}

proof fn lemma_replacements_sorted_1()
    requires
        sorted_prefix(REPLACEMENTS@, 16),
    ensures
        sorted_prefix(REPLACEMENTS@, 32),
{
    reveal_strlit("\\Downarrow");
    reveal_strlit("\\bigotimes");
    reveal_strlit("\\therefore");
    reveal_strlit("\\mathbb{R}");
    reveal_strlit("\\mathbb{N}");
    reveal_strlit("\\mathbb{Z}");
    reveal_strlit("\\mathbb{Q}");
    reveal_strlit("\\mathbb{C}");
    reveal_strlit("\\nsubseteq");
    reveal_strlit("\\nsupseteq");
    reveal_strlit("\\copyright");
    reveal_strlit("\\subseteq");
    reveal_strlit("\\supseteq");
    reveal_strlit("\\emptyset");
    reveal_strlit("\\parallel");
    reveal_strlit("\\setminus");
    reveal_strlit("\\bigoplus");
    assert(sorted_prefix(REPLACEMENTS@, 17));
    assert(sorted_prefix(REPLACEMENTS@, 18));
    assert(sorted_prefix(REPLACEMENTS@, 19));
    assert(sorted_prefix(REPLACEMENTS@, 20));
    assert(sorted_prefix(REPLACEMENTS@, 21));
    assert(sorted_prefix(REPLACEMENTS@, 22));
    assert(sorted_prefix(REPLACEMENTS@, 23));
    assert(sorted_prefix(REPLACEMENTS@, 24));
    assert(sorted_prefix(REPLACEMENTS@, 25));
    assert(sorted_prefix(REPLACEMENTS@, 26));
    assert(sorted_prefix(REPLACEMENTS@, 27));
    assert(sorted_prefix(REPLACEMENTS@, 28));
    assert(sorted_prefix(REPLACEMENTS@, 29));
    assert(sorted_prefix(REPLACEMENTS@, 30));
    assert(sorted_prefix(REPLACEMENTS@, 31));
    assert(sorted_prefix(REPLACEMENTS@, 32));
}

proof fn lemma_replacements_sorted_2()
    requires
        sorted_prefix(REPLACEMENTS@, 32),
    ensures
        sorted_prefix(REPLACEMENTS@, 48),
{
    reveal_strlit("\\bigoplus");
    reveal_strlit("\\triangle");
    reveal_strlit("\\vartheta");
    reveal_strlit("\\varsigma");
    reveal_strlit("\\epsilon");
    reveal_strlit("\\upsilon");
    reveal_strlit("\\Upsilon");
    reveal_strlit("\\partial");
    reveal_strlit("\\ddagger");
    reveal_strlit("\\uparrow");
    reveal_strlit("\\Uparrow");
    reveal_strlit("\\implies");
    reveal_strlit("\\diamond");
    reveal_strlit("\\because");
    reveal_strlit("\\nexists");
    reveal_strlit("\\nearrow");
    reveal_strlit("\\searrow");
    assert(sorted_prefix(REPLACEMENTS@, 33));
    assert(sorted_prefix(REPLACEMENTS@, 34));
    assert(sorted_prefix(REPLACEMENTS@, 35));
    assert(sorted_prefix(REPLACEMENTS@, 36));
    assert(sorted_prefix(REPLACEMENTS@, 37));
    assert(sorted_prefix(REPLACEMENTS@, 38));
    assert(sorted_prefix(REPLACEMENTS@, 39));
    assert(sorted_prefix(REPLACEMENTS@, 40));
    assert(sorted_prefix(REPLACEMENTS@, 41));
    assert(sorted_prefix(REPLACEMENTS@, 42));
    assert(sorted_prefix(REPLACEMENTS@, 43));
    assert(sorted_prefix(REPLACEMENTS@, 44));
    assert(sorted_prefix(REPLACEMENTS@, 45));
    assert(sorted_prefix(REPLACEMENTS@, 46));
    assert(sorted_prefix(REPLACEMENTS@, 47));
    assert(sorted_prefix(REPLACEMENTS@, 48));
}

proof fn lemma_replacements_sorted_3()
    requires
        sorted_prefix(REPLACEMENTS@, 48),
    ensures
        sorted_prefix(REPLACEMENTS@, 64),
{
    reveal_strlit("\\searrow");
    reveal_strlit("\\swarrow");
    reveal_strlit("\\nwarrow");
    reveal_strlit("\\breve{}");
    reveal_strlit("\\acute{}");
    reveal_strlit("\\check{}");
    reveal_strlit("\\lambda");
    reveal_strlit("\\Lambda");
    reveal_strlit("\\approx");
    reveal_strlit("\\forall");
    reveal_strlit("\\exists");
    reveal_strlit("\\subset");
    reveal_strlit("\\supset");
    reveal_strlit("\\otimes");
    reveal_strlit("\\langle");
    reveal_strlit("\\rangle");
    reveal_strlit("\\propto");
    assert(sorted_prefix(REPLACEMENTS@, 49));
    assert(sorted_prefix(REPLACEMENTS@, 50));
    assert(sorted_prefix(REPLACEMENTS@, 51));
    assert(sorted_prefix(REPLACEMENTS@, 52));
    assert(sorted_prefix(REPLACEMENTS@, 53));
    assert(sorted_prefix(REPLACEMENTS@, 54));
    assert(sorted_prefix(REPLACEMENTS@, 55));
    assert(sorted_prefix(REPLACEMENTS@, 56));
    assert(sorted_prefix(REPLACEMENTS@, 57));
    assert(sorted_prefix(REPLACEMENTS@, 58));
    assert(sorted_prefix(REPLACEMENTS@, 59));
    assert(sorted_prefix(REPLACEMENTS@, 60));
    assert(sorted_prefix(REPLACEMENTS@, 61));
    assert(sorted_prefix(REPLACEMENTS@, 62));
    assert(sorted_prefix(REPLACEMENTS@, 63));
    assert(sorted_prefix(REPLACEMENTS@, 64));
}

proof fn lemma_replacements_sorted_4()
    requires
        sorted_prefix(REPLACEMENTS@, 64),
    ensures
        sorted_prefix(REPLACEMENTS@, 80),
{
    reveal_strlit("\\propto");
    reveal_strlit("\\bullet");
    reveal_strlit("\\dagger");
    reveal_strlit("\\mapsto");
    reveal_strlit("\\models");
    reveal_strlit("\\lfloor");
    reveal_strlit("\\rfloor");
    reveal_strlit("\\coprod");
    reveal_strlit("\\bigcup");
    reveal_strlit("\\bigcap");
    reveal_strlit("\\square");
    reveal_strlit("\\ominus");
    reveal_strlit("\\oslash");
    reveal_strlit("\\varrho");
    reveal_strlit("\\pounds");
    reveal_strlit("\\ddot{}");
    reveal_strlit("\\alpha");
    assert(sorted_prefix(REPLACEMENTS@, 65));
    assert(sorted_prefix(REPLACEMENTS@, 66));
    assert(sorted_prefix(REPLACEMENTS@, 67));
    assert(sorted_prefix(REPLACEMENTS@, 68));
    assert(sorted_prefix(REPLACEMENTS@, 69));
    assert(sorted_prefix(REPLACEMENTS@, 70));
    assert(sorted_prefix(REPLACEMENTS@, 71));
    assert(sorted_prefix(REPLACEMENTS@, 72));
    assert(sorted_prefix(REPLACEMENTS@, 73));
    assert(sorted_prefix(REPLACEMENTS@, 74));
    assert(sorted_prefix(REPLACEMENTS@, 75));
    assert(sorted_prefix(REPLACEMENTS@, 76));
    assert(sorted_prefix(REPLACEMENTS@, 77));
    assert(sorted_prefix(REPLACEMENTS@, 78));
    assert(sorted_prefix(REPLACEMENTS@, 79));
    assert(sorted_prefix(REPLACEMENTS@, 80));
}

proof fn lemma_replacements_sorted_5()
    requires
        sorted_prefix(REPLACEMENTS@, 80),
    ensures
        sorted_prefix(REPLACEMENTS@, 96),
{
    reveal_strlit("\\alpha");
    reveal_strlit("\\gamma");
    reveal_strlit("\\delta");
    reveal_strlit("\\theta");
    reveal_strlit("\\kappa");
    reveal_strlit("\\sigma");
    reveal_strlit("\\omega");
    reveal_strlit("\\Gamma");
    reveal_strlit("\\Delta");
    reveal_strlit("\\Theta");
    reveal_strlit("\\Sigma");
    reveal_strlit("\\Omega");
    reveal_strlit("\\times");
    reveal_strlit("\\equiv");
    reveal_strlit("\\infty");
    reveal_strlit("\\nabla");
    reveal_strlit("\\notin");
    assert(sorted_prefix(REPLACEMENTS@, 81));
    assert(sorted_prefix(REPLACEMENTS@, 82));
    assert(sorted_prefix(REPLACEMENTS@, 83));
    assert(sorted_prefix(REPLACEMENTS@, 84));
    assert(sorted_prefix(REPLACEMENTS@, 85));
    assert(sorted_prefix(REPLACEMENTS@, 86));
    assert(sorted_prefix(REPLACEMENTS@, 87));
    assert(sorted_prefix(REPLACEMENTS@, 88));
    assert(sorted_prefix(REPLACEMENTS@, 89));
    assert(sorted_prefix(REPLACEMENTS@, 90));
    assert(sorted_prefix(REPLACEMENTS@, 91));
    assert(sorted_prefix(REPLACEMENTS@, 92));
    assert(sorted_prefix(REPLACEMENTS@, 93));
    assert(sorted_prefix(REPLACEMENTS@, 94));
    assert(sorted_prefix(REPLACEMENTS@, 95));
    assert(sorted_prefix(REPLACEMENTS@, 96));
}

proof fn lemma_replacements_sorted_6()
    requires
        sorted_prefix(REPLACEMENTS@, 96),
    ensures
        sorted_prefix(REPLACEMENTS@, 112),
{
    reveal_strlit("\\notin");
    reveal_strlit("\\oplus");
    reveal_strlit("\\ldots");
    reveal_strlit("\\cdots");
    reveal_strlit("\\aleph");
    reveal_strlit("\\angle");
    reveal_strlit("\\simeq");
    reveal_strlit("\\wedge");
    reveal_strlit("\\vdash");
    reveal_strlit("\\dashv");
    reveal_strlit("\\lceil");
    reveal_strlit("\\rceil");
    reveal_strlit("\\iiint");
    reveal_strlit("\\prime");
    reveal_strlit("\\asymp");
    reveal_strlit("\\doteq");
    reveal_strlit("\\gimel");
    assert(sorted_prefix(REPLACEMENTS@, 97));
    assert(sorted_prefix(REPLACEMENTS@, 98));
    assert(sorted_prefix(REPLACEMENTS@, 99));
    assert(sorted_prefix(REPLACEMENTS@, 100));
    assert(sorted_prefix(REPLACEMENTS@, 101));
    assert(sorted_prefix(REPLACEMENTS@, 102));
    assert(sorted_prefix(REPLACEMENTS@, 103));
    assert(sorted_prefix(REPLACEMENTS@, 104));
    assert(sorted_prefix(REPLACEMENTS@, 105));
    assert(sorted_prefix(REPLACEMENTS@, 106));
    assert(sorted_prefix(REPLACEMENTS@, 107));
    assert(sorted_prefix(REPLACEMENTS@, 108));
    assert(sorted_prefix(REPLACEMENTS@, 109));
    assert(sorted_prefix(REPLACEMENTS@, 110));
    assert(sorted_prefix(REPLACEMENTS@, 111));
    assert(sorted_prefix(REPLACEMENTS@, 112));
}

proof fn lemma_replacements_sorted_7()
    requires
        sorted_prefix(REPLACEMENTS@, 112),
    ensures
        sorted_prefix(REPLACEMENTS@, 128),
{
    reveal_strlit("\\gimel");
    reveal_strlit("\\imath");
    reveal_strlit("\\jmath");
    reveal_strlit("\\vdots");
    reveal_strlit("\\ddots");
    reveal_strlit("\\varpi");
    reveal_strlit("\\dot{}");
    reveal_strlit("\\bar{}");
    reveal_strlit("\\beta");
    reveal_strlit("\\zeta");
    reveal_strlit("\\iota");
    reveal_strlit("\\cdot");
    reveal_strlit("\\prod");
    reveal_strlit("\\sqrt");
    reveal_strlit("\\land");
    reveal_strlit("\\hbar");
    reveal_strlit("\\perp");
    assert(sorted_prefix(REPLACEMENTS@, 113));
    assert(sorted_prefix(REPLACEMENTS@, 114));
    assert(sorted_prefix(REPLACEMENTS@, 115));
    assert(sorted_prefix(REPLACEMENTS@, 116));
    assert(sorted_prefix(REPLACEMENTS@, 117));
    assert(sorted_prefix(REPLACEMENTS@, 118));
    assert(sorted_prefix(REPLACEMENTS@, 119));
    assert(sorted_prefix(REPLACEMENTS@, 120));
    assert(sorted_prefix(REPLACEMENTS@, 121));
    assert(sorted_prefix(REPLACEMENTS@, 122));
    assert(sorted_prefix(REPLACEMENTS@, 123));
    assert(sorted_prefix(REPLACEMENTS@, 124));
    assert(sorted_prefix(REPLACEMENTS@, 125));
    assert(sorted_prefix(REPLACEMENTS@, 126));
    assert(sorted_prefix(REPLACEMENTS@, 127));
    assert(sorted_prefix(REPLACEMENTS@, 128));
}

proof fn lemma_replacements_sorted_8()
    requires
        sorted_prefix(REPLACEMENTS@, 128),
    ensures
        sorted_prefix(REPLACEMENTS@, 144),
{
    reveal_strlit("\\perp");
    reveal_strlit("\\cong");
    reveal_strlit("\\circ");
    reveal_strlit("\\star");
    reveal_strlit("\\nmid");
    reveal_strlit("\\oint");
    reveal_strlit("\\iint");
    reveal_strlit("\\odot");
    reveal_strlit("\\nleq");
    reveal_strlit("\\ngeq");
    reveal_strlit("\\prec");
    reveal_strlit("\\succ");
    reveal_strlit("\\beth");
    reveal_strlit("\\lnot");
    reveal_strlit("\\dots");
    reveal_strlit("\\eta");
    reveal_strlit("\\rho");
    assert(sorted_prefix(REPLACEMENTS@, 129));
    assert(sorted_prefix(REPLACEMENTS@, 130));
    assert(sorted_prefix(REPLACEMENTS@, 131));
    assert(sorted_prefix(REPLACEMENTS@, 132));
    assert(sorted_prefix(REPLACEMENTS@, 133));
    assert(sorted_prefix(REPLACEMENTS@, 134));
    assert(sorted_prefix(REPLACEMENTS@, 135));
    assert(sorted_prefix(REPLACEMENTS@, 136));
    assert(sorted_prefix(REPLACEMENTS@, 137));
    assert(sorted_prefix(REPLACEMENTS@, 138));
    assert(sorted_prefix(REPLACEMENTS@, 139));
    assert(sorted_prefix(REPLACEMENTS@, 140));
    assert(sorted_prefix(REPLACEMENTS@, 141));
    assert(sorted_prefix(REPLACEMENTS@, 142));
    assert(sorted_prefix(REPLACEMENTS@, 143));
    assert(sorted_prefix(REPLACEMENTS@, 144));
}

proof fn lemma_replacements_sorted_9()
    requires
        sorted_prefix(REPLACEMENTS@, 144),
    ensures
        sorted_prefix(REPLACEMENTS@, 160),
{
    reveal_strlit("\\rho");
    reveal_strlit("\\tau");
    reveal_strlit("\\phi");
    reveal_strlit("\\chi");
    reveal_strlit("\\psi");
    reveal_strlit("\\Phi");
    reveal_strlit("\\Psi");
    reveal_strlit("\\div");
    reveal_strlit("\\leq");
    reveal_strlit("\\geq");
    reveal_strlit("\\neq");
    reveal_strlit("\\sim");
    reveal_strlit("\\cup");
    reveal_strlit("\\cap");
    reveal_strlit("\\sum");
    reveal_strlit("\\int");
    reveal_strlit("\\lor");
    assert(sorted_prefix(REPLACEMENTS@, 145));
    assert(sorted_prefix(REPLACEMENTS@, 146));
    assert(sorted_prefix(REPLACEMENTS@, 147));
    assert(sorted_prefix(REPLACEMENTS@, 148));
    assert(sorted_prefix(REPLACEMENTS@, 149));
    assert(sorted_prefix(REPLACEMENTS@, 150));
    assert(sorted_prefix(REPLACEMENTS@, 151));
    assert(sorted_prefix(REPLACEMENTS@, 152));
    assert(sorted_prefix(REPLACEMENTS@, 153));
    assert(sorted_prefix(REPLACEMENTS@, 154));
    assert(sorted_prefix(REPLACEMENTS@, 155));
    assert(sorted_prefix(REPLACEMENTS@, 156));
    assert(sorted_prefix(REPLACEMENTS@, 157));
    assert(sorted_prefix(REPLACEMENTS@, 158));
    assert(sorted_prefix(REPLACEMENTS@, 159));
    assert(sorted_prefix(REPLACEMENTS@, 160));
}

proof fn lemma_replacements_sorted_10()
    requires
        sorted_prefix(REPLACEMENTS@, 160),
    ensures
        sorted_prefix(REPLACEMENTS@, 176),
{
    reveal_strlit("\\lor");
    reveal_strlit("\\neg");
    reveal_strlit("\\ell");
    reveal_strlit("\\ast");
    reveal_strlit("\\vee");
    reveal_strlit("\\iff");
    reveal_strlit("\\top");
    reveal_strlit("\\bot");
    reveal_strlit("\\mho");
    reveal_strlit("\\mu");
    reveal_strlit("\\nu");
    reveal_strlit("\\xi");
    reveal_strlit("\\pi");
    reveal_strlit("\\Xi");
    reveal_strlit("\\Pi");
    reveal_strlit("\\pm");
    reveal_strlit("\\mp");
    assert(sorted_prefix(REPLACEMENTS@, 161));
    assert(sorted_prefix(REPLACEMENTS@, 162));
    assert(sorted_prefix(REPLACEMENTS@, 163));
    assert(sorted_prefix(REPLACEMENTS@, 164));
    assert(sorted_prefix(REPLACEMENTS@, 165));
    assert(sorted_prefix(REPLACEMENTS@, 166));
    assert(sorted_prefix(REPLACEMENTS@, 167));
    assert(sorted_prefix(REPLACEMENTS@, 168));
    assert(sorted_prefix(REPLACEMENTS@, 169));
    assert(sorted_prefix(REPLACEMENTS@, 170));
    assert(sorted_prefix(REPLACEMENTS@, 171));
    assert(sorted_prefix(REPLACEMENTS@, 172));
    assert(sorted_prefix(REPLACEMENTS@, 173));
    assert(sorted_prefix(REPLACEMENTS@, 174));
    assert(sorted_prefix(REPLACEMENTS@, 175));
    assert(sorted_prefix(REPLACEMENTS@, 176));
}

proof fn lemma_replacements_sorted_11()
    requires
        sorted_prefix(REPLACEMENTS@, 176),
    ensures
        sorted_prefix(REPLACEMENTS@, 186),
{
    reveal_strlit("\\mp");
    reveal_strlit("\\in");
    reveal_strlit("\\to");
    reveal_strlit("\\ll");
    reveal_strlit("\\gg");
    reveal_strlit("\\wp");
    reveal_strlit("\\Re");
    reveal_strlit("\\Im");
    reveal_strlit("\\{");
    reveal_strlit("\\}");
    reveal_strlit("-");
    assert(sorted_prefix(REPLACEMENTS@, 177));
    assert(sorted_prefix(REPLACEMENTS@, 178));
    assert(sorted_prefix(REPLACEMENTS@, 179));
    assert(sorted_prefix(REPLACEMENTS@, 180));
    assert(sorted_prefix(REPLACEMENTS@, 181));
    assert(sorted_prefix(REPLACEMENTS@, 182));
    assert(sorted_prefix(REPLACEMENTS@, 183));
    assert(sorted_prefix(REPLACEMENTS@, 184));
    assert(sorted_prefix(REPLACEMENTS@, 185));
    assert(sorted_prefix(REPLACEMENTS@, 186));
}

/// The patterns of [`REPLACEMENTS`] come in order of non-increasing character length.
pub proof fn law_replacements_ordered()
    ensures
        ordered(REPLACEMENTS@),
{
    lemma_replacements_sorted_0();
    lemma_replacements_sorted_1();
    lemma_replacements_sorted_2();
    lemma_replacements_sorted_3();
    lemma_replacements_sorted_4();
    lemma_replacements_sorted_5();
    lemma_replacements_sorted_6();
    lemma_replacements_sorted_7();
    lemma_replacements_sorted_8();
    lemma_replacements_sorted_9();
    lemma_replacements_sorted_10();
    lemma_replacements_sorted_11();
    assert forall|i: int| 0 < i < REPLACEMENTS@.len() implies (#[trigger] REPLACEMENTS@[i]).0@.len() <= REPLACEMENTS@[i - 1].0@.len() by {
        lemma_sorted_prefix(REPLACEMENTS@, 186, i);
    }
}

proof fn lemma_bracket_suffix_sorted_0()
    ensures
        sorted_prefix(REPLACEMENTS_WITH_BRACKET_SUFFIX@, 6),
{
    reveal_strlit("\\breve{}");
    reveal_strlit("\\acute{}");
    reveal_strlit("\\check{}");
    reveal_strlit("\\ddot{}");
    reveal_strlit("\\dot{}");
    reveal_strlit("\\bar{}");
    assert(sorted_prefix(REPLACEMENTS_WITH_BRACKET_SUFFIX@, 1));
    assert(sorted_prefix(REPLACEMENTS_WITH_BRACKET_SUFFIX@, 2));
    assert(sorted_prefix(REPLACEMENTS_WITH_BRACKET_SUFFIX@, 3));
    assert(sorted_prefix(REPLACEMENTS_WITH_BRACKET_SUFFIX@, 4));
    assert(sorted_prefix(REPLACEMENTS_WITH_BRACKET_SUFFIX@, 5));
    assert(sorted_prefix(REPLACEMENTS_WITH_BRACKET_SUFFIX@, 6));
}

/// The patterns of [`REPLACEMENTS_WITH_BRACKET_SUFFIX`] come in order of non-increasing character length.
pub proof fn law_bracket_suffix_ordered()
    ensures
        ordered(REPLACEMENTS_WITH_BRACKET_SUFFIX@),
{
    lemma_bracket_suffix_sorted_0();
    assert forall|i: int| 0 < i < REPLACEMENTS_WITH_BRACKET_SUFFIX@.len() implies (#[trigger] REPLACEMENTS_WITH_BRACKET_SUFFIX@[i]).0@.len() <= REPLACEMENTS_WITH_BRACKET_SUFFIX@[i - 1].0@.len() by {
        lemma_sorted_prefix(REPLACEMENTS_WITH_BRACKET_SUFFIX@, 6, i);
    }
}

proof fn lemma_scripts_sorted_0()
    ensures
        sorted_prefix(SUB_SUPER_SCRIPTS@, 16),
{
    reveal_strlit("_0");
    reveal_strlit("_1");
    reveal_strlit("_2");
    reveal_strlit("_3");
    reveal_strlit("_4");
    reveal_strlit("_5");
    reveal_strlit("_6");
    reveal_strlit("_7");
    reveal_strlit("_8");
    reveal_strlit("_9");
    reveal_strlit("_+");
    reveal_strlit("_-");
    reveal_strlit("_\u{2212}");
    reveal_strlit("_=");
    reveal_strlit("_(");
    reveal_strlit("_)");
    assert(sorted_prefix(SUB_SUPER_SCRIPTS@, 1));
    assert(sorted_prefix(SUB_SUPER_SCRIPTS@, 2));
    assert(sorted_prefix(SUB_SUPER_SCRIPTS@, 3));
    assert(sorted_prefix(SUB_SUPER_SCRIPTS@, 4));
    assert(sorted_prefix(SUB_SUPER_SCRIPTS@, 5));
    assert(sorted_prefix(SUB_SUPER_SCRIPTS@, 6));
    assert(sorted_prefix(SUB_SUPER_SCRIPTS@, 7));
    assert(sorted_prefix(SUB_SUPER_SCRIPTS@, 8));
    assert(sorted_prefix(SUB_SUPER_SCRIPTS@, 9));
    assert(sorted_prefix(SUB_SUPER_SCRIPTS@, 10));
    assert(sorted_prefix(SUB_SUPER_SCRIPTS@, 11));
    assert(sorted_prefix(SUB_SUPER_SCRIPTS@, 12));
    assert(sorted_prefix(SUB_SUPER_SCRIPTS@, 13));
    assert(sorted_prefix(SUB_SUPER_SCRIPTS@, 14));
    assert(sorted_prefix(SUB_SUPER_SCRIPTS@, 15));
    assert(sorted_prefix(SUB_SUPER_SCRIPTS@, 16));
}

proof fn lemma_scripts_sorted_1()
    requires
        sorted_prefix(SUB_SUPER_SCRIPTS@, 16),
    ensures
        sorted_prefix(SUB_SUPER_SCRIPTS@, 32),
{
    reveal_strlit("_)");
    reveal_strlit("_a");
    reveal_strlit("_e");
    reveal_strlit("_o");
    reveal_strlit("_x");
    reveal_strlit("_h");
    reveal_strlit("_k");
    reveal_strlit("_l");
    reveal_strlit("_m");
    reveal_strlit("_n");
    reveal_strlit("_p");
    reveal_strlit("_s");
    reveal_strlit("_t");
    reveal_strlit("_i");
    reveal_strlit("_r");
    reveal_strlit("_u");
    reveal_strlit("_v");
    assert(sorted_prefix(SUB_SUPER_SCRIPTS@, 17));
    assert(sorted_prefix(SUB_SUPER_SCRIPTS@, 18));
    assert(sorted_prefix(SUB_SUPER_SCRIPTS@, 19));
    assert(sorted_prefix(SUB_SUPER_SCRIPTS@, 20));
    assert(sorted_prefix(SUB_SUPER_SCRIPTS@, 21));
    assert(sorted_prefix(SUB_SUPER_SCRIPTS@, 22));
    assert(sorted_prefix(SUB_SUPER_SCRIPTS@, 23));
    assert(sorted_prefix(SUB_SUPER_SCRIPTS@, 24));
    assert(sorted_prefix(SUB_SUPER_SCRIPTS@, 25));
    assert(sorted_prefix(SUB_SUPER_SCRIPTS@, 26));
    assert(sorted_prefix(SUB_SUPER_SCRIPTS@, 27));
    assert(sorted_prefix(SUB_SUPER_SCRIPTS@, 28));
    assert(sorted_prefix(SUB_SUPER_SCRIPTS@, 29));
    assert(sorted_prefix(SUB_SUPER_SCRIPTS@, 30));
    assert(sorted_prefix(SUB_SUPER_SCRIPTS@, 31));
    assert(sorted_prefix(SUB_SUPER_SCRIPTS@, 32));
}

proof fn lemma_scripts_sorted_2()
    requires
        sorted_prefix(SUB_SUPER_SCRIPTS@, 32),
    ensures
        sorted_prefix(SUB_SUPER_SCRIPTS@, 48),
{
    reveal_strlit("_v");
    reveal_strlit("_j");
    reveal_strlit("_\u{3b2}");
    reveal_strlit("_\u{3b3}");
    reveal_strlit("_\u{3c1}");
    reveal_strlit("_\u{3c6}");
    reveal_strlit("_\u{3c7}");
    reveal_strlit("^0");
    reveal_strlit("^1");
    reveal_strlit("^2");
    reveal_strlit("^3");
    reveal_strlit("^4");
    reveal_strlit("^5");
    reveal_strlit("^6");
    reveal_strlit("^7");
    reveal_strlit("^8");
    reveal_strlit("^9");
    assert(sorted_prefix(SUB_SUPER_SCRIPTS@, 33));
    assert(sorted_prefix(SUB_SUPER_SCRIPTS@, 34));
    assert(sorted_prefix(SUB_SUPER_SCRIPTS@, 35));
    assert(sorted_prefix(SUB_SUPER_SCRIPTS@, 36));
    assert(sorted_prefix(SUB_SUPER_SCRIPTS@, 37));
    assert(sorted_prefix(SUB_SUPER_SCRIPTS@, 38));
    assert(sorted_prefix(SUB_SUPER_SCRIPTS@, 39));
    assert(sorted_prefix(SUB_SUPER_SCRIPTS@, 40));
    assert(sorted_prefix(SUB_SUPER_SCRIPTS@, 41));
    assert(sorted_prefix(SUB_SUPER_SCRIPTS@, 42));
    assert(sorted_prefix(SUB_SUPER_SCRIPTS@, 43));
    assert(sorted_prefix(SUB_SUPER_SCRIPTS@, 44));
    assert(sorted_prefix(SUB_SUPER_SCRIPTS@, 45));
    assert(sorted_prefix(SUB_SUPER_SCRIPTS@, 46));
    assert(sorted_prefix(SUB_SUPER_SCRIPTS@, 47));
    assert(sorted_prefix(SUB_SUPER_SCRIPTS@, 48));
}

proof fn lemma_scripts_sorted_3()
    requires
        sorted_prefix(SUB_SUPER_SCRIPTS@, 48),
    ensures
        sorted_prefix(SUB_SUPER_SCRIPTS@, 64),
{
    reveal_strlit("^9");
    reveal_strlit("^+");
    reveal_strlit("^-");
    reveal_strlit("^\u{2212}");
    reveal_strlit("^=");
    reveal_strlit("^(");
    reveal_strlit("^)");
    reveal_strlit("^n");
    reveal_strlit("^i");
    reveal_strlit("^a");
    reveal_strlit("^b");
    reveal_strlit("^c");
    reveal_strlit("^d");
    reveal_strlit("^e");
    reveal_strlit("^f");
    reveal_strlit("^g");
    reveal_strlit("^h");
    assert(sorted_prefix(SUB_SUPER_SCRIPTS@, 49));
    assert(sorted_prefix(SUB_SUPER_SCRIPTS@, 50));
    assert(sorted_prefix(SUB_SUPER_SCRIPTS@, 51));
    assert(sorted_prefix(SUB_SUPER_SCRIPTS@, 52));
    assert(sorted_prefix(SUB_SUPER_SCRIPTS@, 53));
    assert(sorted_prefix(SUB_SUPER_SCRIPTS@, 54));
    assert(sorted_prefix(SUB_SUPER_SCRIPTS@, 55));
    assert(sorted_prefix(SUB_SUPER_SCRIPTS@, 56));
    assert(sorted_prefix(SUB_SUPER_SCRIPTS@, 57));
    assert(sorted_prefix(SUB_SUPER_SCRIPTS@, 58));
    assert(sorted_prefix(SUB_SUPER_SCRIPTS@, 59));
    assert(sorted_prefix(SUB_SUPER_SCRIPTS@, 60));
    assert(sorted_prefix(SUB_SUPER_SCRIPTS@, 61));
    assert(sorted_prefix(SUB_SUPER_SCRIPTS@, 62));
    assert(sorted_prefix(SUB_SUPER_SCRIPTS@, 63));
    assert(sorted_prefix(SUB_SUPER_SCRIPTS@, 64));
}

proof fn lemma_scripts_sorted_4()
    requires
        sorted_prefix(SUB_SUPER_SCRIPTS@, 64),
    ensures
        sorted_prefix(SUB_SUPER_SCRIPTS@, 80),
{
    reveal_strlit("^h");
    reveal_strlit("^j");
    reveal_strlit("^k");
    reveal_strlit("^l");
    reveal_strlit("^m");
    reveal_strlit("^o");
    reveal_strlit("^p");
    reveal_strlit("^r");
    reveal_strlit("^s");
    reveal_strlit("^t");
    reveal_strlit("^u");
    reveal_strlit("^v");
    reveal_strlit("^w");
    reveal_strlit("^x");
    reveal_strlit("^y");
    reveal_strlit("^z");
    reveal_strlit("^A");
    assert(sorted_prefix(SUB_SUPER_SCRIPTS@, 65));
    assert(sorted_prefix(SUB_SUPER_SCRIPTS@, 66));
    assert(sorted_prefix(SUB_SUPER_SCRIPTS@, 67));
    assert(sorted_prefix(SUB_SUPER_SCRIPTS@, 68));
    assert(sorted_prefix(SUB_SUPER_SCRIPTS@, 69));
    assert(sorted_prefix(SUB_SUPER_SCRIPTS@, 70));
    assert(sorted_prefix(SUB_SUPER_SCRIPTS@, 71));
    assert(sorted_prefix(SUB_SUPER_SCRIPTS@, 72));
    assert(sorted_prefix(SUB_SUPER_SCRIPTS@, 73));
    assert(sorted_prefix(SUB_SUPER_SCRIPTS@, 74));
    assert(sorted_prefix(SUB_SUPER_SCRIPTS@, 75));
    assert(sorted_prefix(SUB_SUPER_SCRIPTS@, 76));
    assert(sorted_prefix(SUB_SUPER_SCRIPTS@, 77));
    assert(sorted_prefix(SUB_SUPER_SCRIPTS@, 78));
    assert(sorted_prefix(SUB_SUPER_SCRIPTS@, 79));
    assert(sorted_prefix(SUB_SUPER_SCRIPTS@, 80));
}

proof fn lemma_scripts_sorted_5()
    requires
        sorted_prefix(SUB_SUPER_SCRIPTS@, 80),
    ensures
        sorted_prefix(SUB_SUPER_SCRIPTS@, 96),
{
    reveal_strlit("^A");
    reveal_strlit("^B");
    reveal_strlit("^D");
    reveal_strlit("^E");
    reveal_strlit("^G");
    reveal_strlit("^H");
    reveal_strlit("^I");
    reveal_strlit("^J");
    reveal_strlit("^K");
    reveal_strlit("^L");
    reveal_strlit("^M");
    reveal_strlit("^N");
    reveal_strlit("^O");
    reveal_strlit("^P");
    reveal_strlit("^R");
    reveal_strlit("^T");
    reveal_strlit("^U");
    assert(sorted_prefix(SUB_SUPER_SCRIPTS@, 81));
    assert(sorted_prefix(SUB_SUPER_SCRIPTS@, 82));
    assert(sorted_prefix(SUB_SUPER_SCRIPTS@, 83));
    assert(sorted_prefix(SUB_SUPER_SCRIPTS@, 84));
    assert(sorted_prefix(SUB_SUPER_SCRIPTS@, 85));
    assert(sorted_prefix(SUB_SUPER_SCRIPTS@, 86));
    assert(sorted_prefix(SUB_SUPER_SCRIPTS@, 87));
    assert(sorted_prefix(SUB_SUPER_SCRIPTS@, 88));
    assert(sorted_prefix(SUB_SUPER_SCRIPTS@, 89));
    assert(sorted_prefix(SUB_SUPER_SCRIPTS@, 90));
    assert(sorted_prefix(SUB_SUPER_SCRIPTS@, 91));
    assert(sorted_prefix(SUB_SUPER_SCRIPTS@, 92));
    assert(sorted_prefix(SUB_SUPER_SCRIPTS@, 93));
    assert(sorted_prefix(SUB_SUPER_SCRIPTS@, 94));
    assert(sorted_prefix(SUB_SUPER_SCRIPTS@, 95));
    assert(sorted_prefix(SUB_SUPER_SCRIPTS@, 96));
}

proof fn lemma_scripts_sorted_6()
    requires
        sorted_prefix(SUB_SUPER_SCRIPTS@, 96),
    ensures
        sorted_prefix(SUB_SUPER_SCRIPTS@, 103),
{
    reveal_strlit("^U");
    reveal_strlit("^W");
    reveal_strlit("^\u{3b2}");
    reveal_strlit("^\u{3b3}");
    reveal_strlit("^\u{3b4}");
    reveal_strlit("^\u{3c6}");
    reveal_strlit("^\u{3c7}");
    reveal_strlit("^\u{222b}");
    assert(sorted_prefix(SUB_SUPER_SCRIPTS@, 97));
    assert(sorted_prefix(SUB_SUPER_SCRIPTS@, 98));
    assert(sorted_prefix(SUB_SUPER_SCRIPTS@, 99));
    assert(sorted_prefix(SUB_SUPER_SCRIPTS@, 100));
    assert(sorted_prefix(SUB_SUPER_SCRIPTS@, 101));
    assert(sorted_prefix(SUB_SUPER_SCRIPTS@, 102));
    assert(sorted_prefix(SUB_SUPER_SCRIPTS@, 103));
}

/// The patterns of [`SUB_SUPER_SCRIPTS`] come in order of non-increasing character length.
pub proof fn law_scripts_ordered()
    ensures
        ordered(SUB_SUPER_SCRIPTS@),
{
    lemma_scripts_sorted_0();
    lemma_scripts_sorted_1();
    lemma_scripts_sorted_2();
    lemma_scripts_sorted_3();
    lemma_scripts_sorted_4();
    lemma_scripts_sorted_5();
    lemma_scripts_sorted_6();
    assert forall|i: int| 0 < i < SUB_SUPER_SCRIPTS@.len() implies (#[trigger] SUB_SUPER_SCRIPTS@[i]).0@.len() <= SUB_SUPER_SCRIPTS@[i - 1].0@.len() by {
        lemma_sorted_prefix(SUB_SUPER_SCRIPTS@, 103, i);
    }
}

proof fn lemma_marks_sorted_0()
    ensures
        sorted_prefix(COMBINING_MARKS@, 14),
{
    reveal_strlit("\\underline");
    reveal_strlit("\\overline");
    reveal_strlit("\\underbar");
    reveal_strlit("\\grave");
    reveal_strlit("\\acute");
    reveal_strlit("\\tilde");
    reveal_strlit("\\breve");
    reveal_strlit("\\check");
    reveal_strlit("\\slash");
    reveal_strlit("\\ddot");
    reveal_strlit("\\hat");
    reveal_strlit("\\bar");
    reveal_strlit("\\dot");
    reveal_strlit("\\vec");
    assert(sorted_prefix(COMBINING_MARKS@, 1));
    assert(sorted_prefix(COMBINING_MARKS@, 2));
    assert(sorted_prefix(COMBINING_MARKS@, 3));
    assert(sorted_prefix(COMBINING_MARKS@, 4));
    assert(sorted_prefix(COMBINING_MARKS@, 5));
    assert(sorted_prefix(COMBINING_MARKS@, 6));
    assert(sorted_prefix(COMBINING_MARKS@, 7));
    assert(sorted_prefix(COMBINING_MARKS@, 8));
    assert(sorted_prefix(COMBINING_MARKS@, 9));
    assert(sorted_prefix(COMBINING_MARKS@, 10));
    assert(sorted_prefix(COMBINING_MARKS@, 11));
    assert(sorted_prefix(COMBINING_MARKS@, 12));
    assert(sorted_prefix(COMBINING_MARKS@, 13));
    assert(sorted_prefix(COMBINING_MARKS@, 14));
}

/// The patterns of [`COMBINING_MARKS`] come in order of non-increasing character length.
pub proof fn law_marks_ordered()
    ensures
        ordered(COMBINING_MARKS@),
{
    lemma_marks_sorted_0();
    assert forall|i: int| 0 < i < COMBINING_MARKS@.len() implies (#[trigger] COMBINING_MARKS@[i]).0@.len() <= COMBINING_MARKS@[i - 1].0@.len() by {
        lemma_sorted_prefix(COMBINING_MARKS@, 14, i);
    }
}

/// No pattern of [`REPLACEMENTS`] is empty.
pub proof fn law_replacements_filled()
    ensures
        forall|i: int| 0 <= i < REPLACEMENTS@.len() ==> (#[trigger] REPLACEMENTS@[i]).0@.len() >= 1,
{
    lemma_replacements_sorted_0();
    lemma_replacements_sorted_1();
    lemma_replacements_sorted_2();
    lemma_replacements_sorted_3();
    lemma_replacements_sorted_4();
    lemma_replacements_sorted_5();
    lemma_replacements_sorted_6();
    lemma_replacements_sorted_7();
    lemma_replacements_sorted_8();
    lemma_replacements_sorted_9();
    lemma_replacements_sorted_10();
    lemma_replacements_sorted_11();
    reveal_strlit("-");
    assert forall|i: int| 0 <= i < REPLACEMENTS@.len() implies (#[trigger] REPLACEMENTS@[i]).0@.len() >= 1 by {
        lemma_sorted_filled(REPLACEMENTS@, 186, i);
    }
}

/// No pattern of [`SUB_SUPER_SCRIPTS`] is empty.
pub proof fn law_scripts_filled()
    ensures
        forall|i: int| 0 <= i < SUB_SUPER_SCRIPTS@.len() ==> (#[trigger] SUB_SUPER_SCRIPTS@[i]).0@.len() >= 1,
{
    lemma_scripts_sorted_0();
    lemma_scripts_sorted_1();
    lemma_scripts_sorted_2();
    lemma_scripts_sorted_3();
    lemma_scripts_sorted_4();
    lemma_scripts_sorted_5();
    lemma_scripts_sorted_6();
    reveal_strlit("^\u{222b}");
    assert forall|i: int| 0 <= i < SUB_SUPER_SCRIPTS@.len() implies (#[trigger] SUB_SUPER_SCRIPTS@[i]).0@.len() >= 1 by {
        lemma_sorted_filled(SUB_SUPER_SCRIPTS@, 103, i);
    }
}

proof fn lemma_bracket_suffix_commands_0()
    ensures
        commands_prefix(REPLACEMENTS_WITH_BRACKET_SUFFIX@, 6),
{
    reveal_strlit("\\breve{}");
    reveal_strlit("\\acute{}");
    reveal_strlit("\\check{}");
    reveal_strlit("\\ddot{}");
    reveal_strlit("\\dot{}");
    reveal_strlit("\\bar{}");
    assert(commands_prefix(REPLACEMENTS_WITH_BRACKET_SUFFIX@, 0));
    assert(commands_prefix(REPLACEMENTS_WITH_BRACKET_SUFFIX@, 1));
    assert(commands_prefix(REPLACEMENTS_WITH_BRACKET_SUFFIX@, 2));
    assert(commands_prefix(REPLACEMENTS_WITH_BRACKET_SUFFIX@, 3));
    assert(commands_prefix(REPLACEMENTS_WITH_BRACKET_SUFFIX@, 4));
    assert(commands_prefix(REPLACEMENTS_WITH_BRACKET_SUFFIX@, 5));
    assert(commands_prefix(REPLACEMENTS_WITH_BRACKET_SUFFIX@, 6));
}

/// Every pattern of [`REPLACEMENTS_WITH_BRACKET_SUFFIX`] starts with a backslash.
pub proof fn law_bracket_suffix_commands()
    ensures
        forall|i: int| 0 <= i < REPLACEMENTS_WITH_BRACKET_SUFFIX@.len() ==> (#[trigger] REPLACEMENTS_WITH_BRACKET_SUFFIX@[i]).0@.len() >= 1 && REPLACEMENTS_WITH_BRACKET_SUFFIX@[i].0@[0] == '\\',
{
    lemma_bracket_suffix_commands_0();
    assert forall|i: int| 0 <= i < REPLACEMENTS_WITH_BRACKET_SUFFIX@.len() implies (#[trigger] REPLACEMENTS_WITH_BRACKET_SUFFIX@[i]).0@.len() >= 1 && REPLACEMENTS_WITH_BRACKET_SUFFIX@[i].0@[0] == '\\' by {
        lemma_commands_prefix(REPLACEMENTS_WITH_BRACKET_SUFFIX@, 6, i);
    }
}

proof fn lemma_marks_commands_0()
    ensures
        commands_prefix(COMBINING_MARKS@, 14),
{
    reveal_strlit("\\underline");
    reveal_strlit("\\overline");
    reveal_strlit("\\underbar");
    reveal_strlit("\\grave");
    reveal_strlit("\\acute");
    reveal_strlit("\\tilde");
    reveal_strlit("\\breve");
    reveal_strlit("\\check");
    reveal_strlit("\\slash");
    reveal_strlit("\\ddot");
    reveal_strlit("\\hat");
    reveal_strlit("\\bar");
    reveal_strlit("\\dot");
    reveal_strlit("\\vec");
    assert(commands_prefix(COMBINING_MARKS@, 0));
    assert(commands_prefix(COMBINING_MARKS@, 1));
    assert(commands_prefix(COMBINING_MARKS@, 2));
    assert(commands_prefix(COMBINING_MARKS@, 3));
    assert(commands_prefix(COMBINING_MARKS@, 4));
    assert(commands_prefix(COMBINING_MARKS@, 5));
    assert(commands_prefix(COMBINING_MARKS@, 6));
    assert(commands_prefix(COMBINING_MARKS@, 7));
    assert(commands_prefix(COMBINING_MARKS@, 8));
    assert(commands_prefix(COMBINING_MARKS@, 9));
    assert(commands_prefix(COMBINING_MARKS@, 10));
    assert(commands_prefix(COMBINING_MARKS@, 11));
    assert(commands_prefix(COMBINING_MARKS@, 12));
    assert(commands_prefix(COMBINING_MARKS@, 13));
    assert(commands_prefix(COMBINING_MARKS@, 14));
}

/// Every pattern of [`COMBINING_MARKS`] starts with a backslash.
pub proof fn law_marks_commands()
    ensures
        forall|i: int| 0 <= i < COMBINING_MARKS@.len() ==> (#[trigger] COMBINING_MARKS@[i]).0@.len() >= 1 && COMBINING_MARKS@[i].0@[0] == '\\',
{
    lemma_marks_commands_0();
    assert forall|i: int| 0 <= i < COMBINING_MARKS@.len() implies (#[trigger] COMBINING_MARKS@[i]).0@.len() >= 1 && COMBINING_MARKS@[i].0@[0] == '\\' by {
        lemma_commands_prefix(COMBINING_MARKS@, 14, i);
    }
}

proof fn lemma_marks_marks_0()
    ensures
        marks_prefix(COMBINING_MARKS@, 14),
{
    reveal_strlit("\u{332}");
    reveal_strlit("\u{305}");
    reveal_strlit("\u{331}");
    reveal_strlit("\u{300}");
    reveal_strlit("\u{301}");
    reveal_strlit("\u{303}");
    reveal_strlit("\u{306}");
    reveal_strlit("\u{30c}");
    reveal_strlit("\u{338}");
    reveal_strlit("\u{308}");
    reveal_strlit("\u{302}");
    reveal_strlit("\u{304}");
    reveal_strlit("\u{307}");
    reveal_strlit("\u{20d7}");
    assert(marks_prefix(COMBINING_MARKS@, 0));
    assert(marks_prefix(COMBINING_MARKS@, 1));
    assert(marks_prefix(COMBINING_MARKS@, 2));
    assert(marks_prefix(COMBINING_MARKS@, 3));
    assert(marks_prefix(COMBINING_MARKS@, 4));
    assert(marks_prefix(COMBINING_MARKS@, 5));
    assert(marks_prefix(COMBINING_MARKS@, 6));
    assert(marks_prefix(COMBINING_MARKS@, 7));
    assert(marks_prefix(COMBINING_MARKS@, 8));
    assert(marks_prefix(COMBINING_MARKS@, 9));
    assert(marks_prefix(COMBINING_MARKS@, 10));
    assert(marks_prefix(COMBINING_MARKS@, 11));
    assert(marks_prefix(COMBINING_MARKS@, 12));
    assert(marks_prefix(COMBINING_MARKS@, 13));
    assert(marks_prefix(COMBINING_MARKS@, 14));
}

proof fn lemma_replacements_plain_0()
    ensures
        plain_prefix(REPLACEMENTS@, 16),
{
    reveal_strlit("\u{21cc}");
    reveal_strlit("\u{2194}");
    reveal_strlit("\u{27f6}");
    reveal_strlit("\u{21d4}");
    reveal_strlit("\u{21aa}");
    reveal_strlit("\u{27f5}");
    reveal_strlit("\u{21a9}");
    reveal_strlit("\u{2192}");
    reveal_strlit("\u{21d2}");
    reveal_strlit("\u{2205}");
    reveal_strlit("\u{2291}");
    reveal_strlit("\u{2292}");
    reveal_strlit("\u{2190}");
    reveal_strlit("\u{21d0}");
    reveal_strlit("\u{2193}");
    reveal_strlit("\u{21d3}");
    assert(plain_prefix(REPLACEMENTS@, 0));
    assert(plain_prefix(REPLACEMENTS@, 1));
    assert(plain_prefix(REPLACEMENTS@, 2));
    assert(plain_prefix(REPLACEMENTS@, 3));
    assert(plain_prefix(REPLACEMENTS@, 4));
    assert(plain_prefix(REPLACEMENTS@, 5));
    assert(plain_prefix(REPLACEMENTS@, 6));
    assert(plain_prefix(REPLACEMENTS@, 7));
    assert(plain_prefix(REPLACEMENTS@, 8));
    assert(plain_prefix(REPLACEMENTS@, 9));
    assert(plain_prefix(REPLACEMENTS@, 10));
    assert(plain_prefix(REPLACEMENTS@, 11));
    assert(plain_prefix(REPLACEMENTS@, 12));
    assert(plain_prefix(REPLACEMENTS@, 13));
    assert(plain_prefix(REPLACEMENTS@, 14));
    assert(plain_prefix(REPLACEMENTS@, 15));
    assert(plain_prefix(REPLACEMENTS@, 16));
}

proof fn lemma_replacements_plain_1()
    requires
        plain_prefix(REPLACEMENTS@, 16),
    ensures
        plain_prefix(REPLACEMENTS@, 32),
{
    reveal_strlit("\u{2a02}");
    reveal_strlit("\u{2234}");
    reveal_strlit("\u{211d}");
    reveal_strlit("\u{2115}");
    reveal_strlit("\u{2124}");
    reveal_strlit("\u{211a}");
    reveal_strlit("\u{2102}");
    reveal_strlit("\u{2288}");
    reveal_strlit("\u{2289}");
    reveal_strlit("\u{a9}");
    reveal_strlit("\u{2286}");
    reveal_strlit("\u{2287}");
    reveal_strlit("\u{2205}");
    reveal_strlit("\u{2225}");
    reveal_strlit("\u{2216}");
    reveal_strlit("\u{2a01}");
    assert(plain_prefix(REPLACEMENTS@, 17));
    assert(plain_prefix(REPLACEMENTS@, 18));
    assert(plain_prefix(REPLACEMENTS@, 19));
    assert(plain_prefix(REPLACEMENTS@, 20));
    assert(plain_prefix(REPLACEMENTS@, 21));
    assert(plain_prefix(REPLACEMENTS@, 22));
    assert(plain_prefix(REPLACEMENTS@, 23));
    assert(plain_prefix(REPLACEMENTS@, 24));
    assert(plain_prefix(REPLACEMENTS@, 25));
    assert(plain_prefix(REPLACEMENTS@, 26));
    assert(plain_prefix(REPLACEMENTS@, 27));
    assert(plain_prefix(REPLACEMENTS@, 28));
    assert(plain_prefix(REPLACEMENTS@, 29));
    assert(plain_prefix(REPLACEMENTS@, 30));
    assert(plain_prefix(REPLACEMENTS@, 31));
    assert(plain_prefix(REPLACEMENTS@, 32));
}

proof fn lemma_replacements_plain_2()
    requires
        plain_prefix(REPLACEMENTS@, 32),
    ensures
        plain_prefix(REPLACEMENTS@, 48),
{
    reveal_strlit("\u{25b3}");
    reveal_strlit("\u{3d1}");
    reveal_strlit("\u{3c2}");
    reveal_strlit("\u{3b5}");
    reveal_strlit("\u{3c5}");
    reveal_strlit("\u{3a5}");
    reveal_strlit("\u{2202}");
    reveal_strlit("\u{2021}");
    reveal_strlit("\u{2191}");
    reveal_strlit("\u{21d1}");
    reveal_strlit("\u{27f9}");
    reveal_strlit("\u{22c4}");
    reveal_strlit("\u{2235}");
    reveal_strlit("\u{2204}");
    reveal_strlit("\u{2197}");
    reveal_strlit("\u{2198}");
    assert(plain_prefix(REPLACEMENTS@, 33));
    assert(plain_prefix(REPLACEMENTS@, 34));
    assert(plain_prefix(REPLACEMENTS@, 35));
    assert(plain_prefix(REPLACEMENTS@, 36));
    assert(plain_prefix(REPLACEMENTS@, 37));
    assert(plain_prefix(REPLACEMENTS@, 38));
    assert(plain_prefix(REPLACEMENTS@, 39));
    assert(plain_prefix(REPLACEMENTS@, 40));
    assert(plain_prefix(REPLACEMENTS@, 41));
    assert(plain_prefix(REPLACEMENTS@, 42));
    assert(plain_prefix(REPLACEMENTS@, 43));
    assert(plain_prefix(REPLACEMENTS@, 44));
    assert(plain_prefix(REPLACEMENTS@, 45));
    assert(plain_prefix(REPLACEMENTS@, 46));
    assert(plain_prefix(REPLACEMENTS@, 47));
    assert(plain_prefix(REPLACEMENTS@, 48));
}

proof fn lemma_replacements_plain_3()
    requires
        plain_prefix(REPLACEMENTS@, 48),
    ensures
        plain_prefix(REPLACEMENTS@, 64),
{
    reveal_strlit("\u{2199}");
    reveal_strlit("\u{2196}");
    reveal_strlit("\u{2d8}");
    reveal_strlit("\u{b4}");
    reveal_strlit("\u{2c7}");
    reveal_strlit("\u{3bb}");
    reveal_strlit("\u{39b}");
    reveal_strlit("\u{2248}");
    reveal_strlit("\u{2200}");
    reveal_strlit("\u{2203}");
    reveal_strlit("\u{2282}");
    reveal_strlit("\u{2283}");
    reveal_strlit("\u{2297}");
    reveal_strlit("\u{27e8}");
    reveal_strlit("\u{27e9}");
    reveal_strlit("\u{221d}");
    assert(plain_prefix(REPLACEMENTS@, 49));
    assert(plain_prefix(REPLACEMENTS@, 50));
    assert(plain_prefix(REPLACEMENTS@, 51));
    assert(plain_prefix(REPLACEMENTS@, 52));
    assert(plain_prefix(REPLACEMENTS@, 53));
    assert(plain_prefix(REPLACEMENTS@, 54));
    assert(plain_prefix(REPLACEMENTS@, 55));
    assert(plain_prefix(REPLACEMENTS@, 56));
    assert(plain_prefix(REPLACEMENTS@, 57));
    assert(plain_prefix(REPLACEMENTS@, 58));
    assert(plain_prefix(REPLACEMENTS@, 59));
    assert(plain_prefix(REPLACEMENTS@, 60));
    assert(plain_prefix(REPLACEMENTS@, 61));
    assert(plain_prefix(REPLACEMENTS@, 62));
    assert(plain_prefix(REPLACEMENTS@, 63));
    assert(plain_prefix(REPLACEMENTS@, 64));
}

proof fn lemma_replacements_plain_4()
    requires
        plain_prefix(REPLACEMENTS@, 64),
    ensures
        plain_prefix(REPLACEMENTS@, 80),
{
    reveal_strlit("\u{2219}");
    reveal_strlit("\u{2020}");
    reveal_strlit("\u{21a6}");
    reveal_strlit("\u{22a8}");
    reveal_strlit("\u{230a}");
    reveal_strlit("\u{230b}");
    reveal_strlit("\u{2210}");
    reveal_strlit("\u{22c3}");
    reveal_strlit("\u{22c2}");
    reveal_strlit("\u{25a1}");
    reveal_strlit("\u{2296}");
    reveal_strlit("\u{2298}");
    reveal_strlit("\u{3f1}");
    reveal_strlit("\u{a3}");
    reveal_strlit("\u{a8}");
    reveal_strlit("\u{3b1}");
    assert(plain_prefix(REPLACEMENTS@, 65));
    assert(plain_prefix(REPLACEMENTS@, 66));
    assert(plain_prefix(REPLACEMENTS@, 67));
    assert(plain_prefix(REPLACEMENTS@, 68));
    assert(plain_prefix(REPLACEMENTS@, 69));
    assert(plain_prefix(REPLACEMENTS@, 70));
    assert(plain_prefix(REPLACEMENTS@, 71));
    assert(plain_prefix(REPLACEMENTS@, 72));
    assert(plain_prefix(REPLACEMENTS@, 73));
    assert(plain_prefix(REPLACEMENTS@, 74));
    assert(plain_prefix(REPLACEMENTS@, 75));
    assert(plain_prefix(REPLACEMENTS@, 76));
    assert(plain_prefix(REPLACEMENTS@, 77));
    assert(plain_prefix(REPLACEMENTS@, 78));
    assert(plain_prefix(REPLACEMENTS@, 79));
    assert(plain_prefix(REPLACEMENTS@, 80));
}

proof fn lemma_replacements_plain_5()
    requires
        plain_prefix(REPLACEMENTS@, 80),
    ensures
        plain_prefix(REPLACEMENTS@, 96),
{
    reveal_strlit("\u{3b3}");
    reveal_strlit("\u{3b4}");
    reveal_strlit("\u{3b8}");
    reveal_strlit("\u{3ba}");
    reveal_strlit("\u{3c3}");
    reveal_strlit("\u{3c9}");
    reveal_strlit("\u{393}");
    reveal_strlit("\u{394}");
    reveal_strlit("\u{398}");
    reveal_strlit("\u{3a3}");
    reveal_strlit("\u{3a9}");
    reveal_strlit("\u{d7}");
    reveal_strlit("\u{2261}");
    reveal_strlit("\u{221e}");
    reveal_strlit("\u{2207}");
    reveal_strlit("\u{2209}");
    assert(plain_prefix(REPLACEMENTS@, 81));
    assert(plain_prefix(REPLACEMENTS@, 82));
    assert(plain_prefix(REPLACEMENTS@, 83));
    assert(plain_prefix(REPLACEMENTS@, 84));
    assert(plain_prefix(REPLACEMENTS@, 85));
    assert(plain_prefix(REPLACEMENTS@, 86));
    assert(plain_prefix(REPLACEMENTS@, 87));
    assert(plain_prefix(REPLACEMENTS@, 88));
    assert(plain_prefix(REPLACEMENTS@, 89));
    assert(plain_prefix(REPLACEMENTS@, 90));
    assert(plain_prefix(REPLACEMENTS@, 91));
    assert(plain_prefix(REPLACEMENTS@, 92));
    assert(plain_prefix(REPLACEMENTS@, 93));
    assert(plain_prefix(REPLACEMENTS@, 94));
    assert(plain_prefix(REPLACEMENTS@, 95));
    assert(plain_prefix(REPLACEMENTS@, 96));
}

proof fn lemma_replacements_plain_6()
    requires
        plain_prefix(REPLACEMENTS@, 96),
    ensures
        plain_prefix(REPLACEMENTS@, 112),
{
    reveal_strlit("\u{2295}");
    reveal_strlit("\u{2026}");
    reveal_strlit("\u{22ef}");
    reveal_strlit("\u{2135}");
    reveal_strlit("\u{2220}");
    reveal_strlit("\u{2243}");
    reveal_strlit("\u{2227}");
    reveal_strlit("\u{22a2}");
    reveal_strlit("\u{22a3}");
    reveal_strlit("\u{2308}");
    reveal_strlit("\u{2309}");
    reveal_strlit("\u{222d}");
    reveal_strlit("\u{2032}");
    reveal_strlit("\u{224d}");
    reveal_strlit("\u{2250}");
    reveal_strlit("\u{2137}");
    assert(plain_prefix(REPLACEMENTS@, 97));
    assert(plain_prefix(REPLACEMENTS@, 98));
    assert(plain_prefix(REPLACEMENTS@, 99));
    assert(plain_prefix(REPLACEMENTS@, 100));
    assert(plain_prefix(REPLACEMENTS@, 101));
    assert(plain_prefix(REPLACEMENTS@, 102));
    assert(plain_prefix(REPLACEMENTS@, 103));
    assert(plain_prefix(REPLACEMENTS@, 104));
    assert(plain_prefix(REPLACEMENTS@, 105));
    assert(plain_prefix(REPLACEMENTS@, 106));
    assert(plain_prefix(REPLACEMENTS@, 107));
    assert(plain_prefix(REPLACEMENTS@, 108));
    assert(plain_prefix(REPLACEMENTS@, 109));
    assert(plain_prefix(REPLACEMENTS@, 110));
    assert(plain_prefix(REPLACEMENTS@, 111));
    assert(plain_prefix(REPLACEMENTS@, 112));
}

proof fn lemma_replacements_plain_7()
    requires
        plain_prefix(REPLACEMENTS@, 112),
    ensures
        plain_prefix(REPLACEMENTS@, 128),
{
    reveal_strlit("\u{131}");
    reveal_strlit("\u{237}");
    reveal_strlit("\u{22ee}");
    reveal_strlit("\u{22f1}");
    reveal_strlit("\u{3d6}");
    reveal_strlit("\u{2d9}");
    reveal_strlit("\u{af}");
    reveal_strlit("\u{3b2}");
    reveal_strlit("\u{3b6}");
    reveal_strlit("\u{3b9}");
    reveal_strlit("\u{22c5}");
    reveal_strlit("\u{220f}");
    reveal_strlit("\u{221a}");
    reveal_strlit("\u{2227}");
    reveal_strlit("\u{210f}");
    reveal_strlit("\u{22a5}");
    assert(plain_prefix(REPLACEMENTS@, 113));
    assert(plain_prefix(REPLACEMENTS@, 114));
    assert(plain_prefix(REPLACEMENTS@, 115));
    assert(plain_prefix(REPLACEMENTS@, 116));
    assert(plain_prefix(REPLACEMENTS@, 117));
    assert(plain_prefix(REPLACEMENTS@, 118));
    assert(plain_prefix(REPLACEMENTS@, 119));
    assert(plain_prefix(REPLACEMENTS@, 120));
    assert(plain_prefix(REPLACEMENTS@, 121));
    assert(plain_prefix(REPLACEMENTS@, 122));
    assert(plain_prefix(REPLACEMENTS@, 123));
    assert(plain_prefix(REPLACEMENTS@, 124));
    assert(plain_prefix(REPLACEMENTS@, 125));
    assert(plain_prefix(REPLACEMENTS@, 126));
    assert(plain_prefix(REPLACEMENTS@, 127));
    assert(plain_prefix(REPLACEMENTS@, 128));
}

proof fn lemma_replacements_plain_8()
    requires
        plain_prefix(REPLACEMENTS@, 128),
    ensures
        plain_prefix(REPLACEMENTS@, 144),
{
    reveal_strlit("\u{2245}");
    reveal_strlit("\u{2218}");
    reveal_strlit("\u{22c6}");
    reveal_strlit("\u{2224}");
    reveal_strlit("\u{222e}");
    reveal_strlit("\u{222c}");
    reveal_strlit("\u{2299}");
    reveal_strlit("\u{2270}");
    reveal_strlit("\u{2271}");
    reveal_strlit("\u{227a}");
    reveal_strlit("\u{227b}");
    reveal_strlit("\u{2136}");
    reveal_strlit("\u{ac}");
    reveal_strlit("\u{2026}");
    reveal_strlit("\u{3b7}");
    reveal_strlit("\u{3c1}");
    assert(plain_prefix(REPLACEMENTS@, 129));
    assert(plain_prefix(REPLACEMENTS@, 130));
    assert(plain_prefix(REPLACEMENTS@, 131));
    assert(plain_prefix(REPLACEMENTS@, 132));
    assert(plain_prefix(REPLACEMENTS@, 133));
    assert(plain_prefix(REPLACEMENTS@, 134));
    assert(plain_prefix(REPLACEMENTS@, 135));
    assert(plain_prefix(REPLACEMENTS@, 136));
    assert(plain_prefix(REPLACEMENTS@, 137));
    assert(plain_prefix(REPLACEMENTS@, 138));
    assert(plain_prefix(REPLACEMENTS@, 139));
    assert(plain_prefix(REPLACEMENTS@, 140));
    assert(plain_prefix(REPLACEMENTS@, 141));
    assert(plain_prefix(REPLACEMENTS@, 142));
    assert(plain_prefix(REPLACEMENTS@, 143));
    assert(plain_prefix(REPLACEMENTS@, 144));
}

proof fn lemma_replacements_plain_9()
    requires
        plain_prefix(REPLACEMENTS@, 144),
    ensures
        plain_prefix(REPLACEMENTS@, 160),
{
    reveal_strlit("\u{3c4}");
    reveal_strlit("\u{3c6}");
    reveal_strlit("\u{3c7}");
    reveal_strlit("\u{3c8}");
    reveal_strlit("\u{3a6}");
    reveal_strlit("\u{3a8}");
    reveal_strlit("\u{f7}");
    reveal_strlit("\u{2264}");
    reveal_strlit("\u{2265}");
    reveal_strlit("\u{2260}");
    reveal_strlit("\u{223c}");
    reveal_strlit("\u{222a}");
    reveal_strlit("\u{2229}");
    reveal_strlit("\u{2211}");
    reveal_strlit("\u{222b}");
    reveal_strlit("\u{2228}");
    assert(plain_prefix(REPLACEMENTS@, 145));
    assert(plain_prefix(REPLACEMENTS@, 146));
    assert(plain_prefix(REPLACEMENTS@, 147));
    assert(plain_prefix(REPLACEMENTS@, 148));
    assert(plain_prefix(REPLACEMENTS@, 149));
    assert(plain_prefix(REPLACEMENTS@, 150));
    assert(plain_prefix(REPLACEMENTS@, 151));
    assert(plain_prefix(REPLACEMENTS@, 152));
    assert(plain_prefix(REPLACEMENTS@, 153));
    assert(plain_prefix(REPLACEMENTS@, 154));
    assert(plain_prefix(REPLACEMENTS@, 155));
    assert(plain_prefix(REPLACEMENTS@, 156));
    assert(plain_prefix(REPLACEMENTS@, 157));
    assert(plain_prefix(REPLACEMENTS@, 158));
    assert(plain_prefix(REPLACEMENTS@, 159));
    assert(plain_prefix(REPLACEMENTS@, 160));
}

proof fn lemma_replacements_plain_10()
    requires
        plain_prefix(REPLACEMENTS@, 160),
    ensures
        plain_prefix(REPLACEMENTS@, 176),
{
    reveal_strlit("\u{ac}");
    reveal_strlit("\u{2113}");
    reveal_strlit("\u{2217}");
    reveal_strlit("\u{2228}");
    reveal_strlit("\u{27fa}");
    reveal_strlit("\u{22a4}");
    reveal_strlit("\u{22a5}");
    reveal_strlit("\u{2127}");
    reveal_strlit("\u{3bc}");
    reveal_strlit("\u{3bd}");
    reveal_strlit("\u{3be}");
    reveal_strlit("\u{3c0}");
    reveal_strlit("\u{39e}");
    reveal_strlit("\u{3a0}");
    reveal_strlit("\u{b1}");
    reveal_strlit("\u{2213}");
    assert(plain_prefix(REPLACEMENTS@, 161));
    assert(plain_prefix(REPLACEMENTS@, 162));
    assert(plain_prefix(REPLACEMENTS@, 163));
    assert(plain_prefix(REPLACEMENTS@, 164));
    assert(plain_prefix(REPLACEMENTS@, 165));
    assert(plain_prefix(REPLACEMENTS@, 166));
    assert(plain_prefix(REPLACEMENTS@, 167));
    assert(plain_prefix(REPLACEMENTS@, 168));
    assert(plain_prefix(REPLACEMENTS@, 169));
    assert(plain_prefix(REPLACEMENTS@, 170));
    assert(plain_prefix(REPLACEMENTS@, 171));
    assert(plain_prefix(REPLACEMENTS@, 172));
    assert(plain_prefix(REPLACEMENTS@, 173));
    assert(plain_prefix(REPLACEMENTS@, 174));
    assert(plain_prefix(REPLACEMENTS@, 175));
    assert(plain_prefix(REPLACEMENTS@, 176));
}

proof fn lemma_replacements_plain_11()
    requires
        plain_prefix(REPLACEMENTS@, 176),
    ensures
        plain_prefix(REPLACEMENTS@, 186),
{
    reveal_strlit("\u{2208}");
    reveal_strlit("\u{2192}");
    reveal_strlit("\u{226a}");
    reveal_strlit("\u{226b}");
    reveal_strlit("\u{2118}");
    reveal_strlit("\u{211c}");
    reveal_strlit("\u{2111}");
    reveal_strlit("{");
    reveal_strlit("}");
    reveal_strlit("\u{2212}");
    assert(plain_prefix(REPLACEMENTS@, 177));
    assert(plain_prefix(REPLACEMENTS@, 178));
    assert(plain_prefix(REPLACEMENTS@, 179));
    assert(plain_prefix(REPLACEMENTS@, 180));
    assert(plain_prefix(REPLACEMENTS@, 181));
    assert(plain_prefix(REPLACEMENTS@, 182));
    assert(plain_prefix(REPLACEMENTS@, 183));
    assert(plain_prefix(REPLACEMENTS@, 184));
    assert(plain_prefix(REPLACEMENTS@, 185));
    assert(plain_prefix(REPLACEMENTS@, 186));
}

/// No value of [`REPLACEMENTS`] is the value of a combining mark. So a
/// command that stands in both tables, with or without braces, never maps to
/// the code point of its mark.
pub proof fn law_marks_disjoint_from_replacements()
    ensures
        forall|i: int, j: int|
            0 <= i < COMBINING_MARKS@.len() && 0 <= j < REPLACEMENTS@.len() ==> (
            #[trigger] COMBINING_MARKS@[i]).1@ != (#[trigger] REPLACEMENTS@[j]).1@,
{
    lemma_marks_marks_0();
    lemma_replacements_plain_0();
    lemma_replacements_plain_1();
    lemma_replacements_plain_2();
    lemma_replacements_plain_3();
    lemma_replacements_plain_4();
    lemma_replacements_plain_5();
    lemma_replacements_plain_6();
    lemma_replacements_plain_7();
    lemma_replacements_plain_8();
    lemma_replacements_plain_9();
    lemma_replacements_plain_10();
    lemma_replacements_plain_11();
    assert forall|i: int, j: int|
        0 <= i < COMBINING_MARKS@.len() && 0 <= j < REPLACEMENTS@.len() implies (
    #[trigger] COMBINING_MARKS@[i]).1@ != (#[trigger] REPLACEMENTS@[j]).1@ by {
        lemma_marks_prefix(COMBINING_MARKS@, 14, i);
        lemma_plain_prefix(REPLACEMENTS@, 186, j);
    }
}

} // verus!
