//! The whole transform: the tables in the form the passes need, the order of
//! the passes, and what the transform leaves alone.

use crate::data::COMBINING_MARKS;
use crate::data::REPLACEMENTS;
use crate::data::REPLACEMENTS_WITH_BRACKET_SUFFIX;
use crate::data::SUB_SUPER_SCRIPTS;
use crate::marks::apply_all;
use crate::marks::apply_marks;
use crate::marks::command_tail;
use crate::marks::escaped;
use crate::marks::escaped_form;
use crate::marks::resolve_mark;
use crate::matching::first_occurrence;
use crate::matching::lemma_next_match;
use crate::matching::next_match;
use crate::passes::expand_script_groups;
use crate::passes::negate;
use crate::passes::negation_edits;
use crate::passes::negation_pass;
use crate::passes::negation_prefix;
use crate::passes::script_edits;
use crate::passes::script_pass;
use crate::passes::Script;
use crate::rewrite::append_range;
use crate::rewrite::rule_edits;
use crate::rewrite::rule_patterns;
use crate::rewrite::rule_views;
use crate::rewrite::substitute;
use crate::rewrite::Rule;
use crate::rewrite::Substitution;
use vstd::prelude::*;
use vstd::utf8::encode_utf8;

verus! {

/// The four tables as byte strings: pairs of pattern and value.
pub ghost struct Tables {
    pub replacements: Seq<(Seq<u8>, Seq<u8>)>,
    pub bracket_suffix: Seq<(Seq<u8>, Seq<u8>)>,
    pub scripts: Seq<(Seq<u8>, Seq<u8>)>,
    pub marks: Seq<(Seq<u8>, Seq<u8>)>,
}

/// A table of strings as UTF-8 bytes.
pub open spec fn table_bytes(table: Seq<(&'static str, &'static str)>) -> Seq<(Seq<u8>, Seq<u8>)> {
    Seq::new(table.len(), |i: int| (encode_utf8(table[i].0@), encode_utf8(table[i].1@)))
}

/// The tables that the library comes with.
pub open spec fn standard_tables() -> Tables {
    Tables {
        replacements: table_bytes(REPLACEMENTS@),
        bracket_suffix: table_bytes(REPLACEMENTS_WITH_BRACKET_SUFFIX@),
        scripts: table_bytes(SUB_SUPER_SCRIPTS@),
        marks: table_bytes(COMBINING_MARKS@),
    }
}

/// The table of the escape pass: each mark's command with `{` behind it
/// gives way to the mark's escaped form.
pub open spec fn escape_rules(marks: Seq<(Seq<u8>, Seq<u8>)>) -> Seq<(Seq<u8>, Seq<u8>)> {
    Seq::new(marks.len(), |i: int| (marks[i].0 + seq![0x7bu8], escaped_form(marks[i].0)))
}

/// The table of the cleanup pass: each pattern that ends in `{}`, written
/// with a space behind its backslash, gives way to its value.
pub open spec fn bracket_rules(bracket_suffix: Seq<(Seq<u8>, Seq<u8>)>) -> Seq<(Seq<u8>, Seq<u8>)> {
    Seq::new(
        bracket_suffix.len(),
        |i: int| (seq![0x5cu8, 0x20u8] + command_tail(bracket_suffix[i].0), bracket_suffix[i].1),
    )
}

/// The transform: negation, escape of the marks, literal replacement,
/// cleanup of empty braces, subscript groups, superscript groups, script
/// tokens, and the marks, each pass on the whole result of the one before.
pub open spec fn rewrite(t: Tables, text: Seq<u8>) -> Seq<u8> {
    let negated = negation_pass(text);
    let escaped = substitute(escape_rules(t.marks), negated);
    let replaced = substitute(t.replacements, escaped);
    let cleaned = substitute(bracket_rules(t.bracket_suffix), replaced);
    let subscripts = script_pass(Script::Sub, cleaned);
    let superscripts = script_pass(Script::Super, subscripts);
    let tokens = substitute(t.scripts, superscripts);
    apply_marks(tokens, t.marks, 0)
}

/// No pass finds anything to work on in `text`.
pub open spec fn unrecognized(t: Tables, text: Seq<u8>) -> bool {
    &&& first_occurrence(text, negation_prefix(), 0) is None
    &&& next_match(rule_patterns(escape_rules(t.marks)), text, 0) is None
    &&& next_match(rule_patterns(t.replacements), text, 0) is None
    &&& next_match(rule_patterns(bracket_rules(t.bracket_suffix)), text, 0) is None
    &&& first_occurrence(text, seq![Script::Sub.control(), 0x7bu8], 0) is None
    &&& first_occurrence(text, seq![Script::Super.control(), 0x7bu8], 0) is None
    &&& next_match(rule_patterns(t.scripts), text, 0) is None
    &&& forall|k: int|
        0 <= k < t.marks.len() ==> first_occurrence(
            text,
            escaped_form(#[trigger] t.marks[k].0),
            0,
        ) is None
}

proof fn lemma_marks_unchanged(text: Seq<u8>, marks: Seq<(Seq<u8>, Seq<u8>)>, k: int)
    requires
        0 <= k,
        forall|j: int|
            0 <= j < marks.len() ==> first_occurrence(text, escaped_form(#[trigger] marks[j].0), 0)
                is None,
    ensures
        apply_marks(text, marks, k) == text,
    decreases marks.len() - k,
{
    if k < marks.len() {
        assert(first_occurrence(text, escaped_form(marks[k].0), 0) is None);
        assert(resolve_mark(text, marks[k].0, marks[k].1) == text);
        lemma_marks_unchanged(text, marks, k + 1);
    }
}

/// A text in which no pass finds a command comes back unchanged.
pub proof fn law_unrecognized_unchanged(t: Tables, text: Seq<u8>)
    requires
        unrecognized(t, text),
    ensures
        rewrite(t, text) == text,
{
    assert(text.subrange(0, text.len() as int) =~= text);
    assert(negation_edits(text, 0) =~= Seq::empty());
    assert(negation_pass(text) == text);
    assert(rule_edits(escape_rules(t.marks), text, 0) =~= Seq::empty());
    assert(substitute(escape_rules(t.marks), text) == text);
    assert(rule_edits(t.replacements, text, 0) =~= Seq::empty());
    assert(substitute(t.replacements, text) == text);
    assert(rule_edits(bracket_rules(t.bracket_suffix), text, 0) =~= Seq::empty());
    assert(substitute(bracket_rules(t.bracket_suffix), text) == text);
    assert(script_edits(Script::Sub, text, 0) =~= Seq::empty());
    assert(script_pass(Script::Sub, text) == text);
    assert(script_edits(Script::Super, text, 0) =~= Seq::empty());
    assert(script_pass(Script::Super, text) == text);
    assert(rule_edits(t.scripts, text, 0) =~= Seq::empty());
    assert(substitute(t.scripts, text) == text);
    lemma_marks_unchanged(text, t.marks, 0);
}

/// The empty text comes back empty, whatever the tables hold.
pub proof fn law_empty_unchanged(t: Tables)
    ensures
        rewrite(t, Seq::empty()) == Seq::<u8>::empty(),
{
    let text = Seq::<u8>::empty();
    assert(text.subrange(0, 0) =~= text);
    lemma_next_match(seq![negation_prefix()], text, 0);
    assert(negation_edits(text, 0) =~= Seq::empty());
    lemma_next_match(rule_patterns(escape_rules(t.marks)), text, 0);
    assert(rule_edits(escape_rules(t.marks), text, 0) =~= Seq::empty());
    lemma_next_match(rule_patterns(t.replacements), text, 0);
    assert(rule_edits(t.replacements, text, 0) =~= Seq::empty());
    lemma_next_match(rule_patterns(bracket_rules(t.bracket_suffix)), text, 0);
    assert(rule_edits(bracket_rules(t.bracket_suffix), text, 0) =~= Seq::empty());
    lemma_next_match(seq![seq![Script::Sub.control(), 0x7bu8]], text, 0);
    assert(script_edits(Script::Sub, text, 0) =~= Seq::empty());
    lemma_next_match(seq![seq![Script::Super.control(), 0x7bu8]], text, 0);
    assert(script_edits(Script::Super, text, 0) =~= Seq::empty());
    lemma_next_match(rule_patterns(t.scripts), text, 0);
    assert(rule_edits(t.scripts, text, 0) =~= Seq::empty());
    assert forall|j: int| 0 <= j < t.marks.len() implies first_occurrence(
        text,
        escaped_form(#[trigger] t.marks[j].0),
        0,
    ) is None by {
        lemma_next_match(seq![escaped_form(t.marks[j].0)], text, 0);
    }
    lemma_marks_unchanged(text, t.marks, 0);
}

/// The bytes of a string, in a vector of their own.
pub fn bytes_of(s: &str) -> (r: Vec<u8>)
    ensures
        r@ == encode_utf8(s@),
{
    vstd::slice::slice_to_vec(s.as_bytes())
}

/// A table of strings as rules over bytes.
pub fn load<const N: usize>(table: &[(&'static str, &'static str); N]) -> (rules: Vec<Rule>)
    ensures
        rule_views(rules@) == table_bytes(table@),
{
    let mut rules: Vec<Rule> = Vec::new();
    let mut k: usize = 0;
    while k < N
        invariant
            k <= N,
            rules@.len() == k,
            forall|i: int|
                0 <= i < k ==> (#[trigger] rules@[i])@ == (
                    encode_utf8(table@[i].0@),
                    encode_utf8(table@[i].1@),
                ),
        decreases N - k,
    {
        let entry = table[k];
        rules.push(Rule { pattern: bytes_of(entry.0), replacement: bytes_of(entry.1) });
        k += 1;
    }
    assert(rule_views(rules@) =~= table_bytes(table@));
    rules
}

/// The rules of the escape pass for a table of marks.
pub fn escape_table(marks: &Vec<Rule>) -> (rules: Vec<Rule>)
    ensures
        rule_views(rules@) == escape_rules(rule_views(marks@)),
{
    let mut rules: Vec<Rule> = Vec::new();
    let mut k: usize = 0;
    while k < marks.len()
        invariant
            k <= marks.len(),
            rules@.len() == k,
            forall|i: int|
                0 <= i < k ==> (#[trigger] rules@[i])@ == (
                    marks@[i].pattern@ + seq![0x7bu8],
                    escaped_form(marks@[i].pattern@),
                ),
        decreases marks.len() - k,
    {
        let command = marks[k].pattern.as_slice();
        let mut pattern: Vec<u8> = Vec::new();
        append_range(&mut pattern, command, 0, command.len());
        pattern.push(0x7b);
        assert(pattern@ =~= command@ + seq![0x7bu8]);
        rules.push(Rule { pattern, replacement: escaped(command) });
        k += 1;
    }
    assert(rule_views(rules@) =~= escape_rules(rule_views(marks@)));
    rules
}

/// The rules of the cleanup pass for a table of patterns that end in `{}`.
pub fn bracket_table(bracket_suffix: &Vec<Rule>) -> (rules: Vec<Rule>)
    ensures
        rule_views(rules@) == bracket_rules(rule_views(bracket_suffix@)),
{
    let mut rules: Vec<Rule> = Vec::new();
    let mut k: usize = 0;
    while k < bracket_suffix.len()
        invariant
            k <= bracket_suffix.len(),
            rules@.len() == k,
            forall|i: int|
                0 <= i < k ==> (#[trigger] rules@[i])@ == (
                    seq![0x5cu8, 0x20u8] + command_tail(bracket_suffix@[i].pattern@),
                    bracket_suffix@[i].replacement@,
                ),
        decreases bracket_suffix.len() - k,
    {
        let command = bracket_suffix[k].pattern.as_slice();
        let value = bracket_suffix[k].replacement.as_slice();
        let mut pattern: Vec<u8> = Vec::new();
        pattern.push(0x5c);
        pattern.push(0x20);
        if command.len() >= 1 {
            append_range(&mut pattern, command, 1, command.len());
        }
        assert(pattern@ =~= seq![0x5cu8, 0x20u8] + command_tail(command@));
        rules.push(Rule { pattern, replacement: vstd::slice::slice_to_vec(value) });
        k += 1;
    }
    assert(rule_views(rules@) =~= bracket_rules(rule_views(bracket_suffix@)));
    rules
}

/// The tables compiled for the passes.
pub struct Engine {
    escape: Substitution,
    literal: Substitution,
    bracket: Substitution,
    scripts: Substitution,
    bracket_suffix: Vec<Rule>,
    marks: Vec<Rule>,
}

impl Engine {
    /// The tables that the engine was made from.
    pub closed spec fn tables(&self) -> Tables {
        Tables {
            replacements: self.literal.rules(),
            bracket_suffix: rule_views(self.bracket_suffix@),
            scripts: self.scripts.rules(),
            marks: rule_views(self.marks@),
        }
    }

    /// The compiled tables are sound, and the escape and cleanup passes were
    /// made from the marks and the bracket-suffix table.
    pub closed spec fn wf(&self) -> bool {
        &&& self.escape.wf()
        &&& self.literal.wf()
        &&& self.bracket.wf()
        &&& self.scripts.wf()
        &&& self.escape.rules() == escape_rules(rule_views(self.marks@))
        &&& self.bracket.rules() == bracket_rules(rule_views(self.bracket_suffix@))
    }

    /// Compiles four tables. With `automaton` the table passes search with
    /// Aho-Corasick automata where they can be built; without, they scan.
    pub fn new(
        replacements: Vec<Rule>,
        bracket_suffix: Vec<Rule>,
        scripts: Vec<Rule>,
        marks: Vec<Rule>,
        automaton: bool,
    ) -> (e: Engine)
        ensures
            e.wf(),
            e.tables() == (Tables {
                replacements: rule_views(replacements@),
                bracket_suffix: rule_views(bracket_suffix@),
                scripts: rule_views(scripts@),
                marks: rule_views(marks@),
            }),
    {
        let escape = Substitution::new(escape_table(&marks), automaton);
        let bracket = Substitution::new(bracket_table(&bracket_suffix), automaton);
        let literal = Substitution::new(replacements, automaton);
        let scripts = Substitution::new(scripts, automaton);
        Engine { escape, literal, bracket, scripts, bracket_suffix, marks }
    }

    /// The engine for the tables of the library, with automata.
    pub fn standard() -> (e: Engine)
        ensures
            e.wf(),
            e.tables() == standard_tables(),
    {
        Engine::new(
            load(&REPLACEMENTS),
            load(&REPLACEMENTS_WITH_BRACKET_SUFFIX),
            load(&SUB_SUPER_SCRIPTS),
            load(&COMBINING_MARKS),
            true,
        )
    }

    /// The engine for the tables of the library, without automata.
    pub fn scanning() -> (e: Engine)
        ensures
            e.wf(),
            e.tables() == standard_tables(),
    {
        Engine::new(
            load(&REPLACEMENTS),
            load(&REPLACEMENTS_WITH_BRACKET_SUFFIX),
            load(&SUB_SUPER_SCRIPTS),
            load(&COMBINING_MARKS),
            false,
        )
    }

    /// Runs the passes on `text`.
    pub fn rewrite(&self, text: &[u8]) -> (r: Vec<u8>)
        requires
            self.wf(),
        ensures
            r@ == rewrite(self.tables(), text@),
    {
        let negated = negate(text);
        let escaped = self.escape.apply(negated.as_slice());
        let replaced = self.literal.apply(escaped.as_slice());
        let cleaned = self.bracket.apply(replaced.as_slice());
        let subscripts = expand_script_groups(Script::Sub, cleaned.as_slice());
        let superscripts = expand_script_groups(Script::Super, subscripts.as_slice());
        let tokens = self.scripts.apply(superscripts.as_slice());
        apply_all(tokens, &self.marks)
    }
}

} // verus!
