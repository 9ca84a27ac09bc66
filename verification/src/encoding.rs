//! UTF-8: the passes turn valid UTF-8 into valid UTF-8.

use crate::engine::bracket_rules;
use crate::engine::escape_rules;
use crate::engine::rewrite;
use crate::engine::standard_tables;
use crate::engine::table_bytes;
use crate::engine::Tables;
use crate::marks::apply_marks;
use crate::marks::command_tail;
use crate::marks::escaped_form;
use crate::marks::resolve_at;
use crate::marks::resolve_mark;
use crate::matching::first_occurrence;
use crate::matching::lemma_first_pattern_at;
use crate::matching::lemma_next_match;
use crate::matching::matches_at;
use crate::matching::next_match;
use crate::passes::allowed_scalar;
use crate::passes::alphabetic_run;
use crate::passes::expand_group;
use crate::passes::group_allowed;
use crate::passes::is_ascii_alphabetic;
use crate::passes::negation_edits;
use crate::passes::negation_pass;
use crate::passes::negation_prefix;
use crate::passes::scalar_end;
use crate::passes::scalar_width;
use crate::passes::script_edits;
use crate::passes::script_pass;
use crate::passes::slash_open;
use crate::passes::Script;
use crate::rewrite::apply_edits;
use crate::rewrite::rule_edits;
use crate::rewrite::rule_patterns;
use crate::rewrite::substitute;
use crate::rewrite::EditView;
use vstd::prelude::*;
use vstd::utf8::*;

verus! {

/// A scalar may start at offset `j` of `text`: `j` is the end of the text, or
/// the byte there is no continuation byte.
pub open spec fn boundary(text: Seq<u8>, j: int) -> bool {
    0 <= j <= text.len() && (j < text.len() ==> !is_continuation_byte(text[j]))
}

/// An edit that cuts between scalars and puts valid UTF-8 in.
pub open spec fn clean_edit(text: Seq<u8>, e: EditView) -> bool {
    boundary(text, e.start) && e.len >= 0 && boundary(text, e.start + e.len) && valid_utf8(
        e.replacement,
    )
}

/// Every edit of the sequence is clean.
pub open spec fn clean_edits(text: Seq<u8>, edits: Seq<EditView>) -> bool {
    forall|i: int| 0 <= i < edits.len() ==> clean_edit(text, #[trigger] edits[i])
}

/// Patterns and values are valid UTF-8, and no pattern is empty.
pub open spec fn clean_rules(rules: Seq<(Seq<u8>, Seq<u8>)>) -> bool {
    forall|i: int|
        0 <= i < rules.len() ==> valid_utf8((#[trigger] rules[i]).0) && rules[i].0.len() > 0
            && valid_utf8(rules[i].1)
}

/// Commands and values are valid UTF-8, and so is each command behind its first byte.
pub open spec fn clean_commands(rules: Seq<(Seq<u8>, Seq<u8>)>) -> bool {
    forall|i: int|
        0 <= i < rules.len() ==> valid_utf8((#[trigger] rules[i]).0) && valid_utf8(
            command_tail(rules[i].0),
        ) && valid_utf8(rules[i].1)
}

/// All four tables are clean.
pub open spec fn clean_tables(t: Tables) -> bool {
    clean_rules(t.replacements) && clean_rules(t.scripts) && clean_commands(t.bracket_suffix)
        && clean_commands(t.marks)
}

proof fn lemma_split(text: Seq<u8>, j: int)
    requires
        valid_utf8(text),
        boundary(text, j),
    ensures
        valid_utf8(text.subrange(0, j)),
        valid_utf8(text.subrange(j, text.len() as int)),
{
    if j < text.len() {
        is_char_boundary_iff_not_is_continuation_byte(text, j);
    } else {
        is_char_boundary_start_end_of_seq(text);
    }
    valid_utf8_split(text, j);
}

proof fn lemma_tail_boundary(text: Seq<u8>, j: int)
    requires
        0 <= j <= text.len(),
        valid_utf8(text.subrange(j, text.len() as int)),
    ensures
        boundary(text, j),
{
    if j < text.len() {
        let tail = text.subrange(j, text.len() as int);
        assert(tail[0] == text[j]);
        assert(valid_first_scalar(tail));
    }
}

proof fn lemma_scalar_step(text: Seq<u8>, j: int)
    requires
        valid_utf8(text),
        boundary(text, j),
        j < text.len(),
    ensures
        scalar_end(text, j, text.len() as int) == j + scalar_width(text[j]),
        boundary(text, j + scalar_width(text[j])),
{
    lemma_split(text, j);
    let tail = text.subrange(j, text.len() as int);
    assert(tail[0] == text[j]);
    assert(valid_first_scalar(tail));
    let w = scalar_width(text[j]);
    assert(length_of_first_scalar(tail) == w);
    assert(w <= tail.len());
    assert(pop_first_scalar(tail) =~= text.subrange(j + w, text.len() as int));
    lemma_tail_boundary(text, j + w);
}

proof fn lemma_between(text: Seq<u8>, a: int, b: int)
    requires
        valid_utf8(text),
        boundary(text, a),
        boundary(text, b),
        a <= b,
    ensures
        valid_utf8(text.subrange(a, b)),
{
    lemma_split(text, a);
    let tail = text.subrange(a, text.len() as int);
    if b < text.len() {
        assert(tail[b - a] == text[b]);
    }
    lemma_split(tail, b - a);
    assert(tail.subrange(0, b - a) =~= text.subrange(a, b));
}

proof fn lemma_cancel(a: Seq<u8>, b: Seq<u8>)
    requires
        valid_utf8(a),
        valid_utf8(a + b),
    ensures
        valid_utf8(b),
    decreases a.len(),
{
    if a.len() == 0 {
        assert(a + b =~= b);
    } else {
        assert(valid_first_scalar(a));
        assert((a + b)[0] == a[0]);
        assert(pop_first_scalar(a + b) =~= pop_first_scalar(a) + b);
        lemma_cancel(pop_first_scalar(a), b);
    }
}

proof fn lemma_ascii_valid(s: Seq<u8>)
    requires
        forall|i: int| 0 <= i < s.len() ==> s[i] < 0x80,
    ensures
        valid_utf8(s),
{
    assert(s.subrange(0, 0) =~= Seq::<u8>::empty());
    assert(partial_valid_utf8(s, 0));
    partial_valid_utf8_extend_ascii_block(s, 0, s.len() as int);
    assert(s.subrange(0, s.len() as int) =~= s);
}

/// An occurrence of a valid, non-empty pattern in a valid text starts and
/// ends between scalars.
proof fn lemma_occurrence_boundaries(text: Seq<u8>, pat: Seq<u8>, at: int)
    requires
        valid_utf8(text),
        valid_utf8(pat),
        pat.len() > 0,
        matches_at(text, pat, at),
    ensures
        boundary(text, at),
        boundary(text, at + pat.len()),
{
    assert(valid_first_scalar(pat));
    assert(text.subrange(at, at + pat.len())[0] == text[at]);
    lemma_split(text, at);
    let tail = text.subrange(at, text.len() as int);
    let rest = text.subrange(at + pat.len(), text.len() as int);
    assert(tail =~= pat + rest);
    lemma_cancel(pat, rest);
    lemma_tail_boundary(text, at + pat.len());
}

proof fn lemma_apply_edits_valid(text: Seq<u8>, edits: Seq<EditView>, k: int, cursor: int)
    requires
        valid_utf8(text),
        clean_edits(text, edits),
        boundary(text, cursor),
        0 <= k,
    ensures
        valid_utf8(apply_edits(text, edits, k, cursor)),
    decreases edits.len() - k,
{
    if k >= edits.len() {
        lemma_split(text, cursor);
    } else if edits[k].start < cursor {
        lemma_apply_edits_valid(text, edits, k + 1, cursor);
    } else {
        lemma_between(text, cursor, edits[k].start);
        lemma_apply_edits_valid(text, edits, k + 1, edits[k].start + edits[k].len);
        valid_utf8_concat(text.subrange(cursor, edits[k].start), edits[k].replacement);
        valid_utf8_concat(
            text.subrange(cursor, edits[k].start) + edits[k].replacement,
            apply_edits(text, edits, k + 1, edits[k].start + edits[k].len),
        );
    }
}

proof fn lemma_clean_concat(text: Seq<u8>, a: Seq<EditView>, b: Seq<EditView>)
    requires
        clean_edits(text, a),
        clean_edits(text, b),
    ensures
        clean_edits(text, a + b),
{
    assert forall|i: int| 0 <= i < (a + b).len() implies clean_edit(text, #[trigger] (a + b)[i]) by {
        if i < a.len() {
            assert((a + b)[i] == a[i]);
        } else {
            assert((a + b)[i] == b[i - a.len()]);
        }
    }
}

proof fn lemma_rule_edits_clean(rules: Seq<(Seq<u8>, Seq<u8>)>, text: Seq<u8>, from: int)
    requires
        valid_utf8(text),
        clean_rules(rules),
        0 <= from,
    ensures
        clean_edits(text, rule_edits(rules, text, from)),
    decreases text.len() + 1 - from,
{
    let pats = rule_patterns(rules);
    lemma_next_match(pats, text, from);
    match next_match(pats, text, from) {
        Some(m) => {
            if from < m.1 <= text.len() && 0 <= m.2 < rules.len() {
                lemma_first_pattern_at(pats, text, m.0, 0);
                assert(pats[m.2] == rules[m.2].0);
                lemma_occurrence_boundaries(text, rules[m.2].0, m.0);
                let e = EditView { start: m.0, len: m.1 - m.0, replacement: rules[m.2].1 };
                assert(clean_edit(text, e));
                lemma_rule_edits_clean(rules, text, m.1);
                lemma_clean_concat(text, seq![e], rule_edits(rules, text, m.1));
            }
        },
        None => {},
    }
}

/// Substituting a clean table keeps a text valid.
proof fn lemma_substitute_valid(rules: Seq<(Seq<u8>, Seq<u8>)>, text: Seq<u8>)
    requires
        valid_utf8(text),
        clean_rules(rules),
    ensures
        valid_utf8(substitute(rules, text)),
{
    lemma_rule_edits_clean(rules, text, 0);
    lemma_apply_edits_valid(text, rule_edits(rules, text, 0), 0, 0);
}

proof fn lemma_run(text: Seq<u8>, at: int)
    requires
        0 <= at,
    ensures
        0 <= alphabetic_run(text, at),
        at + alphabetic_run(text, at) <= text.len() || alphabetic_run(text, at) == 0,
        alphabetic_run(text, at) > 0 ==> is_ascii_alphabetic(
            text[at + alphabetic_run(text, at) - 1],
        ),
    decreases text.len() - at,
{
    if at < text.len() && is_ascii_alphabetic(text[at]) {
        lemma_run(text, at + 1);
    }
}

proof fn lemma_negation_edits_clean(text: Seq<u8>, from: int)
    requires
        valid_utf8(text),
        0 <= from,
    ensures
        clean_edits(text, negation_edits(text, from)),
    decreases text.len() + 1 - from,
{
    let pats = seq![negation_prefix()];
    lemma_next_match(pats, text, from);
    match first_occurrence(text, negation_prefix(), from) {
        Some(i) => {
            if from <= i && i + 5 <= text.len() {
                lemma_first_pattern_at(pats, text, i, 0);
                assert(matches_at(text, pats[0], i));
                let found = text.subrange(i, i + 5);
                assert(found[0] == text[i] && found[4] == text[i + 4]);
                lemma_scalar_step(text, i + 4);
                let run = alphabetic_run(text, i + 5);
                lemma_run(text, i + 5);
                lemma_negation_edits_clean(text, i + 5);
                if run > 0 {
                    let end = i + 5 + run;
                    lemma_scalar_step(text, end - 1);
                    lemma_between(text, i + 5, end);
                    lemma_ascii_valid(slash_open());
                    lemma_ascii_valid(seq![0x7du8]);
                    valid_utf8_concat(slash_open(), text.subrange(i + 5, end));
                    valid_utf8_concat(slash_open() + text.subrange(i + 5, end), seq![0x7du8]);
                    let e = EditView {
                        start: i,
                        len: 5 + run,
                        replacement: slash_open() + text.subrange(i + 5, i + 5 + run) + seq![
                            0x7du8,
                        ],
                    };
                    assert(clean_edit(text, e));
                    lemma_clean_concat(text, seq![e], negation_edits(text, i + 5));
                } else {
                    assert(Seq::<EditView>::empty() + negation_edits(text, i + 5)
                        =~= negation_edits(text, i + 5));
                }
            }
        },
        None => {},
    }
}

proof fn lemma_allowed_valid(script: Script, s: Seq<u8>)
    requires
        allowed_scalar(script, s),
    ensures
        valid_utf8(s),
{
    if s.len() == 1 && s[0] < 0x80 {
        lemma_ascii_valid(s);
    } else {
        encode_utf8_valid_utf8("\u{3b2}"@);
        encode_utf8_valid_utf8("\u{3b3}"@);
        encode_utf8_valid_utf8("\u{3c6}"@);
        encode_utf8_valid_utf8("\u{3c7}"@);
        encode_utf8_valid_utf8("\u{2212}"@);
        encode_utf8_valid_utf8("\u{3c1}"@);
        encode_utf8_valid_utf8("\u{3b4}"@);
        encode_utf8_valid_utf8("\u{222b}"@);
    }
}

proof fn lemma_expand_valid(script: Script, text: Seq<u8>, at: int, end: int)
    requires
        group_allowed(script, text, at, end),
    ensures
        valid_utf8(expand_group(script.control(), text, at, end)),
    decreases end - at,
{
    if 0 <= at < end <= text.len() {
        let q = scalar_end(text, at, end);
        lemma_allowed_valid(script, text.subrange(at, q));
        lemma_expand_valid(script, text, q, end);
        lemma_ascii_valid(seq![script.control()]);
        valid_utf8_concat(seq![script.control()], text.subrange(at, q));
        valid_utf8_concat(
            seq![script.control()] + text.subrange(at, q),
            expand_group(script.control(), text, q, end),
        );
    }
}

proof fn lemma_script_edits_clean(script: Script, text: Seq<u8>, from: int)
    requires
        valid_utf8(text),
        0 <= from,
    ensures
        clean_edits(text, script_edits(script, text, from)),
    decreases text.len() + 1 - from,
{
    let pats = seq![seq![script.control(), 0x7bu8]];
    lemma_next_match(pats, text, from);
    match first_occurrence(text, seq![script.control(), 0x7bu8], from) {
        Some(i) => {
            if from <= i && i + 2 <= text.len() {
                lemma_first_pattern_at(pats, text, i, 0);
                assert(matches_at(text, pats[0], i));
                assert(text.subrange(i, i + 2)[0] == text[i]);
                lemma_script_edits_clean(script, text, i + 2);
                let rest = script_edits(script, text, i + 2);
                let closing = seq![seq![0x7du8]];
                lemma_next_match(closing, text, i + 2);
                let here = match first_occurrence(text, seq![0x7du8], i + 2) {
                    Some(j) => if i + 2 < j < text.len() && group_allowed(script, text, i + 2, j) {
                        seq![
                            EditView {
                                start: i,
                                len: j + 1 - i,
                                replacement: expand_group(script.control(), text, i + 2, j),
                            },
                        ]
                    } else {
                        Seq::empty()
                    },
                    None => Seq::empty(),
                };
                if here.len() > 0 {
                    let j = first_occurrence(text, seq![0x7du8], i + 2).unwrap();
                    lemma_first_pattern_at(closing, text, j, 0);
                    assert(matches_at(text, closing[0], j));
                    assert(text.subrange(j, j + 1)[0] == text[j]);
                    lemma_scalar_step(text, j);
                    lemma_expand_valid(script, text, i + 2, j);
                    assert(clean_edit(text, here[0]));
                }
                assert(clean_edits(text, here));
                lemma_clean_concat(text, here, rest);
            }
        },
        None => {},
    }
}

proof fn lemma_resolve_at_valid(text: Seq<u8>, i: int, command: Seq<u8>, value: Seq<u8>)
    requires
        valid_utf8(text),
        valid_utf8(command),
        valid_utf8(command_tail(command)),
        valid_utf8(value),
        matches_at(text, escaped_form(command), i),
    ensures
        valid_utf8(resolve_at(text, i, command, value)),
{
    let len = text.len() as int;
    let needle = escaped_form(command);
    lemma_ascii_valid(seq![0x5cu8, 0x20u8]);
    lemma_ascii_valid(seq![0x7bu8]);
    valid_utf8_concat(seq![0x5cu8, 0x20u8], command_tail(command));
    valid_utf8_concat(seq![0x5cu8, 0x20u8] + command_tail(command), seq![0x7bu8]);
    lemma_occurrence_boundaries(text, needle, i);
    lemma_split(text, i);
    let p = i + needle.len();
    if len <= p {
        valid_utf8_concat(text.subrange(0, i), command);
        valid_utf8_concat(text.subrange(0, i) + command, seq![0x7bu8]);
    } else {
        lemma_scalar_step(text, p);
        let q = scalar_end(text, p, len);
        if q < len {
            lemma_scalar_step(text, q);
        }
        let r = if q < len {
            scalar_end(text, q, len)
        } else {
            q
        };
        lemma_between(text, p, q);
        lemma_split(text, r);
        valid_utf8_concat(text.subrange(0, i), text.subrange(p, q));
        valid_utf8_concat(text.subrange(0, i) + text.subrange(p, q), value);
        valid_utf8_concat(
            text.subrange(0, i) + text.subrange(p, q) + value,
            text.subrange(r, len),
        );
    }
}

proof fn lemma_resolve_mark_valid(text: Seq<u8>, command: Seq<u8>, value: Seq<u8>)
    requires
        valid_utf8(text),
        valid_utf8(command),
        valid_utf8(command_tail(command)),
        valid_utf8(value),
    ensures
        valid_utf8(resolve_mark(text, command, value)),
    decreases text.len(),
{
    let pats = seq![escaped_form(command)];
    lemma_next_match(pats, text, 0);
    match first_occurrence(text, escaped_form(command), 0) {
        Some(i) => {
            lemma_first_pattern_at(pats, text, i, 0);
            assert(matches_at(text, pats[0], i));
            lemma_resolve_at_valid(text, i, command, value);
            let next = resolve_at(text, i, command, value);
            if next.len() < text.len() {
                lemma_resolve_mark_valid(next, command, value);
            }
        },
        None => {},
    }
}

proof fn lemma_apply_marks_valid(text: Seq<u8>, marks: Seq<(Seq<u8>, Seq<u8>)>, k: int)
    requires
        valid_utf8(text),
        clean_commands(marks),
    ensures
        valid_utf8(apply_marks(text, marks, k)),
    decreases marks.len() - k,
{
    if 0 <= k < marks.len() {
        lemma_resolve_mark_valid(text, marks[k].0, marks[k].1);
        lemma_apply_marks_valid(resolve_mark(text, marks[k].0, marks[k].1), marks, k + 1);
    }
}

/// With clean tables the transform turns valid UTF-8 into valid UTF-8.
pub proof fn law_rewrite_keeps_utf8(t: Tables, text: Seq<u8>)
    requires
        clean_tables(t),
        valid_utf8(text),
    ensures
        valid_utf8(rewrite(t, text)),
{
    lemma_negation_edits_clean(text, 0);
    lemma_apply_edits_valid(text, negation_edits(text, 0), 0, 0);
    let negated = negation_pass(text);
    assert(clean_rules(escape_rules(t.marks))) by {
        lemma_ascii_valid(seq![0x5cu8, 0x20u8]);
        lemma_ascii_valid(seq![0x7bu8]);
        assert forall|i: int| 0 <= i < t.marks.len() implies valid_utf8(
            (#[trigger] t.marks[i]).0 + seq![0x7bu8],
        ) && valid_utf8(escaped_form(t.marks[i].0)) by {
            valid_utf8_concat(t.marks[i].0, seq![0x7bu8]);
            valid_utf8_concat(seq![0x5cu8, 0x20u8], command_tail(t.marks[i].0));
            valid_utf8_concat(seq![0x5cu8, 0x20u8] + command_tail(t.marks[i].0), seq![0x7bu8]);
        }
        assert forall|i: int| 0 <= i < escape_rules(t.marks).len() implies valid_utf8(
            (#[trigger] escape_rules(t.marks)[i]).0,
        ) && escape_rules(t.marks)[i].0.len() > 0 && valid_utf8(escape_rules(t.marks)[i].1) by {
            assert(valid_utf8(t.marks[i].0 + seq![0x7bu8]));
        }
    }
    lemma_substitute_valid(escape_rules(t.marks), negated);
    let escaped = substitute(escape_rules(t.marks), negated);
    lemma_substitute_valid(t.replacements, escaped);
    let replaced = substitute(t.replacements, escaped);
    assert(clean_rules(bracket_rules(t.bracket_suffix))) by {
        lemma_ascii_valid(seq![0x5cu8, 0x20u8]);
        assert forall|i: int| 0 <= i < t.bracket_suffix.len() implies valid_utf8(
            seq![0x5cu8, 0x20u8] + command_tail((#[trigger] t.bracket_suffix[i]).0),
        ) by {
            valid_utf8_concat(seq![0x5cu8, 0x20u8], command_tail(t.bracket_suffix[i].0));
        }
        assert forall|i: int| 0 <= i < bracket_rules(t.bracket_suffix).len() implies valid_utf8(
            (#[trigger] bracket_rules(t.bracket_suffix)[i]).0,
        ) && bracket_rules(t.bracket_suffix)[i].0.len() > 0 && valid_utf8(
            bracket_rules(t.bracket_suffix)[i].1,
        ) by {
            assert(valid_utf8(seq![0x5cu8, 0x20u8] + command_tail(t.bracket_suffix[i].0)));
        }
    }
    lemma_substitute_valid(bracket_rules(t.bracket_suffix), replaced);
    let cleaned = substitute(bracket_rules(t.bracket_suffix), replaced);
    lemma_script_edits_clean(Script::Sub, cleaned, 0);
    lemma_apply_edits_valid(cleaned, script_edits(Script::Sub, cleaned, 0), 0, 0);
    let subscripts = script_pass(Script::Sub, cleaned);
    lemma_script_edits_clean(Script::Super, subscripts, 0);
    lemma_apply_edits_valid(subscripts, script_edits(Script::Super, subscripts, 0), 0, 0);
    let superscripts = script_pass(Script::Super, subscripts);
    lemma_substitute_valid(t.scripts, superscripts);
    let tokens = substitute(t.scripts, superscripts);
    lemma_apply_marks_valid(tokens, t.marks, 0);
}

proof fn lemma_filled_table_clean(table: Seq<(&'static str, &'static str)>)
    requires
        forall|i: int| 0 <= i < table.len() ==> (#[trigger] table[i]).0@.len() >= 1,
    ensures
        clean_rules(table_bytes(table)),
{
    assert forall|i: int| 0 <= i < table_bytes(table).len() implies valid_utf8(
        (#[trigger] table_bytes(table)[i]).0,
    ) && table_bytes(table)[i].0.len() > 0 && valid_utf8(table_bytes(table)[i].1) by {
        let name = table[i].0@;
        assert(name.len() >= 1);
        encode_utf8_valid_utf8(name);
        encode_utf8_valid_utf8(table[i].1@);
        assert(encode_utf8(name) == encode_scalar(name[0] as u32) + encode_utf8(
            name.drop_first(),
        ));
    }
}

proof fn lemma_command_table_clean(table: Seq<(&'static str, &'static str)>)
    requires
        forall|i: int|
            0 <= i < table.len() ==> (#[trigger] table[i]).0@.len() >= 1 && table[i].0@[0] == '\\',
    ensures
        clean_commands(table_bytes(table)),
{
    assert forall|i: int| 0 <= i < table_bytes(table).len() implies valid_utf8(
        (#[trigger] table_bytes(table)[i]).0,
    ) && valid_utf8(command_tail(table_bytes(table)[i].0)) && valid_utf8(
        table_bytes(table)[i].1,
    ) by {
        let name = table[i].0@;
        assert(name.len() >= 1 && name[0] == '\\');
        encode_utf8_valid_utf8(name);
        encode_utf8_valid_utf8(name.drop_first());
        encode_utf8_valid_utf8(table[i].1@);
        let first = encode_scalar(name[0] as u32);
        assert(encode_utf8(name) == first + encode_utf8(name.drop_first()));
        assert(first.len() == 1);
        assert(command_tail(encode_utf8(name)) =~= encode_utf8(name.drop_first()));
    }
}

/// The tables of the library are clean.
pub proof fn law_standard_tables_clean()
    ensures
        clean_tables(standard_tables()),
{
    crate::table_laws::law_replacements_filled();
    crate::table_laws::law_scripts_filled();
    crate::table_laws::law_bracket_suffix_commands();
    crate::table_laws::law_marks_commands();
    lemma_filled_table_clean(crate::data::REPLACEMENTS@);
    lemma_filled_table_clean(crate::data::SUB_SUPER_SCRIPTS@);
    lemma_command_table_clean(crate::data::REPLACEMENTS_WITH_BRACKET_SUFFIX@);
    lemma_command_table_clean(crate::data::COMBINING_MARKS@);
}

} // verus!
