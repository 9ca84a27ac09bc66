//! Combining marks: their escaped form, and the pass that attaches each mark
//! to the character behind its opening brace.

use crate::matching::find_from;
use crate::matching::first_occurrence;
use crate::matching::lemma_next_match;
use crate::passes::scalar_end;
use crate::passes::scalar_end_at;
use crate::rewrite::append_range;
use crate::rewrite::rule_views;
use crate::rewrite::Rule;
use vstd::prelude::*;

verus! {

/// A command without its first byte, the backslash.
pub open spec fn command_tail(command: Seq<u8>) -> Seq<u8> {
    if command.len() >= 1 {
        command.subrange(1, command.len() as int)
    } else {
        Seq::empty()
    }
}

/// The escaped form of a command: a backslash, a space, the command's name and `{`.
pub open spec fn escaped_form(command: Seq<u8>) -> Seq<u8> {
    seq![0x5cu8, 0x20u8] + command_tail(command) + seq![0x7bu8]
}

/// The text with the escaped form at offset `i` resolved. Where the text ends
/// behind the brace, the escape is taken back: the text is cut at `i` and the
/// command and `{` are appended. Otherwise the scalar behind the brace is the
/// base character; it and the mark's value replace everything from `i`
/// through the base character and the one scalar that follows it, if any.
pub open spec fn resolve_at(text: Seq<u8>, i: int, command: Seq<u8>, value: Seq<u8>) -> Seq<u8> {
    let len = text.len() as int;
    let p = i + escaped_form(command).len();
    if len <= p {
        text.subrange(0, i) + command + seq![0x7bu8]
    } else {
        let q = scalar_end(text, p, len);
        let r = if q < len {
            scalar_end(text, q, len)
        } else {
            q
        };
        text.subrange(0, i) + text.subrange(p, q) + value + text.subrange(r, len)
    }
}

/// The text with every escaped form of one mark resolved, the first
/// occurrence first, until none is left. A step that does not shorten the
/// text is the last.
pub open spec fn resolve_mark(text: Seq<u8>, command: Seq<u8>, value: Seq<u8>) -> Seq<u8>
    decreases text.len(),
{
    match first_occurrence(text, escaped_form(command), 0) {
        Some(i) => {
            let next = resolve_at(text, i, command, value);
            if next.len() < text.len() {
                resolve_mark(next, command, value)
            } else {
                next
            }
        },
        None => text,
    }
}

/// The text with the marks from index `k` on resolved, one mark after the
/// other in table order.
pub open spec fn apply_marks(text: Seq<u8>, marks: Seq<(Seq<u8>, Seq<u8>)>, k: int) -> Seq<u8>
    decreases marks.len() - k,
{
    if 0 <= k < marks.len() {
        apply_marks(resolve_mark(text, marks[k].0, marks[k].1), marks, k + 1)
    } else {
        text
    }
}

/// The escaped form of `command`.
pub fn escaped(command: &[u8]) -> (r: Vec<u8>)
    ensures
        r@ == escaped_form(command@),
{
    let mut r: Vec<u8> = Vec::new();
    r.push(0x5c);
    r.push(0x20);
    if command.len() >= 1 {
        append_range(&mut r, command, 1, command.len());
    }
    r.push(0x7b);
    assert(r@ =~= escaped_form(command@));
    r
}

/// Resolves the escaped form of `command` that stands at offset `i` of `text`.
fn resolve_one(text: &[u8], i: usize, command: &[u8], value: &[u8], escaped_len: usize) -> (r:
    Vec<u8>)
    requires
        escaped_len == escaped_form(command@).len(),
        i + escaped_len <= text@.len(),
    ensures
        r@ == resolve_at(text@, i as int, command@, value@),
{
    let len: usize = text.len();
    let p: usize = i + escaped_len;
    let mut r: Vec<u8> = Vec::new();
    append_range(&mut r, text, 0, i);
    if len <= p {
        append_range(&mut r, command, 0, command.len());
        r.push(0x7b);
        assert(r@ =~= text@.subrange(0, i as int) + command@ + seq![0x7bu8]);
    } else {
        let q: usize = scalar_end_at(text, p, len);
        let resume: usize = if q < len {
            scalar_end_at(text, q, len)
        } else {
            q
        };
        append_range(&mut r, text, p, q);
        append_range(&mut r, value, 0, value.len());
        append_range(&mut r, text, resume, len);
        assert(r@ =~= text@.subrange(0, i as int) + text@.subrange(p as int, q as int) + value@
            + text@.subrange(resume as int, len as int));
    }
    r
}

/// Resolves every escaped form of one mark in `text`.
pub fn resolve(text: Vec<u8>, mark: &Rule) -> (r: Vec<u8>)
    ensures
        r@ == resolve_mark(text@, mark.pattern@, mark.replacement@),
{
    let needle = escaped(mark.pattern.as_slice());
    let ghost command = mark.pattern@;
    let ghost value = mark.replacement@;
    let mut current = text;
    loop
        invariant
            command == mark.pattern@,
            value == mark.replacement@,
            needle@ == escaped_form(command),
            resolve_mark(text@, command, value) == resolve_mark(current@, command, value),
        decreases current@.len(),
    {
        proof {
            lemma_next_match(seq![needle@], current@, 0);
        }
        match find_from(current.as_slice(), needle.as_slice(), 0) {
            Some(i) => {
                let next = resolve_one(
                    current.as_slice(),
                    i,
                    mark.pattern.as_slice(),
                    mark.replacement.as_slice(),
                    needle.len(),
                );
                if next.len() < current.len() {
                    current = next;
                } else {
                    return next;
                }
            },
            None => {
                return current;
            },
        }
    }
}

/// Resolves the escaped forms of all marks, one mark after the other in table order.
pub fn apply_all(text: Vec<u8>, marks: &Vec<Rule>) -> (r: Vec<u8>)
    ensures
        r@ == apply_marks(text@, rule_views(marks@), 0),
{
    let mut current = text;
    let mut k: usize = 0;
    while k < marks.len()
        invariant
            k <= marks.len(),
            apply_marks(text@, rule_views(marks@), 0) == apply_marks(
                current@,
                rule_views(marks@),
                k as int,
            ),
        decreases marks.len() - k,
    {
        assert(rule_views(marks@)[k as int] == marks@[k as int]@);
        current = resolve(current, &marks[k]);
        k += 1;
    }
    current
}

} // verus!
