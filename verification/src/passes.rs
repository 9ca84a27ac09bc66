//! The passes that do not come from a table: negation, script groups, and the
//! application of combining marks.

use crate::matching::find_byte_from;
use crate::matching::find_from;
use crate::matching::first_occurrence;
use crate::matching::lemma_next_match;
use crate::rewrite::append_range;
use crate::rewrite::apply_edits;
use crate::rewrite::edit_views;
use crate::rewrite::edits_in_range;
use crate::rewrite::replace_with;
use crate::rewrite::Edit;
use crate::rewrite::EditView;
use vstd::prelude::*;
use vstd::utf8::encode_utf8;

verus! {

/// `A`..=`Z` or `a`..=`z`.
pub open spec fn is_ascii_alphabetic(b: u8) -> bool {
    (0x41 <= b <= 0x5a) || (0x61 <= b <= 0x7a)
}

/// The number of ASCII letters that follow one another from offset `at` on.
pub open spec fn alphabetic_run(text: Seq<u8>, at: int) -> int
    decreases text.len() - at,
{
    if 0 <= at < text.len() && is_ascii_alphabetic(text[at]) {
        1 + alphabetic_run(text, at + 1)
    } else {
        0
    }
}

/// The five bytes `\not\`.
pub open spec fn negation_prefix() -> Seq<u8> {
    seq![0x5c, 0x6e, 0x6f, 0x74, 0x5c]
}

/// The seven bytes `\slash{`.
pub open spec fn slash_open() -> Seq<u8> {
    seq![0x5c, 0x73, 0x6c, 0x61, 0x73, 0x68, 0x7b]
}

/// The edits of the negation pass from offset `from` on. Each occurrence of
/// `\not\` that letters follow becomes `\slash{`, the letters and `}`; one
/// that no letter follows proposes nothing. The next occurrence is looked for
/// behind the five bytes.
pub open spec fn negation_edits(text: Seq<u8>, from: int) -> Seq<EditView>
    decreases text.len() + 1 - from,
{
    match first_occurrence(text, negation_prefix(), from) {
        Some(i) => if from <= i && i + 5 <= text.len() {
            let run = alphabetic_run(text, i + 5);
            let here = if run > 0 {
                seq![
                    EditView {
                        start: i,
                        len: 5 + run,
                        replacement: slash_open() + text.subrange(i + 5, i + 5 + run) + seq![0x7du8],
                    },
                ]
            } else {
                Seq::empty()
            };
            here + negation_edits(text, i + 5)
        } else {
            Seq::empty()
        },
        None => Seq::empty(),
    }
}

/// The text after the negation pass.
pub open spec fn negation_pass(text: Seq<u8>) -> Seq<u8> {
    apply_edits(text, negation_edits(text, 0), 0, 0)
}

/// The length of the run of ASCII letters that starts at `at`.
pub fn count_alphabetic(text: &[u8], at: usize) -> (n: usize)
    requires
        at <= text@.len(),
    ensures
        n == alphabetic_run(text@, at as int),
        at + n <= text@.len(),
{
    let mut end: usize = at;
    while end < text.len() && ((0x41 <= text[end] && text[end] <= 0x5a) || (0x61 <= text[end]
        && text[end] <= 0x7a))
        invariant
            at <= end <= text@.len(),
            alphabetic_run(text@, at as int) == (end - at) + alphabetic_run(text@, end as int),
        decreases text@.len() - end,
    {
        end += 1;
    }
    end - at
}

/// Rewrites every `\not\` that a run of ASCII letters follows into `\slash{`,
/// the run and `}`.
pub fn negate(text: &[u8]) -> (r: Vec<u8>)
    ensures
        r@ == negation_pass(text@),
{
    let needle: [u8; 5] = [0x5c, 0x6e, 0x6f, 0x74, 0x5c];
    let opening: [u8; 7] = [0x5c, 0x73, 0x6c, 0x61, 0x73, 0x68, 0x7b];
    assert(needle@ =~= negation_prefix());
    assert(opening@ =~= slash_open());
    let total: usize = text.len();
    let mut edits: Vec<Edit> = Vec::new();
    let mut from: usize = 0;
    assert(edit_views(edits@) =~= Seq::<EditView>::empty());
    loop
        invariant
            needle@ == negation_prefix(),
            opening@ == slash_open(),
            total == text@.len(),
            from <= total,
            edits_in_range(edit_views(edits@), total as int),
            negation_edits(text@, 0) == edit_views(edits@) + negation_edits(text@, from as int),
        ensures
            edits_in_range(edit_views(edits@), total as int),
            negation_edits(text@, 0) == edit_views(edits@),
        decreases total - from,
    {
        proof {
            lemma_next_match(seq![negation_prefix()], text@, from as int);
        }
        match find_from(text, needle.as_slice(), from) {
            Some(i) => {
                let run: usize = count_alphabetic(text, i + 5);
                if run > 0 {
                    let ghost before = edit_views(edits@);
                    let mut replacement: Vec<u8> = Vec::new();
                    append_range(&mut replacement, opening.as_slice(), 0, 7);
                    append_range(&mut replacement, text, i + 5, i + 5 + run);
                    replacement.push(0x7d);
                    assert(replacement@ =~= slash_open() + text@.subrange(i + 5, i + 5 + run)
                        + seq![0x7du8]);
                    let edit = Edit { start: i, len: 5 + run, replacement };
                    edits.push(edit);
                    assert(edit_views(edits@) =~= before + seq![edit@]);
                    assert(before + (seq![edit@] + negation_edits(text@, i + 5)) =~= edit_views(
                        edits@,
                    ) + negation_edits(text@, i + 5));
                } else {
                    assert(Seq::<EditView>::empty() + negation_edits(text@, i + 5)
                        =~= negation_edits(text@, i + 5));
                }
                from = i + 5;
            },
            None => {
                break ;
            },
        }
    }
    replace_with(text, &edits)
}

/// The two kinds of script group.
#[derive(Clone, Copy, Debug, PartialEq, Eq)]
pub enum Script {
    Sub,
    Super,
}

impl Script {
    /// The control byte: `_` for subscripts, `^` for superscripts.
    pub open spec fn control(self) -> u8 {
        match self {
            Script::Sub => 0x5f,
            Script::Super => 0x5e,
        }
    }

    /// The Latin letters that may stand in a group of this kind.
    pub open spec fn letters(self) -> Seq<u8> {
        match self {
            Script::Sub => sub_letters(),
            Script::Super => super_letters(),
        }
    }
}

/// `aeoxjhklmnpstiruv`
pub open spec fn sub_letters() -> Seq<u8> {
    seq![
        0x61, 0x65, 0x6f, 0x78, 0x6a, 0x68, 0x6b, 0x6c, 0x6d, 0x6e, 0x70, 0x73, 0x74, 0x69, 0x72,
        0x75, 0x76,
    ]
}

/// `ABDEGHIJKLMNOPRTUW` and `abcdefghijklmnoprstuvwxyz`
pub open spec fn super_letters() -> Seq<u8> {
    seq![
        0x41, 0x42, 0x44, 0x45, 0x47, 0x48, 0x49, 0x4a, 0x4b, 0x4c, 0x4d, 0x4e, 0x4f, 0x50, 0x52,
        0x54, 0x55, 0x57, 0x61, 0x62, 0x63, 0x64, 0x65, 0x66, 0x67, 0x68, 0x69, 0x6a, 0x6b, 0x6c,
        0x6d, 0x6e, 0x6f, 0x70, 0x72, 0x73, 0x74, 0x75, 0x76, 0x77, 0x78, 0x79, 0x7a,
    ]
}

/// The number of bytes that a UTF-8 scalar with this first byte takes. A byte
/// that cannot start a scalar counts as one unit of its own.
pub open spec fn scalar_width(b: u8) -> int {
    if 0xc0 <= b < 0xe0 {
        2
    } else if 0xe0 <= b < 0xf0 {
        3
    } else if 0xf0 <= b < 0xf8 {
        4
    } else {
        1
    }
}

/// Where the scalar that starts at `at` ends, inside `text[..end]`: a scalar
/// that `end` would cut is taken as far as `end`.
pub open spec fn scalar_end(text: Seq<u8>, at: int, end: int) -> int {
    if 0 <= at < end <= text.len() && at + scalar_width(text[at]) <= end {
        at + scalar_width(text[at])
    } else {
        end
    }
}

/// Whether the character `c`, encoded as the bytes `s`, is the scalar.
pub open spec fn is_char(s: Seq<u8>, c: &str) -> bool {
    s == encode_utf8(c@)
}

/// Whether the scalar with the bytes `s` may stand in a group of this kind:
/// the ASCII characters from `+` to `=` (the digits among them), `(`, `)`,
/// `>` and the letters of the kind; the minus sign U+2212; of the Greek
/// letters beta, gamma, phi and chi, with rho in subscripts and delta in
/// superscripts; and in superscripts the integral sign U+222B.
pub open spec fn allowed_scalar(script: Script, s: Seq<u8>) -> bool {
    ||| (s.len() == 1 && s[0] < 0x80 && ((0x2b <= s[0] <= 0x3d) || s[0] == 0x28 || s[0] == 0x29
        || s[0] == 0x3e || script.letters().contains(s[0])))
    ||| is_char(s, "\u{3b2}")
    ||| is_char(s, "\u{3b3}")
    ||| is_char(s, "\u{3c6}")
    ||| is_char(s, "\u{3c7}")
    ||| is_char(s, "\u{2212}")
    ||| (script == Script::Sub && is_char(s, "\u{3c1}"))
    ||| (script == Script::Super && (is_char(s, "\u{3b4}") || is_char(s, "\u{222b}")))
}

/// Every scalar of `text[at..end]` may stand in a group of this kind.
pub open spec fn group_allowed(script: Script, text: Seq<u8>, at: int, end: int) -> bool
    decreases end - at,
{
    if 0 <= at < end <= text.len() {
        allowed_scalar(script, text.subrange(at, scalar_end(text, at, end))) && group_allowed(
            script,
            text,
            scalar_end(text, at, end),
            end,
        )
    } else {
        true
    }
}

/// The scalars of `text[at..end]`, each behind a control byte of its own.
pub open spec fn expand_group(control: u8, text: Seq<u8>, at: int, end: int) -> Seq<u8>
    decreases end - at,
{
    if 0 <= at < end <= text.len() {
        seq![control] + text.subrange(at, scalar_end(text, at, end)) + expand_group(
            control,
            text,
            scalar_end(text, at, end),
            end,
        )
    } else {
        Seq::empty()
    }
}

/// The edits of a script-group pass from offset `from` on. At each occurrence
/// of the control byte and `{`, the group runs to the next `}`. A group that
/// is closed, not empty and holds allowed scalars only is replaced by its
/// expansion; any other proposes nothing. The next occurrence is looked for
/// behind the two bytes.
pub open spec fn script_edits(script: Script, text: Seq<u8>, from: int) -> Seq<EditView>
    decreases text.len() + 1 - from,
{
    match first_occurrence(text, seq![script.control(), 0x7bu8], from) {
        Some(i) => if from <= i && i + 2 <= text.len() {
            let here = match first_occurrence(text, seq![0x7du8], i + 2) {
                Some(j) => if i + 2 < j < text.len() && group_allowed(script, text, i + 2, j) {
                    seq![
                        EditView {
                            start: i,
                            len: j + 1 - i,
                            replacement: expand_group(script.control(), text, i + 2, j),
                        },
                    ]
                } else {
                    Seq::empty()
                },
                None => Seq::empty(),
            };
            here + script_edits(script, text, i + 2)
        } else {
            Seq::empty()
        },
        None => Seq::empty(),
    }
}

/// The text after the script-group pass of one kind.
pub open spec fn script_pass(script: Script, text: Seq<u8>) -> Seq<u8> {
    apply_edits(text, script_edits(script, text, 0), 0, 0)
}

/// Whether `set` holds `b`.
pub fn byte_in(set: &[u8], b: u8) -> (r: bool)
    ensures
        r == set@.contains(b),
{
    proof {
        lemma_next_match(seq![seq![b]], set@, 0);
    }
    match find_byte_from(set, b, 0) {
        Some(i) => {
            proof {
                let pats = seq![seq![b]];
                crate::matching::lemma_first_pattern_at(pats, set@, i as int, 0);
                assert(crate::matching::matches_at(set@, pats[0], i as int));
                assert(set@.subrange(i as int, i + 1)[0] == set@[i as int]);
                assert(set@[i as int] == b);
            }
            true
        },
        None => {
            assert forall|p: int| 0 <= p < set@.len() implies set@[p] != b by {
                let pats = seq![seq![b]];
                crate::matching::lemma_first_pattern_at(pats, set@, p, 0);
                assert(!crate::matching::matches_at(set@, pats[0], p));
                if set@[p] == b {
                    assert(set@.subrange(p, p + 1) =~= seq![b]);
                }
            }
            false
        },
    }
}

/// Where the scalar at `at` ends inside `text[..end]`.
pub fn scalar_end_at(text: &[u8], at: usize, end: usize) -> (r: usize)
    requires
        at < end <= text@.len(),
    ensures
        r == scalar_end(text@, at as int, end as int),
        at < r <= end,
{
    let b: u8 = text[at];
    let width: usize = if 0xc0 <= b && b < 0xe0 {
        2
    } else if 0xe0 <= b && b < 0xf0 {
        3
    } else if 0xf0 <= b && b < 0xf8 {
        4
    } else {
        1
    };
    if width <= end - at {
        at + width
    } else {
        end
    }
}

/// Whether the bytes `text[from..to]` are the character `c`.
pub fn same_char(text: &[u8], from: usize, to: usize, c: &str) -> (r: bool)
    requires
        from <= to <= text@.len(),
    ensures
        r == is_char(text@.subrange(from as int, to as int), c),
{
    let bytes = c.as_bytes();
    if bytes.len() != to - from {
        return false;
    }
    let r = crate::matching::pattern_at(text, bytes, from);
    r
}

/// Whether the scalar `text[from..to]` may stand in a group of this kind.
pub fn is_allowed(script: Script, text: &[u8], from: usize, to: usize) -> (r: bool)
    requires
        from < to <= text@.len(),
    ensures
        r == allowed_scalar(script, text@.subrange(from as int, to as int)),
{
    let ghost s = text@.subrange(from as int, to as int);
    let superscript = matches!(script, Script::Super);
    let b: u8 = text[from];
    assert(s[0] == b);
    let ascii = if to - from == 1 && b < 0x80 {
        if (0x2b <= b && b <= 0x3d) || b == 0x28 || b == 0x29 || b == 0x3e {
            true
        } else if superscript {
            let letters: [u8; 43] = [
                0x41, 0x42, 0x44, 0x45, 0x47, 0x48, 0x49, 0x4a, 0x4b, 0x4c, 0x4d, 0x4e, 0x4f, 0x50,
                0x52, 0x54, 0x55, 0x57, 0x61, 0x62, 0x63, 0x64, 0x65, 0x66, 0x67, 0x68, 0x69, 0x6a,
                0x6b, 0x6c, 0x6d, 0x6e, 0x6f, 0x70, 0x72, 0x73, 0x74, 0x75, 0x76, 0x77, 0x78, 0x79,
                0x7a,
            ];
            assert(letters@ =~= super_letters());
            byte_in(letters.as_slice(), b)
        } else {
            let letters: [u8; 17] = [
                0x61, 0x65, 0x6f, 0x78, 0x6a, 0x68, 0x6b, 0x6c, 0x6d, 0x6e, 0x70, 0x73, 0x74, 0x69,
                0x72, 0x75, 0x76,
            ];
            assert(letters@ =~= sub_letters());
            byte_in(letters.as_slice(), b)
        }
    } else {
        false
    };
    ascii || same_char(text, from, to, "\u{3b2}") || same_char(text, from, to, "\u{3b3}")
        || same_char(text, from, to, "\u{3c6}") || same_char(text, from, to, "\u{3c7}")
        || same_char(text, from, to, "\u{2212}") || (!superscript && same_char(
        text,
        from,
        to,
        "\u{3c1}",
    )) || (superscript && (same_char(text, from, to, "\u{3b4}") || same_char(
        text,
        from,
        to,
        "\u{222b}",
    )))
}

/// The expansion of the group `text[at..end]`, where every scalar of it is allowed.
pub fn expand(script: Script, text: &[u8], at: usize, end: usize) -> (r: Option<Vec<u8>>)
    requires
        at <= end <= text@.len(),
    ensures
        match r {
            Some(v) => group_allowed(script, text@, at as int, end as int) && v@ == expand_group(
                script.control(),
                text@,
                at as int,
                end as int,
            ),
            None => !group_allowed(script, text@, at as int, end as int),
        },
{
    let control: u8 = match script {
        Script::Sub => 0x5f,
        Script::Super => 0x5e,
    };
    let mut out: Vec<u8> = Vec::new();
    let mut p: usize = at;
    while p < end
        invariant
            at <= p <= end <= text@.len(),
            control == script.control(),
            group_allowed(script, text@, at as int, end as int) == group_allowed(
                script,
                text@,
                p as int,
                end as int,
            ),
            expand_group(control, text@, at as int, end as int) == out@ + expand_group(
                control,
                text@,
                p as int,
                end as int,
            ),
        decreases end - p,
    {
        let q: usize = scalar_end_at(text, p, end);
        if !is_allowed(script, text, p, q) {
            return None;
        }
        let ghost before = out@;
        out.push(control);
        append_range(&mut out, text, p, q);
        assert(before + (seq![control] + text@.subrange(p as int, q as int) + expand_group(
            control,
            text@,
            q as int,
            end as int,
        )) =~= out@ + expand_group(control, text@, q as int, end as int));
        p = q;
    }
    assert(out@ + Seq::<u8>::empty() =~= out@);
    Some(out)
}

/// Unrolls the script groups of one kind: `_{12}` becomes `_1_2`.
pub fn expand_script_groups(script: Script, text: &[u8]) -> (r: Vec<u8>)
    ensures
        r@ == script_pass(script, text@),
{
    let control: u8 = match script {
        Script::Sub => 0x5f,
        Script::Super => 0x5e,
    };
    let needle: [u8; 2] = [control, 0x7b];
    assert(needle@ =~= seq![script.control(), 0x7bu8]);
    let total: usize = text.len();
    let mut edits: Vec<Edit> = Vec::new();
    let mut from: usize = 0;
    assert(edit_views(edits@) =~= Seq::<EditView>::empty());
    loop
        invariant
            needle@ == seq![script.control(), 0x7bu8],
            total == text@.len(),
            from <= total,
            edits_in_range(edit_views(edits@), total as int),
            script_edits(script, text@, 0) == edit_views(edits@) + script_edits(
                script,
                text@,
                from as int,
            ),
        ensures
            edits_in_range(edit_views(edits@), total as int),
            script_edits(script, text@, 0) == edit_views(edits@),
        decreases total - from,
    {
        proof {
            lemma_next_match(seq![seq![script.control(), 0x7bu8]], text@, from as int);
        }
        match find_from(text, needle.as_slice(), from) {
            Some(i) => {
                proof {
                    lemma_next_match(seq![seq![0x7du8]], text@, i + 2);
                }
                let mut proposed: Option<Edit> = None;
                match find_byte_from(text, 0x7d, i + 2) {
                    Some(j) => {
                        if i + 2 < j {
                            match expand(script, text, i + 2, j) {
                                Some(replacement) => {
                                    proposed = Some(Edit { start: i, len: j + 1 - i, replacement });
                                },
                                None => {},
                            }
                        }
                    },
                    None => {},
                }
                match proposed {
                    Some(edit) => {
                        let ghost before = edit_views(edits@);
                        edits.push(edit);
                        assert(edit_views(edits@) =~= before + seq![edit@]);
                        assert(before + (seq![edit@] + script_edits(script, text@, i + 2))
                            =~= edit_views(edits@) + script_edits(script, text@, i + 2));
                    },
                    None => {
                        assert(Seq::<EditView>::empty() + script_edits(script, text@, i + 2)
                            =~= script_edits(script, text@, i + 2));
                    },
                }
                from = i + 2;
            },
            None => {
                break ;
            },
        }
    }
    replace_with(text, &edits)
}

} // verus!
