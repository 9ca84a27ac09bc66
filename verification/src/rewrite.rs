//! The copy-forward driver that all scanning passes share, and the pass that
//! substitutes the entries of a table.

use crate::matching::next_match;
use crate::matching::Matcher;
use vstd::prelude::*;

verus! {

/// A replacement that a pass proposes: the bytes `start..start + len` of the
/// text give way to `replacement`.
pub struct Edit {
    pub start: usize,
    pub len: usize,
    pub replacement: Vec<u8>,
}

/// An [`Edit`] as a mathematical value.
pub ghost struct EditView {
    pub start: int,
    pub len: int,
    pub replacement: Seq<u8>,
}

impl View for Edit {
    type V = EditView;

    open spec fn view(&self) -> EditView {
        EditView { start: self.start as int, len: self.len as int, replacement: self.replacement@ }
    }
}

/// The views of a sequence of edits.
pub open spec fn edit_views(edits: Seq<Edit>) -> Seq<EditView> {
    Seq::new(edits.len(), |i: int| edits[i]@)
}

/// Every edit lies inside a text of `len` bytes.
pub open spec fn edits_in_range(edits: Seq<EditView>, len: int) -> bool {
    forall|i: int|
        0 <= i < edits.len() ==> 0 <= (#[trigger] edits[i]).start && 0 <= edits[i].len
            && edits[i].start + edits[i].len <= len
}

/// The text rewritten by the edits from index `k` on, with the bytes before
/// `cursor` already consumed. An edit that starts before the cursor overlaps
/// an earlier one and is dropped. Otherwise the untouched bytes up to its
/// start are copied, its replacement follows, and the cursor moves to its end.
pub open spec fn apply_edits(text: Seq<u8>, edits: Seq<EditView>, k: int, cursor: int) -> Seq<u8>
    decreases edits.len() - k,
{
    if k < 0 || k >= edits.len() {
        text.subrange(cursor, text.len() as int)
    } else if edits[k].start < cursor {
        apply_edits(text, edits, k + 1, cursor)
    } else {
        text.subrange(cursor, edits[k].start) + edits[k].replacement + apply_edits(
            text,
            edits,
            k + 1,
            edits[k].start + edits[k].len,
        )
    }
}

/// Appends the bytes `from..to` of `src` to `buffer`.
pub fn append_range(buffer: &mut Vec<u8>, src: &[u8], from: usize, to: usize)
    requires
        from <= to <= src@.len(),
    ensures
        final(buffer)@ == old(buffer)@ + src@.subrange(from as int, to as int),
{
    let mut i: usize = from;
    while i < to
        invariant
            from <= i <= to <= src@.len(),
            buffer@ == old(buffer)@ + src@.subrange(from as int, i as int),
        decreases to - i,
    {
        buffer.push(src[i]);
        i += 1;
        assert(buffer@ =~= old(buffer)@ + src@.subrange(from as int, i as int));
    }
    assert(buffer@ =~= old(buffer)@ + src@.subrange(from as int, to as int));
}

/// Rewrites `source` by a list of proposed edits, taken in order:
/// see [`apply_edits`].
pub fn replace_with(source: &[u8], edits: &Vec<Edit>) -> (buffer: Vec<u8>)
    requires
        edits_in_range(edit_views(edits@), source@.len() as int),
    ensures
        buffer@ == apply_edits(source@, edit_views(edits@), 0, 0),
{
    let ghost text = source@;
    let ghost views = edit_views(edits@);
    let mut buffer: Vec<u8> = Vec::new();
    let total: usize = source.len();
    let mut last_index: usize = 0;
    let mut k: usize = 0;
    while k < edits.len()
        invariant
            text == source@,
            total == text.len(),
            views == edit_views(edits@),
            edits_in_range(views, text.len() as int),
            k <= edits.len(),
            last_index <= text.len(),
            apply_edits(text, views, 0, 0) == buffer@ + apply_edits(
                text,
                views,
                k as int,
                last_index as int,
            ),
        decreases edits.len() - k,
    {
        let edit = &edits[k];
        assert(views[k as int] == edit@);
        if edit.start >= last_index {
            let ghost before = buffer@;
            append_range(&mut buffer, source, last_index, edit.start);
            append_range(&mut buffer, edit.replacement.as_slice(), 0, edit.replacement.len());
            assert(edit.replacement@.subrange(0, edit.replacement@.len() as int)
                =~= edit.replacement@);
            assert(buffer@ + apply_edits(text, views, k + 1, edit.start + edit.len) =~= before + (
            text.subrange(last_index as int, edit.start as int) + edit.replacement@ + apply_edits(
                text,
                views,
                k + 1,
                edit.start + edit.len,
            )));
            last_index = edit.start + edit.len;
        }
        k += 1;
    }
    append_range(&mut buffer, source, last_index, total);
    buffer
}

/// A table entry: where `pattern` stands in the text, `replacement` takes its place.
pub struct Rule {
    pub pattern: Vec<u8>,
    pub replacement: Vec<u8>,
}

impl View for Rule {
    type V = (Seq<u8>, Seq<u8>);

    open spec fn view(&self) -> (Seq<u8>, Seq<u8>) {
        (self.pattern@, self.replacement@)
    }
}

/// The views of a sequence of rules.
pub open spec fn rule_views(rules: Seq<Rule>) -> Seq<(Seq<u8>, Seq<u8>)> {
    Seq::new(rules.len(), |i: int| rules[i]@)
}

/// The patterns of a table, in table order.
pub open spec fn rule_patterns(rules: Seq<(Seq<u8>, Seq<u8>)>) -> Seq<Seq<u8>> {
    Seq::new(rules.len(), |i: int| rules[i].0)
}

/// The edits that a table proposes for `text` from offset `from` on: one for
/// each leftmost-first match, each search starting where the last match ended.
pub open spec fn rule_edits(rules: Seq<(Seq<u8>, Seq<u8>)>, text: Seq<u8>, from: int) -> Seq<
    EditView,
>
    decreases text.len() + 1 - from,
{
    match next_match(rule_patterns(rules), text, from) {
        Some(m) => if from < m.1 <= text.len() && 0 <= m.2 < rules.len() {
            seq![EditView { start: m.0, len: m.1 - m.0, replacement: rules[m.2].1 }] + rule_edits(
                rules,
                text,
                m.1,
            )
        } else {
            Seq::empty()
        },
        None => Seq::empty(),
    }
}

/// `text` with every leftmost-first match of the table replaced by its entry's value.
pub open spec fn substitute(rules: Seq<(Seq<u8>, Seq<u8>)>, text: Seq<u8>) -> Seq<u8> {
    apply_edits(text, rule_edits(rules, text, 0), 0, 0)
}

/// A table compiled for substitution.
pub struct Substitution {
    matcher: Matcher,
    values: Vec<Vec<u8>>,
}

impl Substitution {
    /// The table, in order.
    pub closed spec fn rules(&self) -> Seq<(Seq<u8>, Seq<u8>)> {
        Seq::new(self.values@.len(), |i: int| (self.matcher.patterns()[i], self.values@[i]@))
    }

    /// The matcher is sound and holds one pattern for each value.
    pub closed spec fn wf(&self) -> bool {
        self.matcher.wf() && self.matcher.patterns().len() == self.values@.len()
    }

    /// Compiles a table. With `automaton` the search uses an Aho-Corasick
    /// automaton where one can be built; without, it scans.
    pub fn new(rules: Vec<Rule>, automaton: bool) -> (s: Substitution)
        ensures
            s.wf(),
            s.rules() == rule_views(rules@),
    {
        let mut pats: Vec<Vec<u8>> = Vec::new();
        let mut values: Vec<Vec<u8>> = Vec::new();
        let mut k: usize = 0;
        while k < rules.len()
            invariant
                k <= rules.len(),
                pats@.len() == k,
                values@.len() == k,
                forall|i: int| 0 <= i < k ==> (#[trigger] pats@[i])@ == rules@[i].pattern@,
                forall|i: int| 0 <= i < k ==> (#[trigger] values@[i])@ == rules@[i].replacement@,
            decreases rules.len() - k,
        {
            pats.push(vstd::slice::slice_to_vec(rules[k].pattern.as_slice()));
            values.push(vstd::slice::slice_to_vec(rules[k].replacement.as_slice()));
            k += 1;
        }
        let matcher = if automaton {
            Matcher::new(pats)
        } else {
            Matcher::scanning(pats)
        };
        let s = Substitution { matcher, values };
        assert(s.rules() =~= rule_views(rules@));
        s
    }

    /// Replaces every leftmost-first match of the table in `text`.
    pub fn apply(&self, text: &[u8]) -> (r: Vec<u8>)
        requires
            self.wf(),
        ensures
            r@ == substitute(self.rules(), text@),
    {
        let ghost rules = self.rules();
        let mut edits: Vec<Edit> = Vec::new();
        let mut from: usize = 0;
        assert(rule_patterns(rules) =~= self.matcher.patterns());
        assert(edit_views(edits@) =~= Seq::<EditView>::empty());
        loop
            invariant
                self.wf(),
                rules == self.rules(),
                rule_patterns(rules) == self.matcher.patterns(),
                from <= text@.len(),
                edits_in_range(edit_views(edits@), text@.len() as int),
                rule_edits(rules, text@, 0) == edit_views(edits@) + rule_edits(
                    rules,
                    text@,
                    from as int,
                ),
            ensures
                edits_in_range(edit_views(edits@), text@.len() as int),
                rule_edits(rules, text@, 0) == edit_views(edits@),
            decreases text@.len() - from,
        {
            proof {
                crate::matching::lemma_next_match(rule_patterns(rules), text@, from as int);
            }
            match self.matcher.find(text, from) {
                Some(m) => {
                    if m.end <= from {
                        break ;
                    }
                    let ghost before = edit_views(edits@);
                    let replacement = vstd::slice::slice_to_vec(self.values[m.pattern].as_slice());
                    let edit = Edit { start: m.start, len: m.end - m.start, replacement };
                    edits.push(edit);
                    assert(edit_views(edits@) =~= before + seq![edit@]);
                    assert(rules[m.pattern as int].1 == edit@.replacement);
                    assert(before + (seq![edit@] + rule_edits(rules, text@, m.end as int))
                        =~= edit_views(edits@) + rule_edits(rules, text@, m.end as int));
                    from = m.end;
                },
                None => {
                    break ;
                },
            }
        }
        replace_with(text, &edits)
    }
}

} // verus!
