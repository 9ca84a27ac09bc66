//! The transform on strings, with automata for the table passes.

use crate::encoding::law_rewrite_keeps_utf8;
use crate::encoding::law_standard_tables_clean;
use crate::engine::law_empty_unchanged;
use crate::engine::law_unrecognized_unchanged;
use crate::engine::rewrite;
use crate::engine::standard_tables;
use crate::engine::unrecognized;
use crate::engine::Engine;
use vstd::prelude::*;
use vstd::utf8::encode_utf8;
use vstd::utf8::valid_utf8;

verus! {

/// What the transform owes for `text`: the string whose UTF-8 bytes are the
/// rewritten bytes of `text`.
pub open spec fn replaced(text: Seq<char>, result: Seq<char>) -> bool {
    encode_utf8(result) == rewrite(standard_tables(), encode_utf8(text))
}

/// Only one string meets [`replaced`] for a text. The implementation with
/// automata and the one without both owe it, so they return the same string.
pub proof fn law_implementations_agree(text: Seq<char>, first: Seq<char>, second: Seq<char>)
    requires
        replaced(text, first),
        replaced(text, second),
    ensures
        first == second,
{
    vstd::utf8::encode_utf8_decode_utf8(first);
    vstd::utf8::encode_utf8_decode_utf8(second);
}

/// A text in which no pass finds a command is returned unchanged.
pub proof fn law_unrecognized_text_unchanged(text: Seq<char>, result: Seq<char>)
    requires
        unrecognized(standard_tables(), encode_utf8(text)),
        replaced(text, result),
    ensures
        result == text,
{
    law_unrecognized_unchanged(standard_tables(), encode_utf8(text));
    vstd::utf8::encode_utf8_decode_utf8(text);
    vstd::utf8::encode_utf8_decode_utf8(result);
}

/// The empty text is returned empty.
pub proof fn law_empty_text_unchanged(result: Seq<char>)
    requires
        replaced(Seq::empty(), result),
    ensures
        result == Seq::<char>::empty(),
{
    let text = Seq::<char>::empty();
    assert(encode_utf8(text) =~= Seq::<u8>::empty());
    law_empty_unchanged(standard_tables());
    vstd::utf8::encode_utf8_decode_utf8(text);
    vstd::utf8::encode_utf8_decode_utf8(result);
}

/// Calls `String::from_utf8`.
/// Trusted: the call succeeds exactly on valid UTF-8, and the string it
/// gives has the bytes that it was given.
#[verifier::external_body]
fn string_from_utf8(bytes: Vec<u8>) -> (r: Option<String>)
    ensures
        match r {
            Some(s) => valid_utf8(bytes@) && encode_utf8(s@) == bytes@,
            None => !valid_utf8(bytes@),
        },
{
    String::from_utf8(bytes).ok()
}

/// Runs an engine on a string. Should the engine's tables make bytes of the
/// text that are not UTF-8, the text itself comes back.
pub fn replace_in(engine: &Engine, text: &str) -> (r: String)
    requires
        engine.wf(),
    ensures
        match valid_utf8(rewrite(engine.tables(), encode_utf8(text@))) {
            true => encode_utf8(r@) == rewrite(engine.tables(), encode_utf8(text@)),
            false => r@ == text@,
        },
{
    let bytes = engine.rewrite(text.as_bytes());
    match string_from_utf8(bytes) {
        Some(s) => s,
        None => text.to_owned(),
    }
}

/// Replace the LaTeX commands of `text` with their Unicode equivalents
/// wherever possible.
pub fn replace(text: &str) -> (r: String)
    ensures
        replaced(text@, r@),
{
    let engine = Engine::standard();
    proof {
        vstd::utf8::encode_utf8_valid_utf8(text@);
        law_standard_tables_clean();
        law_rewrite_keeps_utf8(standard_tables(), encode_utf8(text@));
    }
    replace_in(&engine, text)
}

} // verus!
