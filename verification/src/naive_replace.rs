//! The transform on strings without automata: every table pass tries each
//! offset and, at each, each pattern in table order.

use crate::encoding::law_rewrite_keeps_utf8;
use crate::encoding::law_standard_tables_clean;
use crate::engine::standard_tables;
use crate::engine::Engine;
use crate::replace::replace_in;
use crate::replace::replaced;
use vstd::prelude::*;

verus! {

/// Replace the LaTeX commands of `text` with their Unicode equivalents
/// wherever possible. The result is that of [`crate::replace::replace`].
pub fn replace(text: &str) -> (r: String)
    ensures
        replaced(text@, r@),
{
    let engine = Engine::scanning();
    proof {
        vstd::utf8::encode_utf8_valid_utf8(text@);
        law_standard_tables_clean();
        law_rewrite_keeps_utf8(standard_tables(), vstd::utf8::encode_utf8(text@));
    }
    replace_in(&engine, text)
}

} // verus!
