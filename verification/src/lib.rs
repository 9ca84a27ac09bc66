//! Converts LaTeX-style commands in plain text to their Unicode equivalents.

pub mod data;
pub mod encoding;
pub mod engine;
pub mod marks;
pub mod matching;
pub mod naive_replace;
pub mod passes;
pub mod replace;
pub mod rewrite;
pub mod table_laws;

use vstd::prelude::*;
use vstd::string::StringExecFns;

verus! {

/// The version of the library.
pub const LIBRARY_VERSION: &'static str = "0.2.1";

/// Describe the version of the library and of its tables.
///
/// The format of this string may change at any time.
pub fn version_info() -> (r: String)
    ensures
        r@ == "unicodeit.rs"@ + LIBRARY_VERSION@ + "-data"@ + crate::data::DATA_VERSION@,
{
    let mut r = String::from_str("unicodeit.rs");
    r.append(LIBRARY_VERSION);
    r.append("-data");
    r.append(crate::data::DATA_VERSION);
    r
}

/// Replace the LaTeX commands of `text` with their Unicode equivalents
/// wherever possible.
pub fn replace(text: &str) -> (r: String)
    ensures
        crate::replace::replaced(text@, r@),
{
    crate::replace::replace(text)
}

} // verus!
