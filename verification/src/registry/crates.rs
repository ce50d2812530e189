//! crates.io names.
use vstd::prelude::*;

use crate::text::{chars_of, concat_str, replace_char, replace_char_with, string_of, to_lowercase, unicode_lowercase};

verus! {

/// The form crates.io looks a crate up by: `_` becomes `-`, then lowercase.
pub open spec fn normalized_crate_name(name: Seq<char>) -> Seq<char> {
    unicode_lowercase(replace_char(name, '_', seq!['-']))
}

pub fn normalize_crate_name(name: &str) -> (r: String)
    ensures
        r@ == normalized_crate_name(name@),
{
    let cs = chars_of(name);
    let dashed = replace_char_with(cs.as_slice(), '_', '-');
    let low = to_lowercase(dashed.as_slice());
    string_of(low.as_slice())
}

/// The crates.io API address for a crate.
pub fn crate_url(crate_name: &str) -> (r: String)
    ensures
        r@ == "https://crates.io/api/v1/crates/"@ + normalized_crate_name(crate_name@),
{
    let n = normalize_crate_name(crate_name);
    let base = chars_of("https://crates.io/api/v1/crates/");
    let u = concat_str(base.as_slice(), n.as_str());
    string_of(u.as_slice())
}

} // verus!
