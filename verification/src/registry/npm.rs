//! npm registry names.
use vstd::prelude::*;

use crate::text::{chars_of, concat_str, has_prefix, replace_char, replace_str, starts_with, string_of};

verus! {

/// Scoped packages (`@scope/name`) are escaped: `@` as `%40`, `/` as `%2f`;
/// other names are used as they are.
pub open spec fn encoded_package_name(name: Seq<char>) -> Seq<char> {
    if name.len() > 0 && name[0] == '@' {
        replace_char(replace_char(name, '@', "%40"@), '/', "%2f"@)
    } else {
        name
    }
}

pub fn encode_package_name(name: &str) -> (r: String)
    ensures
        r@ == encoded_package_name(name@),
{
    let cs = chars_of(name);
    if cs.len() > 0 && cs[0] == '@' {
        let at = chars_of("%40");
        let slash = chars_of("%2f");
        let a = crate::text::replace_char_by(cs.as_slice(), '@', at.as_slice());
        let b = crate::text::replace_char_by(a.as_slice(), '/', slash.as_slice());
        string_of(b.as_slice())
    } else {
        string_of(cs.as_slice())
    }
}

/// The npm registry address for a package.
pub fn package_url(package: &str) -> (r: String)
    ensures
        r@ == "https://registry.npmjs.org/"@ + encoded_package_name(package@),
{
    let e = encode_package_name(package);
    let a = concat_str(chars_of("https://registry.npmjs.org/").as_slice(), e.as_str());
    string_of(a.as_slice())
}

} // verus!
