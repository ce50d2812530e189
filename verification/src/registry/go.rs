//! Go module proxy names.
use vstd::prelude::*;

use crate::text::{ascii_lower, chars_of, concat_str, string_of, to_ascii_lower_char};

verus! {

/// The case-encoding of the Go module proxy: each ASCII uppercase letter
/// becomes `!` followed by the lowercase letter.
pub open spec fn encoded_module_path(path: Seq<char>) -> Seq<char>
    decreases path.len(),
{
    if path.len() == 0 {
        Seq::empty()
    } else {
        let c = path.last();
        encoded_module_path(path.drop_last()) + if 'A' <= c && c <= 'Z' {
            seq!['!', ascii_lower(c)]
        } else {
            seq![c]
        }
    }
}

pub fn encode_module_path(path: &str) -> (r: String)
    ensures
        r@ == encoded_module_path(path@),
{
    let cs = chars_of(path);
    let mut out: Vec<char> = Vec::new();
    let mut i: usize = 0;
    while i < cs.len()
        invariant
            i <= cs@.len(),
            cs@ == path@,
            out@ == encoded_module_path(cs@.take(i as int)),
        decreases cs.len() - i,
    {
        let c = cs[i];
        assert(cs@.take(i + 1).drop_last() =~= cs@.take(i as int));
        if 'A' <= c && c <= 'Z' {
            out.push('!');
            out.push(to_ascii_lower_char(c));
        } else {
            out.push(c);
        }
        i = i + 1;
        assert(out@ =~= encoded_module_path(cs@.take(i as int)));
    }
    assert(cs@.take(cs@.len() as int) =~= cs@);
    string_of(out.as_slice())
}

/// The Go proxy address that lists a module's versions.
pub fn module_list_url(module: &str) -> (r: String)
    ensures
        r@ == "https://proxy.golang.org/"@ + encoded_module_path(module@) + "/@v/list"@,
{
    let e = encode_module_path(module);
    let a = concat_str(chars_of("https://proxy.golang.org/").as_slice(), e.as_str());
    let b = concat_str(a.as_slice(), "/@v/list");
    string_of(b.as_slice())
}

} // verus!
