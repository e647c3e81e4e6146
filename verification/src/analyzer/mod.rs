//! API analysis: signatures, change classification, change detection and
//! the transforms that follow from changes.
pub mod change;
pub mod config;
pub mod detection;
pub mod detector;
pub mod extractor;
pub mod generator;
pub mod params;
pub mod rules;
pub mod signature;
pub mod syntax;

use vstd::prelude::*;

use crate::text::{chars_of, replace_char, replace_char_exec, string_of, sub_chars, trim_start_char};

verus! {

/// A version as it may stand in a name: without leading `v`s, and with `.`
/// and `/` turned into `-`.
pub open spec fn sanitized_version(version: Seq<char>) -> Seq<char> {
    replace_char(replace_char(trim_start_char(version, 'v'), '.', '-'), '/', '-')
}

/// Make a version usable in a name.
pub fn sanitize_version(version: &str) -> (r: String)
    ensures
        r@ == sanitized_version(version@),
{
    let v = chars_of(version);
    let mut a: usize = 0;
    assert(v@.skip(0) =~= v@);
    while a < v.len() && v[a] == 'v'
        invariant
            0 <= a <= v.len(),
            trim_start_char(v@, 'v') == trim_start_char(v@.skip(a as int), 'v'),
        decreases v.len() - a,
    {
        assert(v@.skip(a as int).drop_first() =~= v@.skip(a + 1));
        a = a + 1;
    }
    let rest = sub_chars(&v, a, v.len());
    assert(rest@ =~= v@.skip(a as int));
    let dashed = replace_char_exec(&replace_char_exec(&rest, '.', '-'), '/', '-');
    string_of(&dashed)
}

} // verus!
