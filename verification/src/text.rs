//! Conversions between strings and sequences of characters.

use vstd::prelude::*;
use vstd::std_specs::iter::IteratorSpec;

verus! {

/// The characters of `s`, in order.
pub fn to_chars(s: &str) -> (v: Vec<char>)
    ensures
        v@ == s@,
{
    broadcast use vstd::string::group_string_axioms;

    let mut v: Vec<char> = Vec::new();
    let mut it = s.chars();
    loop
        invariant
            v@.len() <= s@.len(),
            v@ == s@.subrange(0, v@.len() as int),
            it.remaining() == s@.subrange(v@.len() as int, s@.len() as int),
        decreases s@.len() - v@.len(),
    {
        let ghost before = it;
        match it.next() {
            Some(c) => {
                assert(before.remaining().len() > 0);
                assert(c == s@[v@.len() as int]);
                v.push(c);
                assert(v@ =~= s@.subrange(0, v@.len() as int));
                assert(it.remaining() =~= s@.subrange(v@.len() as int, s@.len() as int));
            },
            None => {
                assert(before.remaining().len() == 0);
                assert(v@ =~= s@);
                return v;
            },
        }
    }
}

} // verus!
