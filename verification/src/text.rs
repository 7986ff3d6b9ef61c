//! Small verified helpers on strings.

use vstd::prelude::*;
use vstd::std_specs::iter::IteratorSpec;
use vstd::string::*;

verus! {

/// What an optional string holds.
pub open spec fn opt_view(o: Option<String>) -> Option<Seq<char>> {
    match o {
        Some(s) => Some(s@),
        None => None,
    }
}

/// What an optional string slice holds.
pub open spec fn opt_str_view(o: Option<&str>) -> Option<Seq<char>> {
    match o {
        Some(s) => Some(s@),
        None => None,
    }
}

/// Copies an optional string.
pub fn copy_opt(o: &Option<String>) -> (r: Option<String>)
    ensures
        r == *o,
{
    match o {
        Some(s) => Some(s.clone()),
        None => None,
    }
}

/// Decides whether `s` begins with `prefix`.
pub fn starts_with(s: &str, prefix: &str) -> (r: bool)
    ensures
        r == prefix@.is_prefix_of(s@),
{
    broadcast use vstd::string::group_string_axioms;

    let mut wanted = prefix.chars();
    let mut given = s.chars();
    let ghost mut i: int = 0;
    loop
        invariant
            0 <= i <= prefix@.len(),
            i <= s@.len(),
            wanted.remaining() == prefix@.skip(i),
            given.remaining() == s@.skip(i),
            forall|j: int| 0 <= j < i ==> s@[j] == prefix@[j],
        decreases prefix@.len() - i,
    {
        proof {
            assert(prefix@.skip(i).len() > 0 ==> prefix@.skip(i).drop_first() =~= prefix@.skip(
                i + 1,
            ));
            assert(s@.skip(i).len() > 0 ==> s@.skip(i).drop_first() =~= s@.skip(i + 1));
        }
        let p = match wanted.next() {
            Some(p) => p,
            None => {
                assert(prefix@ =~= s@.subrange(0, i));
                return true;
            },
        };
        match given.next() {
            Some(c) => {
                if c != p {
                    assert(prefix@.len() <= s@.len() ==> s@.subrange(0, prefix@.len() as int)[i]
                        != prefix@[i]);
                    return false;
                }
            },
            None => {
                return false;
            },
        }
        proof {
            i = i + 1;
        }
    }
}

} // verus!
