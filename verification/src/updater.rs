//! Update planning: mapping a source file name to the path that file
//! replaces. Copying files and launching programs is the caller's part.

use vstd::prelude::*;

use crate::text::str_eq;

verus! {

/// The target of the first mapping whose name is `filename`, if any.
pub open spec fn spec_find_target(mappings: Seq<(&str, &str)>, filename: Seq<char>) -> Option<
    Seq<char>,
>
    decreases mappings.len(),
{
    if mappings.len() == 0 {
        None
    } else if mappings[0].0@ == filename {
        Some(mappings[0].1@)
    } else {
        spec_find_target(mappings.skip(1), filename)
    }
}

/// Looks a file name up in the name-to-target mappings and returns the first
/// matching target path, if any.
#[verifier::loop_isolation(false)]
pub fn find_target_path<'a>(filename: &str, mappings: &'a [(&'a str, &'a str)]) -> (r: Option<
    &'a str,
>)
    ensures
        r is Some <==> spec_find_target(mappings@, filename@) is Some,
        r matches Some(t) ==> spec_find_target(mappings@, filename@) == Some(t@),
{
    proof {
        assert(mappings@.skip(0) =~= mappings@);
    }
    let mut i: usize = 0;
    while i < mappings.len()
        invariant
            0 <= i <= mappings@.len(),
            spec_find_target(mappings@, filename@) == spec_find_target(
                mappings@.skip(i as int),
                filename@,
            ),
        decreases mappings@.len() - i,
    {
        proof {
            assert(mappings@.skip(i as int)[0] == mappings@[i as int]);
            assert(mappings@.skip(i as int).skip(1) =~= mappings@.skip(i + 1));
        }
        let (name, target) = mappings[i];
        if str_eq(name, filename) {
            return Some(target);
        }
        i = i + 1;
    }
    proof {
        assert(mappings@.skip(i as int) =~= Seq::<(&str, &str)>::empty());
    }
    None
}

} // verus!
