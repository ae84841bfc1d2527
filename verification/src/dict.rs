//! Lookup in the caller-supplied key/value pair lists.
//!
//! The host hands cookies and configuration over as ordered lists of
//! string pairs. They are meant as mappings with unique keys, but nothing
//! forbids a repeated key, so the lookup resolves the ambiguity
//! explicitly: the last entry for a key wins.

use vstd::prelude::*;

verus! {

/// The value under `key`, with the last entry for a repeated key winning.
pub open spec fn spec_lookup(pairs: Seq<(String, String)>, key: Seq<char>) -> Option<Seq<char>>
    decreases pairs.len(),
{
    if pairs.len() == 0 {
        Option::None
    } else if pairs.last().0@ == key {
        Option::Some(pairs.last().1@)
    } else {
        spec_lookup(pairs.drop_last(), key)
    }
}

/// The lookup misses exactly when no entry carries the key.
pub proof fn lemma_lookup_none(pairs: Seq<(String, String)>, key: Seq<char>)
    requires
        forall|i: int| 0 <= i < pairs.len() ==> pairs[i].0@ != key,
    ensures
        spec_lookup(pairs, key) is None,
    decreases pairs.len(),
{
    if pairs.len() > 0 {
        assert(pairs.last() == pairs[pairs.len() - 1]);
        lemma_lookup_none(pairs.drop_last(), key);
    }
}

/// Find the value stored under `key`, scanning for the last matching entry.
pub fn lookup_value<'a>(pairs: &'a Vec<(String, String)>, key: &String) -> (r: Option<&'a String>)
    ensures
        (match r {
            Option::Some(v) => spec_lookup(pairs@, key@) == Option::Some(v@),
            Option::None => spec_lookup(pairs@, key@) is None,
        }),
{
    let mut i: usize = pairs.len();
    proof {
        assert(pairs@.subrange(0, i as int) =~= pairs@);
    }
    while i > 0
        invariant
            i <= pairs@.len(),
            spec_lookup(pairs@, key@) == spec_lookup(pairs@.subrange(0, i as int), key@),
        decreases i,
    {
        i = i - 1;
        proof {
            let prefix = pairs@.subrange(0, i + 1);
            assert(prefix.last() == pairs@[i as int]);
            assert(prefix.drop_last() =~= pairs@.subrange(0, i as int));
        }
        if pairs[i].0 == *key {
            return Option::Some(&pairs[i].1);
        }
    }
    Option::None
}

} // verus!
