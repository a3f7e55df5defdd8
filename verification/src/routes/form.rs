//! The fields of a submitted form, as (field, value) pairs.

use vstd::prelude::*;

verus! {

/// The value of the first pair whose field is `key`, if there is one.
pub open spec fn form_lookup(pairs: Seq<(String, String)>, key: Seq<char>) -> Option<Seq<char>>
    decreases pairs.len(),
{
    if pairs.len() == 0 {
        None
    } else if pairs[0].0@ == key {
        Some(pairs[0].1@)
    } else {
        form_lookup(pairs.drop_first(), key)
    }
}

proof fn lemma_lookup_skip(pairs: Seq<(String, String)>, key: Seq<char>, i: int)
    requires
        0 <= i < pairs.len(),
        pairs[i].0@ != key,
    ensures
        form_lookup(pairs.skip(i), key) == form_lookup(pairs.skip(i + 1), key),
{
    assert(pairs.skip(i).drop_first() =~= pairs.skip(i + 1));
}

proof fn lemma_lookup_found(pairs: Seq<(String, String)>, key: Seq<char>, i: int)
    requires
        0 <= i < pairs.len(),
        pairs[i].0@ == key,
    ensures
        form_lookup(pairs.skip(i), key) == Some(pairs[i].1@),
{
}

/// The value of field `key` in the submitted form, if the form has it.
pub fn form_value(body: &Vec<(String, String)>, key: &str) -> (res: Option<String>)
    ensures
        match res {
            Some(v) => form_lookup(body@, key@) == Some(v@),
            None => form_lookup(body@, key@) is None,
        },
{
    let wanted = key.to_owned();
    let mut i: usize = 0;
    proof {
        assert(body@.skip(0) =~= body@);
    }
    while i < body.len()
        invariant
            i <= body@.len(),
            wanted@ == key@,
            form_lookup(body@, key@) == form_lookup(body@.skip(i as int), key@),
        decreases body@.len() - i,
    {
        if body[i].0 == wanted {
            proof {
                lemma_lookup_found(body@, key@, i as int);
            }
            return Some(body[i].1.clone());
        }
        proof {
            lemma_lookup_skip(body@, key@, i as int);
        }
        i = i + 1;
    }
    proof {
        assert(body@.skip(i as int).len() == 0);
    }
    None
}

} // verus!
