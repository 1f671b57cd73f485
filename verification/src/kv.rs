//! Association lists: the form in which this crate holds the key-value pairs
//! of a parsed document. Lookup takes the first entry whose key matches, so
//! every spec in the crate is well defined even on a list with repeated keys
//! (the TOML reader never produces one).

use vstd::prelude::*;

verus! {

/// The value of the first entry of `s` whose key reads as `k`, if any.
pub open spec fn assoc_lookup<T>(s: Seq<(String, T)>, k: Seq<char>) -> Option<T>
    decreases s.len(),
{
    if s.len() == 0 {
        None
    } else if s[0].0@ == k {
        Some(s[0].1)
    } else {
        assoc_lookup(s.drop_first(), k)
    }
}

/// Entries below `i` cannot answer a lookup that they all miss.
pub proof fn lemma_assoc_lookup_skip<T>(s: Seq<(String, T)>, k: Seq<char>, i: int)
    requires
        0 <= i <= s.len(),
        forall|j: int| 0 <= j < i ==> s[j].0@ != k,
    ensures
        assoc_lookup(s, k) == assoc_lookup(s.skip(i), k),
    decreases i,
{
    if i > 0 {
        assert(s[0].0@ != k);
        assert forall|j: int| 0 <= j < i - 1 implies s.drop_first()[j].0@ != k by {
            assert(s.drop_first()[j] == s[j + 1]);
        }
        lemma_assoc_lookup_skip(s.drop_first(), k, i - 1);
        assert(s.drop_first().skip(i - 1) =~= s.skip(i));
    } else {
        assert(s.skip(0) =~= s);
    }
}

/// A first hit at index `i` is the lookup's answer.
pub proof fn lemma_assoc_lookup_hit<T>(s: Seq<(String, T)>, k: Seq<char>, i: int)
    requires
        0 <= i < s.len(),
        forall|j: int| 0 <= j < i ==> s[j].0@ != k,
        s[i].0@ == k,
    ensures
        assoc_lookup(s, k) == Some(s[i].1),
{
    lemma_assoc_lookup_skip(s, k, i);
    assert(s.skip(i)[0] == s[i]);
}

/// How a lookup reads a list grown at the back: an earlier entry still wins.
pub proof fn lemma_assoc_lookup_push<T>(s: Seq<(String, T)>, e: (String, T), k: Seq<char>)
    ensures
        assoc_lookup(s, k) is Some ==> assoc_lookup(s.push(e), k) == assoc_lookup(s, k),
        assoc_lookup(s, k) is None && e.0@ == k ==> assoc_lookup(s.push(e), k) == Some(e.1),
        assoc_lookup(s, k) is None && e.0@ != k ==> assoc_lookup(s.push(e), k) is None,
    decreases s.len(),
{
    assert(s.push(e).len() == s.len() + 1);
    if s.len() == 0 {
        assert(s.push(e)[0] == e);
        if e.0@ == k {
            assert(assoc_lookup(s.push(e), k) == Some(e.1));
        } else {
            assert(s.push(e).drop_first() =~= Seq::<(String, T)>::empty());
            assert(s.push(e).drop_first().len() == 0);
            assert(assoc_lookup(s.push(e).drop_first(), k) is None);
            assert(assoc_lookup(s.push(e), k) is None);
        }
    } else {
        assert(s.push(e)[0] == s[0]);
        if s[0].0@ == k {
            assert(assoc_lookup(s, k) == Some(s[0].1));
            assert(assoc_lookup(s.push(e), k) == Some(s[0].1));
        } else {
            assert(s.push(e).drop_first() =~= s.drop_first().push(e));
            lemma_assoc_lookup_push(s.drop_first(), e, k);
            assert(assoc_lookup(s, k) == assoc_lookup(s.drop_first(), k));
            assert(assoc_lookup(s.push(e), k) == assoc_lookup(s.drop_first().push(e), k));
        }
    }
}

/// Relies on `str`'s `PartialEq`: two string slices are equal exactly when
/// their character sequences are equal.
#[verifier::external_body]
pub(crate) fn str_eq(a: &str, b: &str) -> (r: bool)
    ensures
        r == (a@ == b@),
{
    a == b
}

/// The first entry of `entries` whose key reads as `key`, as the specs'
/// `assoc_lookup` sees it.
pub fn assoc_find<'a, T>(entries: &'a Vec<(String, T)>, key: &str) -> (r: Option<&'a T>)
    ensures
        match r {
            Some(v) => assoc_lookup(entries@, key@) == Some(*v),
            None => assoc_lookup(entries@, key@) is None,
        },
{
    let n = entries.len();
    let mut i: usize = 0;
    while i < n
        invariant
            n == entries@.len(),
            i <= n,
            forall|j: int| 0 <= j < i ==> entries@[j].0@ != key@,
        decreases n - i,
    {
        if str_eq(entries[i].0.as_str(), key) {
            proof {
                lemma_assoc_lookup_hit(entries@, key@, i as int);
            }
            return Some(&entries[i].1);
        }
        i += 1;
    }
    proof {
        lemma_assoc_lookup_skip(entries@, key@, n as int);
        assert(entries@.skip(n as int) =~= Seq::<(String, T)>::empty());
    }
    None
}

} // verus!
