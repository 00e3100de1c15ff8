//! A memoization cache for single-argument functions.
//!
//! [`Memoizer`] wraps a caller-supplied function together with a map from
//! arguments to results. Each lookup either returns a copy of a previously
//! stored result or invokes the function once, stores the result, and
//! returns a copy of it. The cache is append-only: an entry, once stored,
//! is never overwritten or removed.

use std::collections::HashMap;
use std::hash::Hash;
use vstd::prelude::*;

verus! {

broadcast use vstd::std_specs::hash::group_hash_axioms;

/// Holds when every duplicate that `T::clone` can produce is equal to the
/// value it was cloned from. This is the meaning of "independent
/// duplication": a duplicate carries the same value, while mutating either
/// copy afterwards leaves the other untouched.
pub open spec fn clone_yields_equal<T: Clone>() -> bool {
    forall|a: T, b: T| #[trigger] cloned::<T>(a, b) ==> b == a
}

/// Holds when `U` is fit to serve as a cache key: its `Eq` and `Hash`
/// implementations agree with value equality, and cloning it yields an
/// equal value, so that the stored duplicate of a key stands for the
/// argument it was cloned from.
pub open spec fn key_type_well_behaved<U: Eq + Hash + Clone>() -> bool {
    &&& vstd::std_specs::hash::obeys_key_model::<U>()
    &&& clone_yields_equal::<U>()
}

/// How one lookup changes the cache contents and what it returns: a hit
/// on `arg` returns the stored result and leaves the cache as it was; a
/// miss extends the cache by exactly the one new entry, whose stored
/// result is the value returned.
pub open spec fn value_transition<U, V>(
    pre: Map<U, V>,
    post: Map<U, V>,
    arg: U,
    result: V,
) -> bool {
    if pre.contains_key(arg) {
        result == pre[arg] && post == pre
    } else {
        post == pre.insert(arg, result)
    }
}

/// Wraps a single-argument function and caches its results by argument
/// value. Arguments are compared by equality and hashed; both the argument
/// and the result types must support duplication, since the cache stores
/// its own copy of each key and hands out a copy of each stored result.
#[verifier::reject_recursive_types(U)]
#[verifier::reject_recursive_types(V)]
pub struct Memoizer<U, V, F> where U: Eq + Hash + Clone, V: Clone, F: Fn(U) -> V {
    function: F,
    map: HashMap<U, V>,
}

impl<U, V, F> Memoizer<U, V, F> where U: Eq + Hash + Clone, V: Clone, F: Fn(U) -> V {
    /// The mathematical content of the cache: the map from each argument
    /// seen so far to the result stored for it.
    pub closed spec fn cache(self) -> Map<U, V> {
        self.map@
    }

    /// The wrapped function, as held since construction.
    pub closed spec fn func(self) -> F {
        self.function
    }

    /// The cache invariant: every stored result is one the wrapped
    /// function could have returned for its key.
    pub open spec fn wf(self) -> bool {
        forall|k: U| #[trigger] self.cache().contains_key(k)
            ==> call_ensures(self.func(), (k,), self.cache()[k])
    }

    /// Creates a new cache that wraps `function` and holds no entries yet.
    pub fn new(function: F) -> (result: Memoizer<U, V, F>)
        ensures
            result.func() == function,
            result.cache() == Map::<U, V>::empty(),
            result.wf(),
    {
        Memoizer { function, map: HashMap::new() }
    }

    /// Returns the result of the wrapped function for `arg`, computing it
    /// at most once per distinct argument value: a repeated argument is
    /// answered from the cache without invoking the function again. The
    /// value handed back is always a fresh duplicate, never the cache's
    /// own copy.
    pub fn value(&mut self, arg: U) -> (result: V)
        requires
            old(self).wf(),
            key_type_well_behaved::<U>(),
            clone_yields_equal::<V>(),
            call_requires(old(self).func(), (arg,)),
        ensures
            final(self).wf(),
            final(self).func() == old(self).func(),
            value_transition(old(self).cache(), final(self).cache(), arg, result),
            final(self).cache().contains_key(arg) && final(self).cache()[arg] == result,
            !old(self).cache().contains_key(arg) ==> call_ensures(
                old(self).func(),
                (arg,),
                result,
            ),
    {
        let key = arg.clone();
        proof {
            assert(cloned::<U>(arg, key));
        }
        match self.map.get(&key) {
            Some(stored) => {
                let result = stored.clone();
                proof {
                    assert(cloned::<V>(*stored, result));
                }
                result
            },
            None => {
                let computed = (self.function)(arg);
                let result = computed.clone();
                proof {
                    assert(cloned::<V>(computed, result));
                }
                self.map.insert(key, computed);
                proof {
                    assert forall|k: U| #[trigger] self.cache().contains_key(k)
                        implies call_ensures(self.func(), (k,), self.cache()[k]) by {
                        if k != arg {
                            assert(old(self).cache().contains_key(k));
                        }
                    }
                }
                result
            },
        }
    }
}

/// Law: repetition is answered from the cache. Once a lookup of `arg` has
/// returned `first`, that value is stored under `arg`, and a second lookup
/// of an equal argument returns the very same value and leaves the cache
/// untouched: no recomputation, whatever the wrapped function might do.
pub proof fn lemma_repeated_lookup_returns_first_result<U, V>(
    pre: Map<U, V>,
    mid: Map<U, V>,
    post: Map<U, V>,
    arg: U,
    first: V,
    second: V,
)
    requires
        value_transition(pre, mid, arg, first),
        value_transition(mid, post, arg, second),
    ensures
        second == first,
        post == mid,
        mid.contains_key(arg) && mid[arg] == first,
{
}

/// Law: the cache is append-only. Every entry present before a lookup is
/// still present afterwards, with the same stored result; entries are
/// never overwritten or removed.
pub proof fn lemma_cache_is_append_only<U, V>(
    pre: Map<U, V>,
    post: Map<U, V>,
    arg: U,
    result: V,
)
    requires
        value_transition(pre, post, arg, result),
    ensures
        pre.submap_of(post),
{
}

/// Law: distinct arguments are independent. A lookup of `arg` neither adds,
/// removes, nor changes the entry of any other argument, so what a later
/// lookup of `other` finds cached is exactly what was cached before.
pub proof fn lemma_lookup_leaves_other_keys_unchanged<U, V>(
    pre: Map<U, V>,
    post: Map<U, V>,
    arg: U,
    result: V,
    other: U,
)
    requires
        value_transition(pre, post, arg, result),
        other != arg,
    ensures
        post.contains_key(other) == pre.contains_key(other),
        pre.contains_key(other) ==> post[other] == pre[other],
{
}

/// Law: the cache is isolated from the caller's argument. The stored entry
/// depends only on the argument's value at the time of the lookup; the
/// conclusion holds for every value `mutated` that the caller's own copy
/// of the argument may be changed into afterwards, so such a change cannot
/// alter the stored key or what a later lookup of the original value
/// returns.
pub proof fn lemma_input_mutation_cannot_affect_cache<U, V>(
    pre: Map<U, V>,
    mid: Map<U, V>,
    post: Map<U, V>,
    arg: U,
    mutated: U,
    first: V,
    second: V,
)
    requires
        value_transition(pre, mid, arg, first),
        value_transition(mid, post, arg, second),
    ensures
        second == first,
        mid.contains_key(arg) && mid[arg] == first,
{
}

/// Law: the cache is isolated from its returned copies. What a lookup
/// hands back is a duplicate, not the stored value itself; the conclusion
/// holds for every value `mutated` that the caller may change the returned
/// copy into, so such a change cannot alter what a later lookup of an
/// equal argument returns.
pub proof fn lemma_output_mutation_cannot_affect_cache<U, V>(
    pre: Map<U, V>,
    mid: Map<U, V>,
    post: Map<U, V>,
    arg: U,
    first: V,
    mutated: V,
    second: V,
)
    requires
        value_transition(pre, mid, arg, first),
        value_transition(mid, post, arg, second),
    ensures
        second == first,
{
}

} // verus!
