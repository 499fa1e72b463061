//! Sums of a weight over the elements of a sequence.

use vstd::prelude::*;

verus! {

/// The sum of `weight` over all elements of `s`.
pub open spec fn sum_over<T>(s: Seq<T>, weight: spec_fn(T) -> nat) -> nat
    decreases s.len(),
{
    if s.len() == 0 {
        0
    } else {
        weight(s.first()) + sum_over(s.drop_first(), weight)
    }
}

/// Appending an element adds its weight to the sum.
pub proof fn lemma_sum_push<T>(s: Seq<T>, x: T, weight: spec_fn(T) -> nat)
    ensures
        sum_over(s.push(x), weight) == sum_over(s, weight) + weight(x),
    decreases s.len(),
{
    if s.len() == 0 {
        assert(s.push(x).drop_first() =~= s);
    } else {
        assert(s.push(x).drop_first() =~= s.drop_first().push(x));
        lemma_sum_push(s.drop_first(), x, weight);
    }
}

/// The sum over two sequences, one behind the other, is that over both.
pub proof fn lemma_sum_concat<T>(a: Seq<T>, b: Seq<T>, weight: spec_fn(T) -> nat)
    ensures
        sum_over(a + b, weight) == sum_over(a, weight) + sum_over(b, weight),
    decreases a.len(),
{
    if a.len() == 0 {
        assert(a + b =~= b);
    } else {
        assert((a + b).drop_first() =~= a.drop_first() + b);
        lemma_sum_concat(a.drop_first(), b, weight);
    }
}

/// The sum over a prefix is at most the sum over the whole.
pub proof fn lemma_sum_prefix<T>(s: Seq<T>, n: int, weight: spec_fn(T) -> nat)
    requires
        0 <= n <= s.len(),
    ensures
        sum_over(s.take(n), weight) <= sum_over(s, weight),
    decreases s.len(),
{
    if n > 0 {
        assert(s.take(n).drop_first() =~= s.drop_first().take(n - 1));
        lemma_sum_prefix(s.drop_first(), n - 1, weight);
    }
}

/// A prefix that is one element longer weighs more by that element.
pub proof fn lemma_sum_next<T>(s: Seq<T>, n: int, weight: spec_fn(T) -> nat)
    requires
        0 <= n < s.len(),
    ensures
        sum_over(s.take(n + 1), weight) == sum_over(s.take(n), weight) + weight(s[n]),
        sum_over(s.take(n + 1), weight) <= sum_over(s, weight),
{
    assert(s.take(n + 1) =~= s.take(n).push(s[n]));
    lemma_sum_push(s.take(n), s[n], weight);
    lemma_sum_prefix(s, n + 1, weight);
}

} // verus!
