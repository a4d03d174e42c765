//! Functions that are generic over the type they work on.

use vstd::prelude::*;
use vstd::std_specs::cmp::PartialOrdSpec;
use vstd::std_specs::ops::{AddSpec, MulSpec};
use std::cmp::Ordering;
use std::ops::{Add, Mul};

verus! {

/// Whether `value1` comes before `value2` or equals it, in the order of `T`.
pub open spec fn at_most<T: Ord>(value1: T, value2: T) -> bool {
    value1.partial_cmp_spec(&value2) matches Some(Ordering::Less | Ordering::Equal)
}

/// Returns the lesser of two values, and the first of them where they are
/// equal.
pub fn min<T: Ord>(value1: T, value2: T) -> (least: T)
    ensures
        least == value1 || least == value2,
        T::obeys_partial_cmp_spec() ==> least == (if at_most(value1, value2) {
            value1
        } else {
            value2
        }),
{
    if value1 <= value2 {
        value1
    } else {
        value2
    }
}

/// The sum of the products of the first `n` pairs of elements, added one
/// after the other, in order, to `zero`.
pub open spec fn dot_from<N>(zero: N, v1: Seq<N>, v2: Seq<N>, n: nat) -> N where
    N: Add<Output = N> + Mul<Output = N>,
    decreases n,
{
    if n == 0 {
        zero
    } else {
        dot_from(zero, v1, v2, (n - 1) as nat).add_spec(v1[n - 1].mul_spec(v2[n - 1]))
    }
}

/// Whether every product and every sum on the way to `dot_from` may be
/// formed: for the integer types, whether none of them overflows.
pub open spec fn dot_defined<N>(zero: N, v1: Seq<N>, v2: Seq<N>, n: nat) -> bool where
    N: Add<Output = N> + Mul<Output = N>,
    decreases n,
{
    if n == 0 {
        true
    } else {
        &&& dot_defined(zero, v1, v2, (n - 1) as nat)
        &&& v1[n - 1].mul_req(v2[n - 1])
        &&& dot_from(zero, v1, v2, (n - 1) as nat).add_req(v1[n - 1].mul_spec(v2[n - 1]))
    }
}

/// The dot product of two vectors: the sum of the products of their
/// elements, pair by pair, starting from the default value of `N`. Where
/// `v2` is the longer one, its elements beyond the length of `v1` are left
/// out.
pub fn dot<N>(v1: &[N], v2: &[N]) -> (total: N) where
    N: Add<Output = N> + Mul<Output = N> + Default + Copy,

    requires
        v1@.len() <= v2@.len(),
        N::obeys_add_spec(),
        N::obeys_mul_spec(),
        forall|zero: N| #[trigger]
            call_ensures(N::default, (), zero) ==> dot_defined(zero, v1@, v2@, v1@.len()),
    ensures
        exists|zero: N| #[trigger]
            call_ensures(N::default, (), zero) && total == dot_from(zero, v1@, v2@, v1@.len()),
{
    let zero = N::default();
    let mut total = zero;
    for i in 0..v1.len()
        invariant
            v1@.len() <= v2@.len(),
            N::obeys_add_spec(),
            N::obeys_mul_spec(),
            dot_defined(zero, v1@, v2@, v1@.len()),
            dot_defined(zero, v1@, v2@, i as nat),
            total == dot_from(zero, v1@, v2@, i as nat),
    {
        proof {
            lemma_dot_defined_earlier(zero, v1@, v2@, v1@.len(), (i + 1) as nat);
        }
        total = total + v1[i] * v2[i];
    }
    total
}

/// Where the first `n` pairs may be multiplied and summed, so may the first
/// `m` of them.
pub proof fn lemma_dot_defined_earlier<N>(zero: N, v1: Seq<N>, v2: Seq<N>, n: nat, m: nat) where
    N: Add<Output = N> + Mul<Output = N>,

    requires
        dot_defined(zero, v1, v2, n),
        m <= n,
    ensures
        dot_defined(zero, v1, v2, m),
    decreases n,
{
    if m < n {
        lemma_dot_defined_earlier(zero, v1, v2, (n - 1) as nat, m);
    }
}

} // verus!
