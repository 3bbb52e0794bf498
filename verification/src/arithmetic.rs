//! The scalar operations that the dynamics are stated over.

use vstd::prelude::*;

verus! {

/// Addition, subtraction and multiplication of words.
///
/// Each operation takes two words and returns one. A caller that works in
/// binary64 passes the three operations of its machine, each from bit
/// patterns to a bit pattern. What an operation may return is whatever its
/// own postcondition admits: the library adds nothing to it and assumes
/// nothing of it beyond what a contract names.
pub struct Arithmetic<A, S, M> {
    /// `add(a, b)` is `a + b`.
    pub add: A,
    /// `sub(a, b)` is `a - b`.
    pub sub: S,
    /// `mul(a, b)` is `a * b`.
    pub mul: M,
}

impl<A, S, M> Arithmetic<A, S, M> where
    A: Fn(u64, u64) -> u64,
    S: Fn(u64, u64) -> u64,
    M: Fn(u64, u64) -> u64,
{
    /// Every operation accepts every pair of words.
    pub open spec fn total(&self) -> bool {
        &&& forall|a: u64, b: u64| #[trigger] self.add.requires((a, b))
        &&& forall|a: u64, b: u64| #[trigger] self.sub.requires((a, b))
        &&& forall|a: u64, b: u64| #[trigger] self.mul.requires((a, b))
    }

    /// `r` is a result of adding `b` to `a`.
    pub open spec fn is_sum(&self, a: u64, b: u64, r: u64) -> bool {
        self.add.ensures((a, b), r)
    }

    /// `r` is a result of subtracting `b` from `a`.
    pub open spec fn is_difference(&self, a: u64, b: u64, r: u64) -> bool {
        self.sub.ensures((a, b), r)
    }

    /// `r` is a result of multiplying `a` by `b`.
    pub open spec fn is_product(&self, a: u64, b: u64, r: u64) -> bool {
        self.mul.ensures((a, b), r)
    }

    /// Each operation has at most one result on each pair of words.
    pub open spec fn deterministic(&self) -> bool {
        &&& forall|a: u64, b: u64, r: u64, s: u64|
            #![trigger self.add.ensures((a, b), r), self.add.ensures((a, b), s)]
            self.add.ensures((a, b), r) && self.add.ensures((a, b), s) ==> r == s
        &&& forall|a: u64, b: u64, r: u64, s: u64|
            #![trigger self.sub.ensures((a, b), r), self.sub.ensures((a, b), s)]
            self.sub.ensures((a, b), r) && self.sub.ensures((a, b), s) ==> r == s
        &&& forall|a: u64, b: u64, r: u64, s: u64|
            #![trigger self.mul.ensures((a, b), r), self.mul.ensures((a, b), s)]
            self.mul.ensures((a, b), r) && self.mul.ensures((a, b), s) ==> r == s
    }

    /// Adds `b` to `a`.
    pub fn sum(&self, a: u64, b: u64) -> (r: u64)
        requires
            self.add.requires((a, b)),
        ensures
            self.is_sum(a, b, r),
    {
        (self.add)(a, b)
    }

    /// Subtracts `b` from `a`.
    pub fn difference(&self, a: u64, b: u64) -> (r: u64)
        requires
            self.sub.requires((a, b)),
        ensures
            self.is_difference(a, b, r),
    {
        (self.sub)(a, b)
    }

    /// Multiplies `a` by `b`.
    pub fn product(&self, a: u64, b: u64) -> (r: u64)
        requires
            self.mul.requires((a, b)),
        ensures
            self.is_product(a, b, r),
    {
        (self.mul)(a, b)
    }
}

} // verus!
