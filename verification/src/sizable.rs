//! The `Maximized` trait: the worst-case size contract carried by Rust
//! types themselves, implemented for the fixed-width primitives and the
//! structural combinators.

use vstd::prelude::*;
use core::marker::PhantomData;

verus! {

/// A type whose worst-case encoded byte length is known from its structure.
///
/// `enc_len` is the model of the encoded length of one concrete value;
/// `spec_size` is the declared worst case. Every implementation carries two
/// obligations: `maximized` must build a value attaining the declared size
/// exactly, and `lemma_bounded` must show that no value exceeds it.
pub trait Maximized: Sized {
    /// Encoded byte length of this value under the fixed binary format.
    spec fn enc_len(&self) -> nat;

    /// Declared worst-case encoded byte length of a value of this type.
    spec fn spec_size() -> nat;

    /// No value of this type encodes longer than the declared size.
    proof fn lemma_bounded(&self)
        ensures
            self.enc_len() <= Self::spec_size(),
    ;

    /// Builds a value of this type whose encoded length is the declared
    /// size: a maximal instance.
    fn maximized() -> (r: Self)
        requires
            Self::spec_size() <= usize::MAX,
        ensures
            r.enc_len() == Self::spec_size(),
    ;

    /// Computes the declared size.
    fn compute_size() -> (n: usize)
        requires
            Self::spec_size() <= usize::MAX,
        ensures
            n == Self::spec_size(),
    ;
}

impl Maximized for bool {
    open spec fn enc_len(&self) -> nat {
        1
    }

    open spec fn spec_size() -> nat {
        1
    }

    proof fn lemma_bounded(&self) {
    }

    fn maximized() -> (r: Self) {
        false
    }

    fn compute_size() -> (n: usize) {
        1
    }
}

impl Maximized for u8 {
    open spec fn enc_len(&self) -> nat {
        1
    }

    open spec fn spec_size() -> nat {
        1
    }

    proof fn lemma_bounded(&self) {
    }

    fn maximized() -> (r: Self) {
        0
    }

    fn compute_size() -> (n: usize) {
        1
    }
}

impl Maximized for u16 {
    open spec fn enc_len(&self) -> nat {
        2
    }

    open spec fn spec_size() -> nat {
        2
    }

    proof fn lemma_bounded(&self) {
    }

    fn maximized() -> (r: Self) {
        0
    }

    fn compute_size() -> (n: usize) {
        2
    }
}

impl Maximized for u32 {
    open spec fn enc_len(&self) -> nat {
        4
    }

    open spec fn spec_size() -> nat {
        4
    }

    proof fn lemma_bounded(&self) {
    }

    fn maximized() -> (r: Self) {
        0
    }

    fn compute_size() -> (n: usize) {
        4
    }
}

impl Maximized for u64 {
    open spec fn enc_len(&self) -> nat {
        8
    }

    open spec fn spec_size() -> nat {
        8
    }

    proof fn lemma_bounded(&self) {
    }

    fn maximized() -> (r: Self) {
        0
    }

    fn compute_size() -> (n: usize) {
        8
    }
}

impl Maximized for u128 {
    open spec fn enc_len(&self) -> nat {
        16
    }

    open spec fn spec_size() -> nat {
        16
    }

    proof fn lemma_bounded(&self) {
    }

    fn maximized() -> (r: Self) {
        0
    }

    fn compute_size() -> (n: usize) {
        16
    }
}

impl Maximized for i8 {
    open spec fn enc_len(&self) -> nat {
        1
    }

    open spec fn spec_size() -> nat {
        1
    }

    proof fn lemma_bounded(&self) {
    }

    fn maximized() -> (r: Self) {
        0
    }

    fn compute_size() -> (n: usize) {
        1
    }
}

impl Maximized for i16 {
    open spec fn enc_len(&self) -> nat {
        2
    }

    open spec fn spec_size() -> nat {
        2
    }

    proof fn lemma_bounded(&self) {
    }

    fn maximized() -> (r: Self) {
        0
    }

    fn compute_size() -> (n: usize) {
        2
    }
}

impl Maximized for i32 {
    open spec fn enc_len(&self) -> nat {
        4
    }

    open spec fn spec_size() -> nat {
        4
    }

    proof fn lemma_bounded(&self) {
    }

    fn maximized() -> (r: Self) {
        0
    }

    fn compute_size() -> (n: usize) {
        4
    }
}

impl Maximized for i64 {
    open spec fn enc_len(&self) -> nat {
        8
    }

    open spec fn spec_size() -> nat {
        8
    }

    proof fn lemma_bounded(&self) {
    }

    fn maximized() -> (r: Self) {
        0
    }

    fn compute_size() -> (n: usize) {
        8
    }
}

impl Maximized for i128 {
    open spec fn enc_len(&self) -> nat {
        16
    }

    open spec fn spec_size() -> nat {
        16
    }

    proof fn lemma_bounded(&self) {
    }

    fn maximized() -> (r: Self) {
        0
    }

    fn compute_size() -> (n: usize) {
        16
    }
}

impl Maximized for usize {
    open spec fn enc_len(&self) -> nat {
        8
    }

    open spec fn spec_size() -> nat {
        8
    }

    proof fn lemma_bounded(&self) {
    }

    fn maximized() -> (r: Self) {
        0
    }

    fn compute_size() -> (n: usize) {
        8
    }
}

impl Maximized for () {
    open spec fn enc_len(&self) -> nat {
        0
    }

    open spec fn spec_size() -> nat {
        0
    }

    proof fn lemma_bounded(&self) {
    }

    fn maximized() -> (r: Self) {
    }

    fn compute_size() -> (n: usize) {
        0
    }
}

impl<T> Maximized for PhantomData<T> {
    open spec fn enc_len(&self) -> nat {
        0
    }

    open spec fn spec_size() -> nat {
        0
    }

    proof fn lemma_bounded(&self) {
    }

    fn maximized() -> (r: Self) {
        PhantomData
    }

    fn compute_size() -> (n: usize) {
        0
    }
}

impl<T: Maximized> Maximized for Option<T> {
    open spec fn enc_len(&self) -> nat {
        match self {
            Option::None => 1,
            Option::Some(x) => 1 + x.enc_len(),
        }
    }

    open spec fn spec_size() -> nat {
        1 + T::spec_size()
    }

    proof fn lemma_bounded(&self) {
        match self {
            Option::None => {},
            Option::Some(x) => {
                x.lemma_bounded();
            },
        }
    }

    fn maximized() -> (r: Self) {
        Some(T::maximized())
    }

    fn compute_size() -> (n: usize) {
        1 + T::compute_size()
    }
}

impl<T: Maximized, E: Maximized> Maximized for Result<T, E> {
    open spec fn enc_len(&self) -> nat {
        match self {
            Result::Ok(x) => 1 + x.enc_len(),
            Result::Err(e) => 1 + e.enc_len(),
        }
    }

    open spec fn spec_size() -> nat {
        1 + crate::shape::nat_max(T::spec_size(), E::spec_size())
    }

    proof fn lemma_bounded(&self) {
        match self {
            Result::Ok(x) => {
                x.lemma_bounded();
            },
            Result::Err(e) => {
                e.lemma_bounded();
            },
        }
    }

    fn maximized() -> (r: Self) {
        let sa = T::compute_size();
        let sb = E::compute_size();
        if sa >= sb {
            Ok(T::maximized())
        } else {
            Err(E::maximized())
        }
    }

    fn compute_size() -> (n: usize) {
        let sa = T::compute_size();
        let sb = E::compute_size();
        1 + (if sa >= sb {
            sa
        } else {
            sb
        })
    }
}

impl<A: Maximized, B: Maximized> Maximized for (A, B) {
    open spec fn enc_len(&self) -> nat {
        self.0.enc_len() + self.1.enc_len()
    }

    open spec fn spec_size() -> nat {
        A::spec_size() + B::spec_size()
    }

    proof fn lemma_bounded(&self) {
        self.0.lemma_bounded();
        self.1.lemma_bounded();
    }

    fn maximized() -> (r: Self) {
        (A::maximized(), B::maximized())
    }

    fn compute_size() -> (n: usize) {
        A::compute_size() + B::compute_size()
    }
}

impl<A: Maximized, B: Maximized, C: Maximized> Maximized for (A, B, C) {
    open spec fn enc_len(&self) -> nat {
        self.0.enc_len() + self.1.enc_len() + self.2.enc_len()
    }

    open spec fn spec_size() -> nat {
        A::spec_size() + B::spec_size() + C::spec_size()
    }

    proof fn lemma_bounded(&self) {
        self.0.lemma_bounded();
        self.1.lemma_bounded();
        self.2.lemma_bounded();
    }

    fn maximized() -> (r: Self) {
        (A::maximized(), B::maximized(), C::maximized())
    }

    fn compute_size() -> (n: usize) {
        A::compute_size() + B::compute_size() + C::compute_size()
    }
}

} // verus!
