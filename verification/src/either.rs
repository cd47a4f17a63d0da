//! A value that is one of two alternatives, with dispatch that treats both alike.

use vstd::prelude::*;

verus! {

/// Exactly one of two values. Which side is held never changes: every method
/// either borrows the held value or consumes the whole.
pub enum Either<L, R> {
    /// The first alternative.
    Left(L),
    /// The second alternative.
    Right(R),
}

impl<L, R> Either<L, R> {
    /// Borrows the held value, on the side on which it is held.
    pub fn as_ref(&self) -> (out: Either<&L, &R>)
        ensures
            match out {
                Either::Left(inner) => *self == Either::<L, R>::Left(*inner),
                Either::Right(inner) => *self == Either::<L, R>::Right(*inner),
            },
    {
        match self {
            Either::Left(inner) => Either::Left(inner),
            Either::Right(inner) => Either::Right(inner),
        }
    }

    /// Borrows the held value mutably, on the side on which it is held.
    pub fn as_mut(&mut self) -> (out: Either<&mut L, &mut R>)
        ensures
            match out {
                Either::Left(inner) => *old(self) == Either::<L, R>::Left(*inner)
                    && *final(self) == Either::<L, R>::Left(*final(inner)),
                Either::Right(inner) => *old(self) == Either::<L, R>::Right(*inner)
                    && *final(self) == Either::<L, R>::Right(*final(inner)),
            },
    {
        match self {
            Either::Left(inner) => Either::Left(inner),
            Either::Right(inner) => Either::Right(inner),
        }
    }

    /// Applies the function of the held side to the held value. The result is
    /// what a direct call of that function on that value returns; the other
    /// function is not called.
    pub fn either<T, F: FnOnce(L) -> T, G: FnOnce(R) -> T>(self, on_left: F, on_right: G) -> (out: T)
        requires
            match self {
                Either::Left(inner) => on_left.requires((inner,)),
                Either::Right(inner) => on_right.requires((inner,)),
            },
        ensures
            match self {
                Either::Left(inner) => on_left.ensures((inner,), out),
                Either::Right(inner) => on_right.ensures((inner,), out),
            },
    {
        match self {
            Either::Left(inner) => on_left(inner),
            Either::Right(inner) => on_right(inner),
        }
    }

    /// As [`Either::either`], with a value that the called function receives
    /// besides the held one: what both functions would otherwise have to own.
    pub fn either_with<C, T, F: FnOnce(C, L) -> T, G: FnOnce(C, R) -> T>(
        self,
        context: C,
        on_left: F,
        on_right: G,
    ) -> (out: T)
        requires
            match self {
                Either::Left(inner) => on_left.requires((context, inner)),
                Either::Right(inner) => on_right.requires((context, inner)),
            },
        ensures
            match self {
                Either::Left(inner) => on_left.ensures((context, inner), out),
                Either::Right(inner) => on_right.ensures((context, inner), out),
            },
    {
        match self {
            Either::Left(inner) => on_left(context, inner),
            Either::Right(inner) => on_right(context, inner),
        }
    }

    /// Applies the function of the held side to the held value and keeps the
    /// result on that side.
    pub fn map<A, B, F: FnOnce(L) -> A, G: FnOnce(R) -> B>(self, on_left: F, on_right: G) -> (out:
        Either<A, B>)
        requires
            match self {
                Either::Left(inner) => on_left.requires((inner,)),
                Either::Right(inner) => on_right.requires((inner,)),
            },
        ensures
            match self {
                Either::Left(inner) => out matches Either::Left(mapped) && on_left.ensures(
                    (inner,),
                    mapped,
                ),
                Either::Right(inner) => out matches Either::Right(mapped) && on_right.ensures(
                    (inner,),
                    mapped,
                ),
            },
    {
        match self {
            Either::Left(inner) => Either::Left(on_left(inner)),
            Either::Right(inner) => Either::Right(on_right(inner)),
        }
    }
}

} // verus!
