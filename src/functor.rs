//! Mapping: transforming the held value of a container, possibly into a value
//! of another type, while absence stays absence.
//!
//! As with binding, the capability is parameterised by the new value type `B`,
//! and the associated `Wrapped` names the container of the same kind that holds
//! a `B`.

use vstd::prelude::*;

verus! {

/// A container whose held value can be transformed in place of its kind.
pub trait Functor<B>: Sized {
    /// The type of the value held.
    type Unwrapped;

    /// The same kind of container, holding a `B` in place of an `Unwrapped`.
    type Wrapped;

    /// The value held, if any.
    spec fn unwrapped(&self) -> Option<Self::Unwrapped>;

    /// The value that a `Wrapped` holds, if any.
    spec fn rewrapped(w: &Self::Wrapped) -> Option<B>;

    /// Applies `f` once to the held value and wraps what it returns. Without a
    /// held value, `f` is not called and the result holds nothing.
    fn map<F>(self, f: F) -> (r: Self::Wrapped) where F: FnOnce(Self::Unwrapped) -> B
        requires
            self.unwrapped() matches Some(a) ==> f.requires((a,)),
        ensures
            self.unwrapped() matches Some(a) ==> (Self::rewrapped(&r) matches Some(b) && f.ensures(
                (a,),
                b,
            )),
            self.unwrapped() is None ==> Self::rewrapped(&r) is None,
    ;
}

impl<A, B> Functor<B> for Option<A> {
    type Unwrapped = A;

    type Wrapped = Option<B>;

    open spec fn unwrapped(&self) -> Option<A> {
        *self
    }

    open spec fn rewrapped(w: &Option<B>) -> Option<B> {
        *w
    }

    // With `unwrapped` and `rewrapped` both the identity on `Option`, the
    // trait's contract already fixes the result exactly.
    fn map<F: FnOnce(A) -> B>(self, f: F) -> (r: Option<B>) {
        match self {
            Some(x) => Some(f(x)),
            None => None,
        }
    }
}

/// A transform that ignores its argument and always returns `"fixed"`; its
/// result type differs from its argument type.
pub fn ping(_a: i32) -> (r: String)
    ensures
        r@ == "fixed"@,
{
    "fixed".to_owned()
}

} // verus!
