//! Binding: chaining a transform that itself returns a wrapped value, without
//! wrapping twice.
//!
//! The result shape is a function of both the container and the new value type.
//! The capability is therefore parameterised by that new type `T`, and the
//! associated `Plug` names the container of the same kind that holds a `T`.

use vstd::prelude::*;

verus! {

/// A container whose held value can be fed to a transform that returns a
/// container of the same kind.
pub trait Monad<T>: Sized {
    /// The type of the value held.
    type Unplug;

    /// The same kind of container, holding a `T` in place of an `Unplug`.
    type Plug;

    /// The value held, if any.
    spec fn unplugged(&self) -> Option<Self::Unplug>;

    /// The value that a `Plug` holds, if any.
    spec fn plugged(p: &Self::Plug) -> Option<T>;

    /// Feeds the held value to `f` and returns what `f` returns, as it is.
    /// Without a held value, `f` is not called and the result holds nothing.
    fn bind<F>(self, f: F) -> (r: Self::Plug) where F: FnOnce(Self::Unplug) -> Self::Plug
        requires
            self.unplugged() matches Some(a) ==> f.requires((a,)),
        ensures
            self.unplugged() matches Some(a) ==> f.ensures((a,), r),
            self.unplugged() is None ==> Self::plugged(&r) is None,
    ;
}

/// The relation between an `Option`, a transform that returns an `Option`, and
/// the outcome of binding: what the transform returns for the held value, or
/// `None` where nothing is held.
pub open spec fn option_bound<A, T, F: FnOnce(A) -> Option<T>>(o: Option<A>, f: F, r: Option<T>) -> bool {
    match o {
        Some(a) => f.ensures((a,), r),
        None => r is None,
    }
}

impl<A, T> Monad<T> for Option<A> {
    type Unplug = A;

    type Plug = Option<T>;

    open spec fn unplugged(&self) -> Option<A> {
        *self
    }

    open spec fn plugged(p: &Option<T>) -> Option<T> {
        *p
    }

    fn bind<F>(self, f: F) -> (r: Option<T>) where F: FnOnce(A) -> Option<T>
        ensures
            option_bound(self, f, r),
    {
        match self {
            Some(a) => f(a),
            None => None,
        }
    }
}

/// Binding a present `x` with a transform that only ever wraps `f(x)` as
/// present yields exactly `Some(f(x))`.
pub proof fn lemma_bind_of_wrapped<A, T, G: FnOnce(A) -> Option<T>>(
    x: A,
    f: spec_fn(A) -> T,
    g: G,
    r: Option<T>,
)
    requires
        forall|a: A, o: Option<T>| #[trigger] g.ensures((a,), o) ==> o == Some(f(a)),
        option_bound(Some(x), g, r),
    ensures
        r == Some(f(x)),
{
}

} // verus!
