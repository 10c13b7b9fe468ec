//! Containers written from scratch: an optional value and a result-or-error,
//! each with a `map` that changes only the type of the present or success value.

use vstd::prelude::*;

verus! {

/// Holds exactly one value of type `A`, or nothing.
#[derive(Debug, PartialEq)]
pub enum MyOption<A> {
    Present(A),
    Absent,
}

/// Holds exactly one success value of type `A`, or exactly one error of type `E`.
#[derive(Debug, PartialEq)]
pub enum MyResult<A, E> {
    Success(A),
    Error(E),
}

/// The relation between a `MyOption`, a transform and the outcome of mapping:
/// a present value is replaced by one the transform may return for it, and
/// absence stays absence.
pub open spec fn option_mapped<A, B, F: FnOnce(A) -> B>(o: MyOption<A>, f: F, r: MyOption<B>) -> bool {
    match o {
        MyOption::Present(a) => r matches MyOption::Present(b) && f.ensures((a,), b),
        MyOption::Absent => r is Absent,
    }
}

/// The relation between a `MyResult`, a transform and the outcome of mapping:
/// a success value is replaced by one the transform may return for it, and an
/// error is kept as it was.
pub open spec fn result_mapped<A, B, E, F: FnOnce(A) -> B>(
    o: MyResult<A, E>,
    f: F,
    r: MyResult<B, E>,
) -> bool {
    match o {
        MyResult::Success(a) => r matches MyResult::Success(b) && f.ensures((a,), b),
        MyResult::Error(e) => r == MyResult::<B, E>::Error(e),
    }
}

impl<A> MyOption<A> {
    /// Applies `f` to the held value, if there is one; `f` is not called on absence.
    pub fn map<F: FnOnce(A) -> B, B>(self, f: F) -> (r: MyOption<B>)
        requires
            self matches MyOption::Present(a) ==> f.requires((a,)),
        ensures
            option_mapped(self, f, r),
    {
        match self {
            MyOption::Present(a) => MyOption::Present(f(a)),
            MyOption::Absent => MyOption::Absent,
        }
    }
}

impl<A, E> MyResult<A, E> {
    /// Applies `f` to the success value; an error is handed back untouched and
    /// `f` is not called.
    pub fn map<F: FnOnce(A) -> B, B>(self, f: F) -> (r: MyResult<B, E>)
        requires
            self matches MyResult::Success(a) ==> f.requires((a,)),
        ensures
            result_mapped(self, f, r),
    {
        match self {
            MyResult::Success(a) => MyResult::Success(f(a)),
            MyResult::Error(e) => MyResult::Error(e),
        }
    }
}

} // verus!
