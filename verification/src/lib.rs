//! Combinators over a success-or-failure outcome whose transformation step
//! is supplied by the caller.
//!
//! Every operation follows one evaluation rule: branch on the active
//! variant of the outcome first, then either invoke the supplied step on
//! the matching payload — exactly once — or skip the step and derive the
//! result directly from the non-matching payload. The branch phase is
//! exposed on its own in [`step`], so that a host which must suspend while
//! the step runs can still route every decision through verified code.
use vstd::prelude::*;

pub mod step;

verus! {

use crate::step::StepPlan;

/// Extra combinators on a success-or-failure value.
///
/// Each method accepts a single-use step (`FnOnce`), invokes it at most
/// once, and only when the active variant matches the operation's branch:
/// the step's precondition is demanded only in that case, and the
/// non-matching payload is passed through untouched.
pub trait ExtraResult<T, E>: Sized {
    /// The success-or-failure value this extension is attached to.
    spec fn outcome(self) -> Result<T, E>;

    /// On a success, returns the success of the step's output; on a
    /// failure, returns the failure untouched and the step never runs.
    fn map_step<U, F: FnOnce(T) -> U>(self, f: F) -> (r: Result<U, E>)
        requires
            self.outcome() is Ok ==> call_requires(f, (self.outcome()->Ok_0,)),
        ensures
            self.outcome() is Ok ==> r is Ok && call_ensures(
                f,
                (self.outcome()->Ok_0,),
                r->Ok_0,
            ),
            self.outcome() is Err ==> r == Result::<U, E>::Err(self.outcome()->Err_0),
    ;

    /// On a success, returns the step's output as a plain value; on a
    /// failure, returns the caller-supplied default and the step never
    /// runs.
    fn map_or_step<U, F: FnOnce(T) -> U>(self, default: U, f: F) -> (r: U)
        requires
            self.outcome() is Ok ==> call_requires(f, (self.outcome()->Ok_0,)),
        ensures
            self.outcome() is Ok ==> call_ensures(f, (self.outcome()->Ok_0,), r),
            self.outcome() is Err ==> r == default,
    ;

    /// Exactly one of the two steps runs: the success step on a success
    /// value, the default step on a failure's error. Its output is the
    /// result.
    fn map_or_else_step<U, D: FnOnce(E) -> U, F: FnOnce(T) -> U>(self, default: D, f: F) -> (r: U)
        requires
            self.outcome() is Ok ==> call_requires(f, (self.outcome()->Ok_0,)),
            self.outcome() is Err ==> call_requires(default, (self.outcome()->Err_0,)),
        ensures
            self.outcome() is Ok ==> call_ensures(f, (self.outcome()->Ok_0,), r),
            self.outcome() is Err ==> call_ensures(default, (self.outcome()->Err_0,), r),
    ;

    /// On a failure, returns the failure of the step's output; on a
    /// success, returns the success untouched and the step never runs.
    fn map_err_step<U, F: FnOnce(E) -> U>(self, f: F) -> (r: Result<T, U>)
        requires
            self.outcome() is Err ==> call_requires(f, (self.outcome()->Err_0,)),
        ensures
            self.outcome() is Err ==> r is Err && call_ensures(
                f,
                (self.outcome()->Err_0,),
                r->Err_0,
            ),
            self.outcome() is Ok ==> r == Result::<T, U>::Ok(self.outcome()->Ok_0),
    ;

    /// On a success, returns exactly the outcome the step produces — which
    /// may itself be a failure; on a failure, returns the failure untouched
    /// and the step never runs.
    fn and_then_step<U, F: FnOnce(T) -> Result<U, E>>(self, f: F) -> (r: Result<U, E>)
        requires
            self.outcome() is Ok ==> call_requires(f, (self.outcome()->Ok_0,)),
        ensures
            self.outcome() is Ok ==> call_ensures(f, (self.outcome()->Ok_0,), r),
            self.outcome() is Err ==> r == Result::<U, E>::Err(self.outcome()->Err_0),
    ;

    /// On a failure, returns exactly the outcome the step produces — the
    /// recovery path, which may flip back to a success; on a success,
    /// returns the success untouched and the step never runs.
    fn or_else_step<U, F: FnOnce(E) -> Result<T, U>>(self, f: F) -> (r: Result<T, U>)
        requires
            self.outcome() is Err ==> call_requires(f, (self.outcome()->Err_0,)),
        ensures
            self.outcome() is Err ==> call_ensures(f, (self.outcome()->Err_0,), r),
            self.outcome() is Ok ==> r == Result::<T, U>::Ok(self.outcome()->Ok_0),
    ;

    /// On a success, returns the success value itself and the step never
    /// runs; on a failure, returns the recovery step's output.
    fn unwrap_or_else_step<F: FnOnce(E) -> T>(self, f: F) -> (r: T)
        requires
            self.outcome() is Err ==> call_requires(f, (self.outcome()->Err_0,)),
        ensures
            self.outcome() is Ok ==> r == self.outcome()->Ok_0,
            self.outcome() is Err ==> call_ensures(f, (self.outcome()->Err_0,), r),
    ;

    /// Runs the observer step on a borrow of the success value — for its
    /// side effect only, exactly once, and only on a success — then
    /// returns the outcome itself, untouched in variant and payload.
    fn inspect_step<F: FnOnce(&T)>(self, f: F) -> (r: Self)
        requires
            self.outcome() is Ok ==> call_requires(f, (&self.outcome()->Ok_0,)),
        ensures
            r == self,
            self.outcome() is Ok ==> call_ensures(f, (&self.outcome()->Ok_0,), ()),
    ;

    /// Runs the observer step on a borrow of the failure's error — for its
    /// side effect only, exactly once, and only on a failure — then
    /// returns the outcome itself, untouched in variant and payload.
    fn inspect_err_step<F: FnOnce(&E)>(self, f: F) -> (r: Self)
        requires
            self.outcome() is Err ==> call_requires(f, (&self.outcome()->Err_0,)),
        ensures
            r == self,
            self.outcome() is Err ==> call_ensures(f, (&self.outcome()->Err_0,), ()),
    ;

    /// On a success, returns exactly what the predicate step says of a
    /// borrow of the value; on a failure, returns `false` and the step
    /// never runs.
    fn is_ok_and_step<F: FnOnce(&T) -> bool>(self, f: F) -> (r: bool)
        requires
            self.outcome() is Ok ==> call_requires(f, (&self.outcome()->Ok_0,)),
        ensures
            self.outcome() is Ok ==> call_ensures(f, (&self.outcome()->Ok_0,), r),
            self.outcome() is Err ==> r == false,
    ;

    /// On a failure, returns exactly what the predicate step says of a
    /// borrow of the error; on a success, returns `false` and the step
    /// never runs.
    fn is_err_and_step<F: FnOnce(&E) -> bool>(self, f: F) -> (r: bool)
        requires
            self.outcome() is Err ==> call_requires(f, (&self.outcome()->Err_0,)),
        ensures
            self.outcome() is Err ==> call_ensures(f, (&self.outcome()->Err_0,), r),
            self.outcome() is Ok ==> r == false,
    ;
}

impl<T, E> ExtraResult<T, E> for Result<T, E> {
    open spec fn outcome(self) -> Result<T, E> {
        self
    }

    fn map_step<U, F: FnOnce(T) -> U>(self, f: F) -> (r: Result<U, E>) {
        match crate::step::success_plan::<T, E, U>(self) {
            StepPlan::Run(v) => crate::step::map_finish(f(v)),
            StepPlan::Done(d) => d,
        }
    }

    fn map_or_step<U, F: FnOnce(T) -> U>(self, default: U, f: F) -> (r: U) {
        match crate::step::map_or_plan(self, default) {
            StepPlan::Run(v) => f(v),
            StepPlan::Done(d) => d,
        }
    }

    fn map_or_else_step<U, D: FnOnce(E) -> U, F: FnOnce(T) -> U>(
        self,
        default: D,
        f: F,
    ) -> (r: U) {
        match self {
            Ok(v) => f(v),
            Err(e) => default(e),
        }
    }

    fn map_err_step<U, F: FnOnce(E) -> U>(self, f: F) -> (r: Result<T, U>) {
        match crate::step::failure_plan::<T, E, U>(self) {
            StepPlan::Run(e) => crate::step::map_err_finish(f(e)),
            StepPlan::Done(d) => d,
        }
    }

    fn and_then_step<U, F: FnOnce(T) -> Result<U, E>>(self, f: F) -> (r: Result<U, E>) {
        match crate::step::success_plan::<T, E, U>(self) {
            StepPlan::Run(v) => f(v),
            StepPlan::Done(d) => d,
        }
    }

    fn or_else_step<U, F: FnOnce(E) -> Result<T, U>>(self, f: F) -> (r: Result<T, U>) {
        match crate::step::failure_plan::<T, E, U>(self) {
            StepPlan::Run(e) => f(e),
            StepPlan::Done(d) => d,
        }
    }

    fn unwrap_or_else_step<F: FnOnce(E) -> T>(self, f: F) -> (r: T) {
        match crate::step::unwrap_or_else_plan(self) {
            StepPlan::Run(e) => f(e),
            StepPlan::Done(v) => v,
        }
    }

    fn inspect_step<F: FnOnce(&T)>(self, f: F) -> (r: Self) {
        if let Some(v) = crate::step::inspect_plan(&self) {
            f(v);
        }
        self
    }

    fn inspect_err_step<F: FnOnce(&E)>(self, f: F) -> (r: Self) {
        if let Some(e) = crate::step::inspect_err_plan(&self) {
            f(e);
        }
        self
    }

    fn is_ok_and_step<F: FnOnce(&T) -> bool>(self, f: F) -> (r: bool) {
        match crate::step::is_ok_and_plan(self) {
            StepPlan::Run(v) => f(&v),
            StepPlan::Done(b) => b,
        }
    }

    fn is_err_and_step<F: FnOnce(&E) -> bool>(self, f: F) -> (r: bool) {
        match crate::step::is_err_and_plan(self) {
            StepPlan::Run(e) => f(&e),
            StepPlan::Done(b) => b,
        }
    }
}

} // verus!
