//! The synchronous half of each combinator: deciding, from the active
//! variant of an outcome, whether the caller-supplied step runs at all,
//! and with which payload; and wrapping a step's output back into an
//! outcome once it has produced one.
use vstd::prelude::*;

verus! {

/// What a combinator does after branching on the active variant of its
/// outcome: either run the caller-supplied step on the payload carried by
/// `Run`, or skip the step entirely and finish with the value carried by
/// `Done`.
pub enum StepPlan<A, D> {
    /// The active variant matches the operation's branch: the step must be
    /// invoked, exactly once, with this payload.
    Run(A),
    /// The active variant does not match: the step must not be invoked, and
    /// this value is the operation's final result.
    Done(D),
}

/// Branch phase of the operations whose step transforms a success
/// (`map`-like and `and_then`-like): a success hands its value to the step,
/// a failure is passed through untouched and the step never runs.
pub fn success_plan<T, E, U>(outcome: Result<T, E>) -> (plan: StepPlan<T, Result<U, E>>)
    ensures
        outcome is Ok ==> plan == StepPlan::<T, Result<U, E>>::Run(outcome->Ok_0),
        outcome is Err ==> plan == StepPlan::<T, Result<U, E>>::Done(
            Result::<U, E>::Err(outcome->Err_0),
        ),
{
    match outcome {
        Ok(v) => StepPlan::Run(v),
        Err(e) => StepPlan::Done(Err(e)),
    }
}

/// Branch phase of the operations whose step transforms a failure
/// (`map_err`-like and `or_else`-like): a failure hands its error to the
/// step, a success is passed through untouched and the step never runs.
pub fn failure_plan<T, E, U>(outcome: Result<T, E>) -> (plan: StepPlan<E, Result<T, U>>)
    ensures
        outcome is Err ==> plan == StepPlan::<E, Result<T, U>>::Run(outcome->Err_0),
        outcome is Ok ==> plan == StepPlan::<E, Result<T, U>>::Done(
            Result::<T, U>::Ok(outcome->Ok_0),
        ),
{
    match outcome {
        Ok(v) => StepPlan::Done(Ok(v)),
        Err(e) => StepPlan::Run(e),
    }
}

/// Branch phase of `map_or`: a success hands its value to the step, a
/// failure discards its error and finishes with the caller's default.
pub fn map_or_plan<T, E, U>(outcome: Result<T, E>, default: U) -> (plan: StepPlan<T, U>)
    ensures
        outcome is Ok ==> plan == StepPlan::<T, U>::Run(outcome->Ok_0),
        outcome is Err ==> plan == StepPlan::<T, U>::Done(default),
{
    match outcome {
        Ok(v) => StepPlan::Run(v),
        Err(_) => StepPlan::Done(default),
    }
}

/// Branch phase of `unwrap_or_else`: a success is already the final plain
/// value, a failure hands its error to the recovery step.
pub fn unwrap_or_else_plan<T, E>(outcome: Result<T, E>) -> (plan: StepPlan<E, T>)
    ensures
        outcome is Ok ==> plan == StepPlan::<E, T>::Done(outcome->Ok_0),
        outcome is Err ==> plan == StepPlan::<E, T>::Run(outcome->Err_0),
{
    match outcome {
        Ok(v) => StepPlan::Done(v),
        Err(e) => StepPlan::Run(e),
    }
}

/// Branch phase of `is_ok_and`: a success hands its value to the
/// predicate step, a failure is `false` outright and the step never runs.
pub fn is_ok_and_plan<T, E>(outcome: Result<T, E>) -> (plan: StepPlan<T, bool>)
    ensures
        outcome is Ok ==> plan == StepPlan::<T, bool>::Run(outcome->Ok_0),
        outcome is Err ==> plan == StepPlan::<T, bool>::Done(false),
{
    match outcome {
        Ok(v) => StepPlan::Run(v),
        Err(_) => StepPlan::Done(false),
    }
}

/// Branch phase of `is_err_and`: a failure hands its error to the
/// predicate step, a success is `false` outright and the step never runs.
pub fn is_err_and_plan<T, E>(outcome: Result<T, E>) -> (plan: StepPlan<E, bool>)
    ensures
        outcome is Err ==> plan == StepPlan::<E, bool>::Run(outcome->Err_0),
        outcome is Ok ==> plan == StepPlan::<E, bool>::Done(false),
{
    match outcome {
        Ok(_) => StepPlan::Done(false),
        Err(e) => StepPlan::Run(e),
    }
}

/// Branch phase of `inspect`: the observer step receives a borrow of the
/// success value, and runs exactly when one is present; the outcome itself
/// is left for the caller to return untouched.
pub fn inspect_plan<T, E>(outcome: &Result<T, E>) -> (plan: Option<&T>)
    ensures
        outcome is Ok <==> plan is Some,
        outcome is Ok ==> plan->Some_0 == outcome->Ok_0,
{
    match outcome {
        Ok(v) => Some(v),
        Err(_) => None,
    }
}

/// Branch phase of `inspect_err`: the observer step receives a borrow of
/// the failure's error, and runs exactly when one is present; the outcome
/// itself is left for the caller to return untouched.
pub fn inspect_err_plan<T, E>(outcome: &Result<T, E>) -> (plan: Option<&E>)
    ensures
        outcome is Err <==> plan is Some,
        outcome is Err ==> plan->Some_0 == outcome->Err_0,
{
    match outcome {
        Ok(_) => None,
        Err(e) => Some(e),
    }
}

/// Completion phase of `map`-like operations: the step's output becomes the
/// new success value.
pub fn map_finish<U, E>(value: U) -> (r: Result<U, E>)
    ensures
        r == Result::<U, E>::Ok(value),
{
    Ok(value)
}

/// Completion phase of `map_err`-like operations: the step's output becomes
/// the new error value.
pub fn map_err_finish<T, U>(value: U) -> (r: Result<T, U>)
    ensures
        r == Result::<T, U>::Err(value),
{
    Err(value)
}

} // verus!
