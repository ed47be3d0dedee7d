use extra_result::step::failure_plan;
use extra_result::step::inspect_err_plan;
use extra_result::step::inspect_plan;
use extra_result::step::is_err_and_plan;
use extra_result::step::is_ok_and_plan;
use extra_result::step::map_err_finish;
use extra_result::step::map_finish;
use extra_result::step::map_or_plan;
use extra_result::step::success_plan;
use extra_result::step::unwrap_or_else_plan;
use extra_result::step::StepPlan;
use extra_result::ExtraResult;

#[test]
fn success_plan_runs_step_on_ok() {
    assert!(matches!(
        success_plan::<u8, u8, u16>(Ok(4)),
        StepPlan::Run(4)
    ));
}

#[test]
fn success_plan_passes_failure_through() {
    assert!(matches!(
        success_plan::<u8, u8, u16>(Err(9)),
        StepPlan::Done(Err(9))
    ));
}

#[test]
fn failure_plan_runs_step_on_err() {
    assert!(matches!(
        failure_plan::<u8, u8, u16>(Err(9)),
        StepPlan::Run(9)
    ));
}

#[test]
fn failure_plan_passes_success_through() {
    assert!(matches!(
        failure_plan::<u8, u8, u16>(Ok(4)),
        StepPlan::Done(Ok(4))
    ));
}

#[test]
fn map_or_plan_picks_default_on_err() {
    assert!(matches!(map_or_plan::<u8, u8, u8>(Ok(4), 7), StepPlan::Run(4)));
    assert!(matches!(
        map_or_plan::<u8, u8, u8>(Err(9), 7),
        StepPlan::Done(7)
    ));
}

#[test]
fn unwrap_or_else_plan_keeps_success_value() {
    assert!(matches!(
        unwrap_or_else_plan::<u8, u8>(Ok(4)),
        StepPlan::Done(4)
    ));
    assert!(matches!(
        unwrap_or_else_plan::<u8, u8>(Err(9)),
        StepPlan::Run(9)
    ));
}

#[test]
fn predicate_plans_are_false_on_the_other_variant() {
    assert!(matches!(is_ok_and_plan::<u8, u8>(Ok(4)), StepPlan::Run(4)));
    assert!(matches!(
        is_ok_and_plan::<u8, u8>(Err(9)),
        StepPlan::Done(false)
    ));
    assert!(matches!(is_err_and_plan::<u8, u8>(Err(9)), StepPlan::Run(9)));
    assert!(matches!(
        is_err_and_plan::<u8, u8>(Ok(4)),
        StepPlan::Done(false)
    ));
}

#[test]
fn inspect_plans_borrow_the_matching_payload() {
    let ok: Result<u8, u8> = Ok(4);
    let err: Result<u8, u8> = Err(9);
    assert_eq!(inspect_plan(&ok), Some(&4));
    assert_eq!(inspect_plan(&err), None);
    assert_eq!(inspect_err_plan(&err), Some(&9));
    assert_eq!(inspect_err_plan(&ok), None);
}

#[test]
fn finish_wraps_the_step_output() {
    assert_eq!(map_finish::<u8, u8>(4), Ok(4));
    assert_eq!(map_err_finish::<u8, u8>(9), Err(9));
}

#[test]
fn map_step_runs_step_exactly_once_on_ok() {
    let mut calls = 0;
    let r = Result::<u8, u8>::Ok(1).map_step(|x| {
        calls += 1;
        x + 1
    });
    assert_eq!(r, Ok(2));
    assert_eq!(calls, 1);
}

#[test]
fn map_step_never_runs_step_on_err() {
    let mut calls = 0;
    let r = Result::<u8, u8>::Err(5).map_step(|x| {
        calls += 1;
        x + 1
    });
    assert_eq!(r, Err(5));
    assert_eq!(calls, 0);
}

#[test]
fn map_err_step_never_runs_step_on_ok() {
    let mut calls = 0;
    let r = Result::<u8, u8>::Ok(5).map_err_step(|x| {
        calls += 1;
        x + 1
    });
    assert_eq!(r, Ok(5));
    assert_eq!(calls, 0);
}

#[test]
fn map_or_else_step_runs_exactly_one_step() {
    let mut ok_calls = 0;
    let mut err_calls = 0;
    let r = Result::<u8, u8>::Err(3).map_or_else_step(
        |e| {
            err_calls += 1;
            e + 1
        },
        |v| {
            ok_calls += 1;
            v + 10
        },
    );
    assert_eq!(r, 4);
    assert_eq!(ok_calls, 0);
    assert_eq!(err_calls, 1);
}

#[test]
fn and_then_step_returns_the_step_failure() {
    let r: Result<u8, u8> = Result::<u8, u8>::Ok(1).and_then_step(|x| Err(x + 41));
    assert_eq!(r, Err(42));
}

#[test]
fn unwrap_or_else_step_never_runs_step_on_ok() {
    let mut calls = 0;
    let r = Result::<u8, u8>::Ok(7).unwrap_or_else_step(|e| {
        calls += 1;
        e + 1
    });
    assert_eq!(r, 7);
    assert_eq!(calls, 0);
}
