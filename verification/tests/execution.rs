use trading_bots::binance::OrderEndpoint;
use trading_bots::entities::strategies::StrategyRequest;
use trading_bots::guard::{GuardCommand, GuardStep, StrategiesExecutionGuard};
use trading_bots::runtime::{RunAction, StepOutcome, StrategyRun};
use trading_bots::states::{TradingEnvironment, TradingState};

fn describe(a: &RunAction) -> String {
    match a {
        RunAction::Acquire => "acquire".into(),
        RunAction::Evaluate => "evaluate".into(),
        RunAction::Lock => "lock".into(),
        RunAction::ResolveCredentials => "credentials".into(),
        RunAction::PostOrder(OrderEndpoint::Test, s) => format!("post-test {}", s),
        RunAction::PostOrder(OrderEndpoint::Live, s) => format!("post-live {}", s),
        RunAction::MarkSaving => "saving".into(),
        RunAction::StoreOrder => "store".into(),
        RunAction::PublishOrder => "publish".into(),
        RunAction::ReportError(e) => format!("error:{}", e),
        RunAction::ReportExternalError(e) => format!("external:{}", e),
        RunAction::Complete => "complete".into(),
        RunAction::Release => "release".into(),
        RunAction::Finish => "finish".into(),
    }
}

/// Runs an evaluation, answering each action with the outcome `answer` gives.
fn run(can_trade: bool, env: TradingEnvironment, answer: impl Fn(&RunAction) -> StepOutcome) -> Vec<String> {
    let (mut run, mut action) = StrategyRun::start(can_trade, env, "BTCUSDT".to_string());
    let mut trace = vec![describe(&action)];
    for _ in 0..20 {
        if let RunAction::Finish = action {
            break;
        }
        let outcome = answer(&action);
        let (next, next_action) = run.step(outcome);
        run = next;
        action = next_action;
        trace.push(describe(&action));
    }
    trace
}

#[test]
fn successful_trading_run() {
    let trace = run(true, TradingEnvironment::PROD, |_| StepOutcome::Done);
    assert_eq!(
        trace,
        vec![
            "acquire", "evaluate", "lock", "credentials", "post-live BTCUSDT", "saving", "store", "publish",
            "complete", "release", "finish"
        ]
    );
}

#[test]
fn strategy_without_trading_permission_never_reaches_the_exchange() {
    let trace = run(false, TradingEnvironment::DEV, |_| StepOutcome::Done);
    assert_eq!(
        trace,
        vec!["acquire", "evaluate", "lock", "saving", "store", "publish", "complete", "release", "finish"]
    );
}

#[test]
fn failed_acquisition_ends_the_run() {
    let trace = run(true, TradingEnvironment::DEV, |_| StepOutcome::Failed("busy".into()));
    assert_eq!(trace, vec!["acquire", "finish"]);
}

#[test]
fn failed_evaluation_is_reported_and_released() {
    let trace = run(true, TradingEnvironment::DEV, |a| match a {
        RunAction::Evaluate => StepOutcome::Failed("Cooldown is active".into()),
        _ => StepOutcome::Done,
    });
    assert_eq!(trace, vec!["acquire", "evaluate", "error:Cooldown is active", "release", "finish"]);
}

#[test]
fn exchange_failure_is_reported_as_external() {
    let trace = run(true, TradingEnvironment::DEV, |a| match a {
        RunAction::PostOrder(_, _) => StepOutcome::Failed("timeout".into()),
        _ => StepOutcome::Done,
    });
    assert_eq!(
        trace,
        vec!["acquire", "evaluate", "lock", "credentials", "post-test BTCUSDT", "external:timeout", "release", "finish"]
    );
}

#[test]
fn failed_store_is_an_internal_error_even_after_saving_fails() {
    let trace = run(false, TradingEnvironment::DEV, |a| match a {
        RunAction::MarkSaving => StepOutcome::Failed("cache".into()),
        RunAction::StoreOrder => StepOutcome::Failed("db".into()),
        _ => StepOutcome::Done,
    });
    assert_eq!(trace, vec!["acquire", "evaluate", "lock", "saving", "store", "error:db", "release", "finish"]);
}

#[test]
fn every_run_finishes_within_ten_answers() {
    let failing_points = ["evaluate", "lock", "credentials", "post-live BTCUSDT", "store"];
    for point in failing_points {
        let trace = run(true, TradingEnvironment::PROD, |a| {
            if describe(a) == point { StepOutcome::Failed("x".into()) } else { StepOutcome::Done }
        });
        assert!(trace.len() <= 11);
        assert_eq!(trace.last().map(|s| s.as_str()), Some("finish"));
        assert_eq!(trace.iter().filter(|s| s.as_str() == "release").count(), 1);
    }
}

fn request(id: i32) -> StrategyRequest {
    let mut r = StrategyRequest::blank();
    r.id = Some(id);
    r
}

fn states(plan: &[GuardStep]) -> Vec<TradingState> {
    plan.iter()
        .filter_map(|s| match s.command {
            GuardCommand::SetState(st) => Some(st),
            _ => None,
        })
        .collect()
}

#[test]
fn guard_moves_strategy_through_its_states() {
    let (mut guard, plan) = StrategiesExecutionGuard::new(TradingEnvironment::DEV, request(4));
    assert!(!guard.success);
    assert_eq!(states(&plan), vec![TradingState::Running]);
    assert_eq!(states(&guard.lock()), vec![TradingState::Trading]);
    assert_eq!(states(&guard.saving()), vec![TradingState::Saving]);
    guard.ok();
    assert!(guard.success);
    let release = guard.release(1_700_000_000);
    assert_eq!(release.len(), 4);
    assert!(matches!(release[0].command, GuardCommand::RecordMetrics(true)));
    assert!(!release[0].stops_on_failure);
    match &release[2].command {
        GuardCommand::Persist(m) => {
            assert_eq!(m.last_execution, Some(1_700_000_000));
            assert_eq!(m.id, Some(4));
        }
        _ => panic!("expected the strategy to be stored"),
    }
    assert!(release[2].stops_on_failure);
    assert_eq!(states(&release), vec![TradingState::Ready]);
}

#[test]
fn guard_error_plans_free_the_strategy() {
    let (mut guard, _) = StrategiesExecutionGuard::new(TradingEnvironment::PROD, request(2));
    let plan = guard.err("Indicator not met".into());
    assert_eq!(plan.len(), 2);
    assert!(matches!(&plan[0].command, GuardCommand::SetError(Some(e)) if e == "Indicator not met"));
    assert_eq!(states(&plan), vec![TradingState::Ready]);

    let plan = guard.ext_err("refused".into(), 99);
    assert_eq!(guard.model.error_last_date, Some(99));
    assert_eq!(plan.len(), 4);
    assert!(matches!(plan[1].command, GuardCommand::MarkModelError));
    assert!(matches!(&plan[2].command, GuardCommand::Persist(m) if m.error_last_date == Some(99)));
    assert_eq!(states(&plan), vec![TradingState::Ready]);

    let release = guard.release(100);
    assert_eq!(release.len(), 1);
    assert!(matches!(release[0].command, GuardCommand::RecordMetrics(false)));
}
