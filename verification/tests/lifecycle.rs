use trading_bots::lifecycle::{
    engine_stop_policy, settings_source_check, start_policy, stop_policy, tasks_need_start,
    CacheKind, CacheOutcome, CacheStart, CacheStop, SpawnPoint, StartAction, StopAction,
};
use trading_bots::response::Response;
use trading_bots::states::LifecycleState;

fn start_name(a: &StartAction) -> String {
    match a {
        StartAction::SetState(s) => format!("state:{:?}", s),
        StartAction::Load => "load".into(),
        StartAction::Spawn => "spawn".into(),
        StartAction::Store => "store".into(),
        StartAction::Reset => "reset".into(),
        StartAction::Finish(Ok(())) => "ok".into(),
        StartAction::Finish(Err(r)) => format!("err:{}:{}", r.code, r.message),
    }
}

fn run_start(kind: CacheKind, answer: impl Fn(&StartAction) -> CacheOutcome) -> Vec<String> {
    let (mut s, mut a) = CacheStart::begin(start_policy(kind));
    let mut trace = vec![start_name(&a)];
    for _ in 0..10 {
        if let StartAction::Finish(_) = a {
            break;
        }
        let o = answer(&a);
        let (n, na) = s.step(o);
        s = n;
        a = na;
        trace.push(start_name(&a));
    }
    trace
}

fn fail(message: &str) -> CacheOutcome {
    CacheOutcome::Failed(Response::server_error(message.to_string()))
}

#[test]
fn plain_cache_starts_in_order() {
    let trace = run_start(CacheKind::Pairs, |_| CacheOutcome::Done);
    assert_eq!(trace, vec!["state:Starting", "load", "state:Running", "store", "ok"]);
}

#[test]
fn caches_with_background_tasks_launch_them() {
    assert_eq!(
        run_start(CacheKind::Assets, |_| CacheOutcome::Done),
        vec!["state:Starting", "load", "state:Running", "store", "spawn", "ok"]
    );
    assert_eq!(
        run_start(CacheKind::Tasks, |_| CacheOutcome::Done),
        vec!["state:Starting", "load", "spawn", "state:Running", "store", "ok"]
    );
    assert_eq!(start_policy(CacheKind::Strategies).spawn, SpawnPoint::AfterStore);
}

#[test]
fn failed_load_resets_the_cache() {
    let trace = run_start(CacheKind::Actions, |a| match a {
        StartAction::Load => CacheOutcome::Failed(Response::not_found("no table".into())),
        _ => CacheOutcome::Done,
    });
    assert_eq!(trace, vec!["state:Starting", "load", "reset", "err:404:no table"]);
}

#[test]
fn failing_reset_replaces_the_error_only_for_settings() {
    let answer = |a: &StartAction| match a {
        StartAction::Load => fail("load"),
        StartAction::Reset => fail("reset"),
        _ => CacheOutcome::Done,
    };
    assert_eq!(
        run_start(CacheKind::IntegrationsSettings, answer),
        vec!["state:Starting", "load", "reset", "err:500:reset"]
    );
    assert_eq!(
        run_start(CacheKind::Integrations, answer),
        vec!["state:Starting", "load", "reset", "err:500:load"]
    );
}

#[test]
fn failed_store_resets_except_for_strategies_and_indicators() {
    let answer = |a: &StartAction| match a {
        StartAction::Store => fail("store"),
        _ => CacheOutcome::Done,
    };
    assert_eq!(
        run_start(CacheKind::Assets, answer),
        vec!["state:Starting", "load", "state:Running", "store", "reset", "err:500:store"]
    );
    assert_eq!(
        run_start(CacheKind::Strategies, answer),
        vec!["state:Starting", "load", "state:Running", "store", "err:500:store"]
    );
    assert_eq!(
        run_start(CacheKind::Indicators, answer),
        vec!["state:Starting", "load", "state:Running", "store", "err:500:store"]
    );
}

#[test]
fn failed_state_write_stops_the_start_without_reset() {
    let trace = run_start(CacheKind::OrderStatus, |a| match a {
        StartAction::SetState(LifecycleState::Running) => fail("cache"),
        _ => CacheOutcome::Done,
    });
    assert_eq!(trace, vec!["state:Starting", "load", "state:Running", "err:500:cache"]);
    let trace = run_start(CacheKind::OrderStatus, |_| fail("down"));
    assert_eq!(trace, vec!["state:Starting", "err:500:down"]);
}

fn stop_name(a: &StopAction) -> String {
    match a {
        StopAction::SetState(s) => format!("state:{:?}", s),
        StopAction::RemoveAll => "remove".into(),
        StopAction::Abort => "abort".into(),
        StopAction::Finish(Ok(())) => "ok".into(),
        StopAction::Finish(Err(r)) => format!("err:{}", r.message),
    }
}

fn run_stop(policy: trading_bots::lifecycle::StopPolicy, answer: impl Fn(&StopAction) -> CacheOutcome) -> Vec<String> {
    let (mut s, mut a) = CacheStop::begin(policy);
    let mut trace = vec![stop_name(&a)];
    for _ in 0..10 {
        if let StopAction::Finish(_) = a {
            break;
        }
        let o = answer(&a);
        let (n, na) = s.step(o);
        s = n;
        a = na;
        trace.push(stop_name(&a));
    }
    trace
}

#[test]
fn caches_stop_in_order() {
    assert_eq!(
        run_stop(stop_policy(CacheKind::Pairs), |_| CacheOutcome::Done),
        vec!["state:Stopping", "remove", "state:Off", "ok"]
    );
    assert_eq!(
        run_stop(stop_policy(CacheKind::Assets), |_| CacheOutcome::Done),
        vec!["state:Stopping", "remove", "abort", "state:Off", "ok"]
    );
    assert_eq!(
        run_stop(engine_stop_policy(), |_| CacheOutcome::Done),
        vec!["state:Stopping", "abort", "state:Off", "ok"]
    );
}

#[test]
fn a_failed_stop_never_marks_the_cache_off() {
    let trace = run_stop(stop_policy(CacheKind::Tasks), |a| match a {
        StopAction::RemoveAll => fail("gone"),
        _ => CacheOutcome::Done,
    });
    assert_eq!(trace, vec!["state:Stopping", "remove", "err:gone"]);
}

#[test]
fn task_cache_starts_only_when_not_running() {
    assert!(!tasks_need_start(LifecycleState::Running));
    assert!(tasks_need_start(LifecycleState::Off));
    assert!(tasks_need_start(LifecycleState::Starting));
}

#[test]
fn settings_need_running_integrations() {
    match settings_source_check(None) {
        Err((reset, r)) => {
            assert!(!reset);
            assert_eq!(r.code, 500);
            assert_eq!(r.message, "Integrations cache not initialized");
        }
        Ok(()) => panic!("expected a refusal"),
    }
    match settings_source_check(Some(LifecycleState::Stopping)) {
        Err((reset, r)) => {
            assert!(reset);
            assert_eq!(r.message, "Integrations cache not running");
        }
        Ok(()) => panic!("expected a refusal"),
    }
    assert!(settings_source_check(Some(LifecycleState::Running)).is_ok());
}
