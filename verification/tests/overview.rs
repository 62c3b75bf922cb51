use trading_bots::amount::Amount;
use trading_bots::entities::actions::Action;
use trading_bots::entities::assets::Asset;
use trading_bots::entities::indicators::Indicator;
use trading_bots::entities::pairs::Pair;
use trading_bots::entities::strategies::{Strategy, StrategyRequest};
use trading_bots::health::{bool_text, CoreHealthReadings, HealthCheck, HealthReadings};
use trading_bots::overview::{
    completed_status, find_action, subscribed_strategies, find_asset, find_pair, find_strategy, find_ticker,
    select_indicators, CacheSnapshot, CacheStrategy, OverviewLookup, OverviewVerdicts,
    StatusMark, StrategiesOverview, Ticker,
};
use trading_bots::states::TradingState;
use trading_bots::stored::{
    join_strategy_pairs, links_of_strategies, PairAsset, PairAssets, StrategiesPairAssets,
    StrategyPairLink,
};

fn zero() -> Amount {
    Amount { mantissa: 0, scale: 0 }
}

fn strategy(id: i32) -> Strategy {
    let mut s = Strategy::default_record();
    s.id = id;
    s.is_active = true;
    s
}

fn indicator(id: i32, strategy_id: i32) -> Indicator {
    let mut i = Indicator::default_record();
    i.id = id;
    i.strategy_id = strategy_id;
    i
}

fn action(id: i32, strategy_id: i32, pair_id: i32) -> Action {
    let mut a = Action::default_record();
    a.id = id;
    a.strategy_id = strategy_id;
    a.pair_id = pair_id;
    a
}

fn pair(id: i32, base: i32, quote: i32, symbol: &str) -> Pair {
    let mut p = Pair::default_record();
    p.id = id;
    p.base_asset_id = base;
    p.quote_asset_id = quote;
    p.symbol = symbol.to_string();
    p
}

fn asset(id: i32) -> Asset {
    let mut a = Asset::default_record();
    a.id = id;
    a
}

fn ticker(symbol: &str) -> Ticker {
    Ticker {
        symbol: symbol.to_string(),
        open: zero(),
        high: zero(),
        low: zero(),
        close: Amount { mantissa: 42, scale: 0 },
    }
}

fn snapshot(state: TradingState) -> CacheSnapshot {
    CacheSnapshot {
        strategies: vec![CacheStrategy { model: strategy(1), state }],
        indicators: Some(vec![indicator(1, 1), indicator(2, 7), indicator(3, 1)]),
        actions: vec![action(5, 1, 10)],
        pairs: vec![pair(10, 100, 200, "BTCUSDT")],
        assets: vec![asset(100), asset(200)],
        tickers: vec![ticker("ETHUSDT"), ticker("BTCUSDT")],
        order_status: Some(vec![
            StatusMark { id: 1, completed: false },
            StatusMark { id: 3, completed: true },
        ]),
    }
}

#[test]
fn overview_gathers_everything_the_evaluation_needs() {
    let snap = snapshot(TradingState::Ready);
    match StrategiesOverview::get_strategy_overview(&snap, 1, &"BTCUSDT".to_string()) {
        OverviewLookup::Found(o) => {
            assert_eq!(o.strategy.id, 1);
            assert_eq!(o.indicators.len(), 2);
            assert_eq!(o.indicators[0].id, 1);
            assert_eq!(o.indicators[1].id, 3);
            assert_eq!(o.action.id, 5);
            assert_eq!(o.pair.id, 10);
            assert_eq!(o.base_asset.id, 100);
            assert_eq!(o.quote_asset.id, 200);
            assert_eq!(o.ticker.symbol, "BTCUSDT");
            assert_eq!(o.ticker.close.mantissa, 42);
            assert_eq!(o.order_status.len(), 2);
        }
        _ => panic!("everything is cached"),
    }
}

#[test]
fn busy_strategy_is_skipped() {
    let snap = snapshot(TradingState::Trading);
    assert!(matches!(
        StrategiesOverview::get_strategy_overview(&snap, 1, &"BTCUSDT".to_string()),
        OverviewLookup::Busy
    ));
}

#[test]
fn missing_pieces_make_the_overview_unavailable() {
    let snap = snapshot(TradingState::Ready);
    assert!(matches!(
        StrategiesOverview::get_strategy_overview(&snap, 2, &"BTCUSDT".to_string()),
        OverviewLookup::Unavailable
    ));
    assert!(matches!(
        StrategiesOverview::get_strategy_overview(&snap, 1, &"XRPUSDT".to_string()),
        OverviewLookup::Unavailable
    ));
    let mut no_status = snapshot(TradingState::Ready);
    no_status.order_status = None;
    assert!(matches!(
        StrategiesOverview::get_strategy_overview(&no_status, 1, &"BTCUSDT".to_string()),
        OverviewLookup::Unavailable
    ));
    let mut no_quote = snapshot(TradingState::Ready);
    no_quote.assets = vec![asset(100)];
    assert!(matches!(
        StrategiesOverview::get_strategy_overview(&no_quote, 1, &"BTCUSDT".to_string()),
        OverviewLookup::Unavailable
    ));
}

#[test]
fn lookups_find_the_first_match() {
    let snap = snapshot(TradingState::Ready);
    assert_eq!(find_strategy(&snap.strategies, 1).map(|c| c.model.id), Some(1));
    assert!(find_strategy(&snap.strategies, 9).is_none());
    assert_eq!(find_action(&snap.actions, 1).map(|a| a.id), Some(5));
    assert_eq!(find_pair(&snap.pairs, 10).map(|p| p.id), Some(10));
    assert_eq!(find_asset(&snap.assets, 200).map(|a| a.id), Some(200));
    assert!(find_ticker(&snap.tickers, &"BTCUSDT".to_string()).is_some());
    let picked = select_indicators(snap.indicators.as_ref().unwrap(), 7);
    assert_eq!(picked.len(), 1);
    assert_eq!(picked[0].id, 2);
}

fn verdicts(indicators: Vec<Result<bool, String>>) -> OverviewVerdicts {
    OverviewVerdicts {
        cooldown_passed: true,
        error_cooldown_passed: true,
        indicators,
        action: Ok(action(5, 1, 10)),
    }
}

fn found_overview() -> trading_bots::overview::StrategyOverview {
    match StrategiesOverview::get_strategy_overview(
        &snapshot(TradingState::Ready),
        1,
        &"BTCUSDT".to_string(),
    ) {
        OverviewLookup::Found(o) => o,
        _ => panic!("everything is cached"),
    }
}

fn failure(o: &trading_bots::overview::StrategyOverview, v: &OverviewVerdicts) -> String {
    match StrategiesOverview::evaluate_strategy_overview(o, v) {
        Ok(_) => panic!("the evaluation must fail"),
        Err(e) => e,
    }
}

#[test]
fn evaluation_stops_at_the_first_failed_rule() {
    let o = found_overview();
    let mut v = verdicts(vec![Ok(true)]);
    v.cooldown_passed = false;
    v.error_cooldown_passed = false;
    assert_eq!(failure(&o, &v), "Cooldown is active");
    v.cooldown_passed = true;
    assert_eq!(failure(&o, &v), "Error cooldown is active");
    let v = verdicts(vec![Ok(true), Ok(false), Err("bad indicator".to_string())]);
    assert_eq!(failure(&o, &v), "Indicator not met");
    let v = verdicts(vec![Ok(true), Err("bad indicator".to_string()), Ok(false)]);
    assert_eq!(failure(&o, &v), "bad indicator");
    let mut v = verdicts(vec![Ok(true)]);
    v.action = Err("no balance".to_string());
    assert_eq!(failure(&o, &v), "no balance");
}

#[test]
fn successful_evaluation_records_the_completed_status() {
    let o = found_overview();
    let v = verdicts(vec![Ok(true), Ok(true)]);
    match StrategiesOverview::evaluate_strategy_overview(&o, &v) {
        Ok(draft) => {
            assert_eq!(draft.action.id, 5);
            assert_eq!(draft.status_id, 3);
        }
        Err(e) => panic!("unexpected failure: {}", e),
    }
    let no_indicators = verdicts(vec![]);
    assert!(StrategiesOverview::evaluate_strategy_overview(&o, &no_indicators).is_ok());
}

#[test]
fn completed_status_defaults_to_two() {
    assert_eq!(completed_status(&vec![]), 2);
    assert_eq!(completed_status(&vec![StatusMark { id: 1, completed: false }]), 2);
    assert_eq!(
        completed_status(&vec![
            StatusMark { id: 4, completed: true },
            StatusMark { id: 6, completed: true }
        ]),
        4
    );
}

#[test]
fn stored_overview_needs_a_strategy_id() {
    let mut req = StrategyRequest::blank();
    match StrategiesOverview::select_strategy_overview(&vec![strategy(1)], &vec![], &vec![], &vec![], &req) {
        Ok(_) => panic!("no id"),
        Err(r) => {
            assert_eq!(r.code, 400);
            assert_eq!(r.message, "Strategy id is null");
        }
    }
    req.id = Some(3);
    match StrategiesOverview::select_strategy_overview(&vec![strategy(1)], &vec![], &vec![], &vec![], &req) {
        Ok(_) => panic!("strategy 3 is not stored"),
        Err(r) => {
            assert_eq!(r.code, 404);
            assert_eq!(r.message, "Strategy not found");
        }
    }
}

#[test]
fn stored_overview_fills_missing_parts_with_defaults() {
    let mut req = StrategyRequest::blank();
    req.id = Some(1);
    let found = match StrategiesOverview::select_strategy_overview(
        &vec![strategy(1)],
        &vec![indicator(4, 2), indicator(8, 1)],
        &vec![action(6, 1, 30)],
        &vec![pair(31, 1, 2, "X")],
        &req,
    ) {
        Ok(o) => o,
        Err(_) => panic!("strategy 1 is stored"),
    };
    assert_eq!(found.strategy.id, 1);
    assert_eq!(found.indicator.id, 8);
    assert_eq!(found.action.id, 6);
    assert_eq!(found.pair.id, 0);
    assert_eq!(found.pair.symbol, "");
}

#[test]
fn strategies_join_their_pairs() {
    let links = vec![
        StrategyPairLink { strategy_id: 1, pair_asset_id: 10 },
        StrategyPairLink { strategy_id: 9, pair_asset_id: 11 },
    ];
    let pa = PairAsset { pair: pair(10, 1, 2, "BTCUSDT"), iceberg_parts_limit: 10 };
    let joined = join_strategy_pairs(&links, &vec![strategy(1)], &vec![pa]);
    assert_eq!(joined.len(), 2);
    assert_eq!(joined[0].strategy.id, 1);
    assert_eq!(joined[0].pair_asset.pair.symbol, "BTCUSDT");
    assert_eq!(joined[0].pair_asset.iceberg_parts_limit, 10);
    assert_eq!(joined[1].strategy.id, 0);
    assert_eq!(joined[1].pair_asset.pair.id, 0);
    assert_eq!(joined[1].pair_asset.iceberg_parts_limit, 0);
}

#[test]
fn active_strategies_get_their_pair_assets() {
    let links = vec![
        StrategyPairLink { strategy_id: 2, pair_asset_id: 10 },
        StrategyPairLink { strategy_id: 1, pair_asset_id: 11 },
        StrategyPairLink { strategy_id: 1, pair_asset_id: 99 },
    ];
    let assets = vec![pair_asset(10, 1, 2, "AB"), pair_asset(11, 1, 3, "AC")];
    let joined = StrategiesPairAssets::select_active_strategies_pair_assets(
        &vec![strategy(1)],
        &links,
        &assets,
    );
    assert_eq!(joined.len(), 2);
    assert_eq!(joined[0].strategy.id, 1);
    assert_eq!(joined[0].pair_asset.pair.symbol, "AC");
    assert_eq!(joined[1].pair_asset.pair.id, 0);
}

#[test]
fn only_links_of_the_given_strategies_are_kept() {
    let links = vec![
        StrategyPairLink { strategy_id: 1, pair_asset_id: 10 },
        StrategyPairLink { strategy_id: 2, pair_asset_id: 11 },
        StrategyPairLink { strategy_id: 1, pair_asset_id: 12 },
    ];
    let kept = links_of_strategies(&links, &vec![1, 5]);
    assert_eq!(kept.len(), 2);
    assert_eq!(kept[0].pair_asset_id, 10);
    assert_eq!(kept[1].pair_asset_id, 12);
    assert_eq!(links_of_strategies(&links, &vec![]).len(), 0);
}

fn pair_asset(id: i32, base: i32, quote: i32, symbol: &str) -> PairAsset {
    PairAsset { pair: pair(id, base, quote, symbol), iceberg_parts_limit: 0 }
}

#[test]
fn pair_lookup_uses_the_set_fields() {
    let pairs = vec![pair_asset(1, 10, 20, "AB"), pair_asset(2, 10, 30, "AC")];
    let mut probe = PairAsset::default_record();
    probe.pair.quote_asset_id = 30;
    assert_eq!(PairAssets::select_pair_asset(&pairs, &probe).map(|p| p.pair.id), Ok(2));
    let mut probe = PairAsset::default_record();
    probe.pair.symbol = "AB".to_string();
    assert_eq!(PairAssets::select_pair_asset(&pairs, &probe).map(|p| p.pair.id), Ok(1));
    let probe = PairAsset::default_record();
    assert_eq!(PairAssets::select_pair_asset(&pairs, &probe).map(|p| p.pair.id), Ok(1));
    let mut probe = PairAsset::default_record();
    probe.pair.id = 5;
    match PairAssets::select_pair_asset(&pairs, &probe) {
        Ok(_) => panic!("pair 5 is not stored"),
        Err(e) => assert_eq!(e, "Pair asset not found"),
    }
}

fn readings() -> HealthReadings {
    let s = |x: &str| x.to_string();
    HealthReadings {
        is_test: false,
        db_dev_reachable: true,
        db_prod_reachable: false,
        actions_dev: s("ok"),
        actions_prod: s("ok"),
        assets_dev: s("ok"),
        assets_prod: s("ok"),
        indicators_dev: s("ok"),
        indicators_prod: s("ok"),
        integrations_dev: s("ok"),
        integrations_prod: s("ok"),
        integrations_settings_dev: s("ok"),
        integrations_settings_prod: s("ok"),
        metrics_dev: s("ok"),
        metrics_prod: s("ok"),
        pairs_dev: s("ok"),
        pairs_prod: s("ok"),
        order_status_dev: s("ok"),
        order_status_prod: s("ok"),
        strategies_dev: s("ok"),
        strategies_prod: s("ok"),
        subscribed_indicators: s("3"),
        tasks_dev: s("ok"),
        tasks_prod: s("ok"),
        websocket: s("connected"),
        engine_startup_date: 1431648000,
        engine_last_update_date: 1431651845,
        engine_status: s("Running"),
        runtime_dev_startup_date: 0,
        runtime_dev_last_update_date: -1,
        runtime_dev_status: s("Running"),
        runtime_prod_startup_date: 253402300799,
        runtime_prod_last_update_date: 86399,
        runtime_prod_status: s("Off"),
    }
}

fn value_of<'a, V>(report: &'a [(String, V)], key: &str) -> &'a V {
    &report.iter().find(|(k, _)| k == key).expect("key is reported").1
}

fn keys_ascend<V>(report: &[(String, V)]) -> bool {
    report.windows(2).all(|w| w[0].0 < w[1].0)
}

#[test]
fn health_report_lists_every_component_in_key_order() {
    let report = HealthCheck::select_health_check(&readings());
    assert_eq!(report.len(), 34);
    assert!(keys_ascend(&report));
    assert_eq!(report[0].0, "cache_actions_dev_status");
    assert_eq!(report[33].0, "runtime_prod_status");
    assert_eq!(value_of(&report, "db_dev_conn_is_valid"), "true");
    assert_eq!(value_of(&report, "db_prod_conn_is_valid"), "false");
    assert_eq!(value_of(&report, "cache_configuration_is_some"), "true");
    assert_eq!(value_of(&report, "cache_subscribed_indicators_status"), "3");
    assert_eq!(value_of(&report, "runtime_prod_status"), "Off");
    assert_eq!(value_of(&report, "engine_startup_date"), "2015-05-15 00:00:00");
    assert_eq!(value_of(&report, "engine_last_update_date"), "2015-05-15 01:04:05");
    assert_eq!(value_of(&report, "runtime_dev_startup_date"), "1970-01-01 00:00:00");
    assert_eq!(value_of(&report, "runtime_dev_last_update_date"), "1969-12-31 23:59:59");
    assert_eq!(value_of(&report, "runtime_prod_startup_date"), "9999-12-31 23:59:59");
    assert_eq!(value_of(&report, "runtime_prod_last_update_date"), "1970-01-01 23:59:59");
}

#[test]
fn health_report_in_tests_marks_databases_valid() {
    let mut r = readings();
    r.is_test = true;
    let report = HealthCheck::select_health_check(&r);
    assert_eq!(value_of(&report, "db_prod_conn_is_valid"), "true");
    assert_eq!(bool_text(false), "false");
}

#[test]
fn core_health_report_reports_the_socket_task() {
    let r = CoreHealthReadings {
        db_dev_reachable: true,
        db_prod_reachable: true,
        actions_dev_initialized: true,
        actions_prod_initialized: false,
        assets_dev_initialized: true,
        assets_prod_initialized: true,
        configuration_cached: true,
        indicators_dev_initialized: true,
        indicators_prod_initialized: true,
        metrics_dev_cached: true,
        metrics_prod_cached: true,
        pairs_dev_initialized: true,
        pairs_prod_initialized: true,
        status_dev_initialized: true,
        status_prod_initialized: true,
        strategies_dev_initialized: true,
        strategies_prod_initialized: true,
        subscribed_indicators_dev_initialized: true,
        subscribed_indicators_prod_initialized: true,
        tasks_dev_initialized: true,
        tasks_prod_initialized: true,
        websocket_task: Some(false),
    };
    let report = HealthCheck::select_health_check_core(&r);
    assert_eq!(report.len(), 23);
    assert!(keys_ascend(&report));
    assert_eq!(report[0], ("cache_actions_dev_is_initialized".to_string(), true));
    assert_eq!(report[1], ("cache_actions_prod_is_initialized".to_string(), false));
    assert!(!*value_of(&report, "cache_actions_prod_is_initialized"));
    assert!(*value_of(&report, "cache_ws_binance_abort_handle_is_some"));
    assert!(!*value_of(&report, "cache_ws_binance_abort_handle_is_finished"));
}

#[test]
fn an_event_reaches_the_strategies_subscribed_to_its_symbol() {
    use_subscriptions();
}

fn use_subscriptions() {
    let subs = Some(vec![
        ("ETHUSDT".to_string(), vec![4]),
        ("BTCUSDT".to_string(), vec![1, 3]),
    ]);
    assert_eq!(subscribed_strategies(&subs, &"BTCUSDT".to_string()), vec![1, 3]);
    assert_eq!(subscribed_strategies(&subs, &"XRPUSDT".to_string()), Vec::<i32>::new());
    assert_eq!(subscribed_strategies(&None, &"BTCUSDT".to_string()), Vec::<i32>::new());
}
