use trading_bots::amount::Amount;
use trading_bots::balances::{OrderSettlement, SettleAction};
use trading_bots::lifecycle::{StartAction, Tasks};
use trading_bots::balances::{
    asset_request_of, ledger_entry, move_balance, settlement_legs, try_move_balance, with_balance,
    Assets,
};
use trading_bots::engine::{
    execution_time_field, metric_request_of, socket_needs_start, socket_should_shut_down,
    Cancellations, DatabaseChoice, Metrics, DBC,
};
use trading_bots::entities::actions::Action;
use trading_bots::entities::assets::Asset;
use trading_bots::entities::indicators::Indicator;
use trading_bots::entities::integration_settings::{IntegrationSetting, IntegrationSettingRequest};
use trading_bots::loading::{IntegrationsSettings, SettingsSource};
use trading_bots::entities::metrics::Metric;
use trading_bots::entities::orders::Order;
use trading_bots::entities::strategies::Strategy;
use trading_bots::entities::tasks::Task;
use trading_bots::loading::{
    actions_of_strategies, active_strategies, contains_id, indicator_symbols,
    settings_of_integrations, sleeping_tasks, strategy_ids, TaskState,
};
use trading_bots::states::{LifecycleState, TradingEnvironment, TradingState};

const MAX_MANTISSA: i128 = 79_228_162_514_264_337_593_543_950_335;

fn amount(mantissa: i128, scale: u32) -> Amount {
    Amount { mantissa, scale }
}

fn asset(id: i32, free: Amount, locked: Amount) -> Asset {
    let mut a = Asset::default_record();
    a.id = id;
    a.free = free;
    a.locked = locked;
    a
}

#[test]
fn sale_lowers_the_free_balance() {
    let a = asset(1, amount(105, 1), amount(0, 0));
    let (moved, previous) = move_balance(&a, amount(225, 2), false, true);
    assert_eq!(previous.mantissa, 105);
    assert_eq!(previous.scale, 1);
    assert_eq!(moved.free.mantissa, 825);
    assert_eq!(moved.free.scale, 2);
    assert_eq!(moved.locked.mantissa, 0);
}

#[test]
fn purchase_raises_the_locked_balance() {
    let a = asset(1, amount(7, 0), amount(3, 0));
    let (moved, previous) = move_balance(&a, amount(4, 0), true, false);
    assert_eq!(previous.mantissa, 3);
    assert_eq!(moved.locked.mantissa, 7);
    assert_eq!(moved.free.mantissa, 7);
}

#[test]
fn sale_may_go_below_zero() {
    let a = asset(1, amount(1, 0), amount(0, 0));
    let (moved, _) = move_balance(&a, amount(3, 0), false, true);
    assert_eq!(moved.free.mantissa, -2);
}

#[test]
fn overflowing_move_is_refused() {
    let a = asset(1, amount(MAX_MANTISSA, 0), amount(0, 0));
    assert!(try_move_balance(&a, amount(1, 0), false, false).is_none());
    let ok = try_move_balance(&a, amount(1, 0), false, true).expect("subtraction fits");
    assert_eq!(ok.0.free.mantissa, MAX_MANTISSA - 1);
}

#[test]
fn cached_asset_balance_is_moved_in_place() {
    let mut cache = vec![asset(1, amount(10, 0), amount(0, 0)), asset(2, amount(5, 0), amount(0, 0))];
    let result = Assets::update_asset_balance_cache(&mut cache, 2, amount(2, 0), false, true);
    match result {
        Ok((moved, previous)) => {
            assert_eq!(moved.id, 2);
            assert_eq!(moved.free.mantissa, 3);
            assert_eq!(previous.mantissa, 5);
        }
        Err(_) => panic!("asset 2 is cached"),
    }
    assert_eq!(cache[1].free.mantissa, 3);
    assert_eq!(cache[0].free.mantissa, 10);
}

#[test]
fn uncached_asset_is_not_found() {
    let mut cache = vec![asset(1, amount(10, 0), amount(0, 0))];
    match Assets::update_asset_balance_cache(&mut cache, 9, amount(2, 0), false, true) {
        Ok(_) => panic!("asset 9 is not cached"),
        Err(r) => {
            assert_eq!(r.code, 404);
            assert_eq!(r.message, "Asset not found");
        }
    }
    assert_eq!(cache[0].free.mantissa, 10);
}

#[test]
fn overflowing_cache_move_leaves_cache_unchanged() {
    let mut cache = vec![asset(1, amount(MAX_MANTISSA, 0), amount(0, 0))];
    let result = Assets::try_update_asset_balance_cache(&mut cache, 1, amount(1, 0), false, false);
    assert!(result.is_none());
    assert_eq!(cache[0].free.mantissa, MAX_MANTISSA);
    match Assets::try_update_asset_balance_cache(&mut cache, 5, amount(1, 0), false, false) {
        Some(Err(r)) => assert_eq!(r.code, 404),
        _ => panic!("asset 5 is not cached"),
    }
}

#[test]
fn order_legs_move_in_opposite_directions() {
    let mut order = Order::default_record();
    order.base_asset_id = 1;
    order.quote_asset_id = 2;
    order.base_asset_amount = amount(3, 0);
    order.quote_asset_amount = amount(90, 0);
    order.is_sell = true;
    let (base, quote) = settlement_legs(&order);
    assert_eq!(base.asset_id, 1);
    assert!(base.sell);
    assert_eq!(base.amount.mantissa, 3);
    assert_eq!(quote.asset_id, 2);
    assert!(!quote.sell);
    assert_eq!(quote.amount.mantissa, 90);
    order.is_sell = false;
    let (base, quote) = settlement_legs(&order);
    assert!(!base.sell);
    assert!(quote.sell);
}

#[test]
fn ledger_entry_records_the_free_move() {
    let a = asset(4, amount(0, 0), amount(0, 0));
    let mut order = Order::default_record();
    order.id = 11;
    let entry = ledger_entry(&a, &order, amount(2, 0), amount(5, 0), amount(3, 0));
    assert_eq!(entry.id, None);
    assert_eq!(entry.order_id, Some(11));
    assert_eq!(entry.asset_id, Some(4));
    assert_eq!(entry.free_amount.map(|x| x.mantissa), Some(2));
    assert_eq!(entry.free_previous_balance.map(|x| x.mantissa), Some(5));
    assert_eq!(entry.free_new_balance.map(|x| x.mantissa), Some(3));
    assert!(entry.locked_amount.is_none());
}

#[test]
fn asset_request_carries_every_field() {
    let mut a = asset(6, amount(1, 0), amount(2, 0));
    a.ticker = "BTC".to_string();
    let req = asset_request_of(&a);
    assert_eq!(req.id, Some(6));
    assert_eq!(req.ticker.as_deref(), Some("BTC"));
    assert_eq!(req.locked.map(|x| x.mantissa), Some(2));
}

#[test]
fn production_reads_production_database() {
    assert!(matches!(DBC::get_database_core(TradingEnvironment::PROD), DatabaseChoice::Prod));
    assert!(matches!(DBC::get_database_core(TradingEnvironment::DEV), DatabaseChoice::Dev));
}

#[test]
fn second_runtime_is_refused_while_first_runs() {
    let mut token = None;
    assert!(Cancellations::start_runtime_core(&mut token).is_ok());
    assert_eq!(token, Some(false));
    match Cancellations::start_runtime_core(&mut token) {
        Ok(()) => panic!("a live token refuses a second runtime"),
        Err(r) => {
            assert_eq!(r.code, 400);
            assert_eq!(r.message, "Active runtime cancellation token is already set");
        }
    }
    assert_eq!(token, Some(false));
    let mut cancelled = Some(true);
    assert!(Cancellations::start_runtime_core(&mut cancelled).is_ok());
    assert_eq!(cancelled, Some(false));
}

#[test]
fn socket_rules() {
    assert!(socket_needs_start(false));
    assert!(!socket_needs_start(true));
    assert!(socket_should_shut_down(0));
    assert!(!socket_should_shut_down(3));
}

#[test]
fn metrics_snapshot_becomes_store_request() {
    let mut m = Metric::default_record();
    m.id = 2;
    m.executions_ok = 10;
    m.last_error = Some(77);
    let req = metric_request_of(&m);
    assert_eq!(req.id, Some(2));
    assert_eq!(req.executions_ok, Some(10));
    assert_eq!(req.last_error, Some(77));
    assert_eq!(req.last_success, None);
    match Metrics::persist(Ok(Some(m))) {
        Ok(r) => assert_eq!(r.id, Some(2)),
        Err(_) => panic!("a snapshot is stored"),
    }
    match Metrics::persist(Ok(None)) {
        Ok(_) => panic!("no snapshot"),
        Err(r) => {
            assert_eq!(r.code, 500);
            assert_eq!(r.message, "Metric not found");
        }
    }
    match Metrics::persist(Err("cache closed".to_string())) {
        Ok(_) => panic!("cache failure"),
        Err(r) => {
            assert_eq!(r.code, 500);
            assert_eq!(r.message, "cache closed");
        }
    }
}

#[test]
fn execution_time_is_clamped_to_minus_one() {
    assert_eq!(execution_time_field(0), 0);
    assert_eq!(execution_time_field(1500), 1500);
    assert_eq!(execution_time_field(2_147_483_647), 2_147_483_647);
    assert_eq!(execution_time_field(2_147_483_648), -1);
}

fn strategy(id: i32, active: bool) -> Strategy {
    let mut s = Strategy::default_record();
    s.id = id;
    s.is_active = active;
    s
}

#[test]
fn only_active_strategies_are_cached_ready() {
    let models = vec![strategy(1, true), strategy(2, false), strategy(3, true)];
    let cached = active_strategies(&models);
    assert_eq!(cached.len(), 2);
    assert_eq!(cached[0].model.id, 1);
    assert_eq!(cached[1].model.id, 3);
    assert!(matches!(cached[0].state, TradingState::Ready));
    let ids = strategy_ids(&models);
    assert_eq!(ids, vec![1, 2, 3]);
    assert!(contains_id(&ids, 2));
    assert!(!contains_id(&ids, 4));
}

#[test]
fn actions_settings_indicators_and_tasks_are_loaded() {
    let mut a1 = Action::default_record();
    a1.id = 1;
    a1.strategy_id = 1;
    let mut a2 = Action::default_record();
    a2.id = 2;
    a2.strategy_id = 5;
    let kept = actions_of_strategies(&vec![a1, a2], &vec![1, 3]);
    assert_eq!(kept.len(), 1);
    assert_eq!(kept[0].id, 1);

    let mut s1 = IntegrationSetting::default_record();
    s1.id = 1;
    s1.integration_id = 8;
    let mut s2 = IntegrationSetting::default_record();
    s2.id = 2;
    s2.integration_id = 9;
    let kept = settings_of_integrations(&vec![s1, s2], &vec![9]);
    assert_eq!(kept.len(), 1);
    assert_eq!(kept[0].id, 2);

    let mut i1 = Indicator::default_record();
    i1.symbol = "BTCUSDT".to_string();
    let mut i2 = Indicator::default_record();
    i2.symbol = "ETHUSDT".to_string();
    assert_eq!(indicator_symbols(&vec![i1, i2]), vec!["BTCUSDT".to_string(), "ETHUSDT".to_string()]);

    let mut t = Task::default_record();
    t.id = 4;
    let cached = sleeping_tasks(&vec![t]);
    assert_eq!(cached.len(), 1);
    assert_eq!(cached[0].model.id, 4);
    assert!(matches!(cached[0].state, TaskState::Sleeping));
}

#[test]
fn replacing_a_balance_touches_only_that_balance() {
    let a = asset(3, amount(1, 0), amount(2, 0));
    let locked = with_balance(&a, true, amount(9, 1));
    assert_eq!(locked.locked.mantissa, 9);
    assert_eq!(locked.locked.scale, 1);
    assert_eq!(locked.free.mantissa, 1);
    let free = with_balance(&a, false, amount(5, 0));
    assert_eq!(free.free.mantissa, 5);
    assert_eq!(free.locked.mantissa, 2);
    assert_eq!(free.id, 3);
}

#[test]
fn a_sale_and_a_purchase_of_the_same_value_cancel() {
    let a = asset(1, amount(1050, 2), amount(0, 0));
    let (sold, _) = try_move_balance(&a, amount(25, 1), false, true).expect("fits");
    assert_eq!(sold.free.mantissa, 800);
    assert_eq!(sold.free.scale, 2);
    let (back, _) = try_move_balance(&sold, amount(25, 1), false, false).expect("fits");
    assert_eq!(back.free.mantissa, 1050);
    assert_eq!(back.free.scale, 2);
}

#[test]
fn exact_moves_align_scales() {
    let a = asset(1, amount(3, 0), amount(0, 0));
    let (bought, _) = try_move_balance(&a, amount(125, 2), false, false).expect("fits");
    assert_eq!(bought.free.mantissa, 425);
    assert_eq!(bought.free.scale, 2);
}

fn settle_order_fully(
    cache: &mut Vec<Asset>,
    order: &Order,
    answers: &[bool],
) -> Vec<SettleAction> {
    let (mut s, mut action) = OrderSettlement::begin(cache, order);
    let mut seen = Vec::new();
    let mut k = 0;
    while !matches!(action, SettleAction::Finish) {
        let ok = answers.get(k).copied().unwrap_or(true);
        k += 1;
        let (next, next_action) = s.step(cache, ok);
        seen.push(action);
        s = next;
        action = next_action;
    }
    seen
}

fn sale(base: i32, base_amount: i128, quote: i32, quote_amount: i128) -> Order {
    let mut order = Order::default_record();
    order.id = 5;
    order.is_sell = true;
    order.base_asset_id = base;
    order.base_asset_amount = amount(base_amount, 0);
    order.quote_asset_id = quote;
    order.quote_asset_amount = amount(quote_amount, 0);
    order
}

#[test]
fn an_order_settles_both_legs_with_a_ledger_entry_each() {
    let mut cache = vec![asset(1, amount(10, 0), amount(4, 0)), asset(2, amount(100, 0), amount(0, 0))];
    let steps = settle_order_fully(&mut cache, &sale(1, 3, 2, 45), &[]);
    assert_eq!(steps.len(), 4);
    assert!(matches!(&steps[0], SettleAction::StoreAsset(r) if r.id == Some(1)));
    assert!(matches!(&steps[1], SettleAction::InsertLedger(l) if l.asset_id == Some(1)));
    assert!(matches!(&steps[2], SettleAction::StoreAsset(r) if r.id == Some(2)));
    assert!(matches!(&steps[3], SettleAction::InsertLedger(l) if l.asset_id == Some(2)));
    assert_eq!(cache[0].free.mantissa, 7);
    assert_eq!(cache[0].locked.mantissa, 4);
    assert_eq!(cache[1].free.mantissa, 145);
}

#[test]
fn a_failed_base_store_skips_the_quote_leg() {
    let mut cache = vec![asset(1, amount(10, 0), amount(0, 0)), asset(2, amount(100, 0), amount(0, 0))];
    let steps = settle_order_fully(&mut cache, &sale(1, 3, 2, 45), &[false]);
    assert_eq!(steps.len(), 1);
    assert_eq!(cache[0].free.mantissa, 7);
    assert_eq!(cache[1].free.mantissa, 100);
}

#[test]
fn an_uncached_base_asset_skips_the_order() {
    let mut cache = vec![asset(2, amount(100, 0), amount(0, 0))];
    let steps = settle_order_fully(&mut cache, &sale(1, 3, 2, 45), &[]);
    assert_eq!(steps.len(), 0);
    assert_eq!(cache[0].free.mantissa, 100);
}

#[test]
fn a_running_task_cache_is_not_started_again() {
    assert!(Tasks::start(LifecycleState::Running).is_none());
    match Tasks::start(LifecycleState::Off) {
        Some((_, StartAction::SetState(LifecycleState::Starting))) => {}
        _ => panic!("an idle task cache starts by marking itself starting"),
    }
    assert!(matches!(Assets::start().1, StartAction::SetState(LifecycleState::Starting)));
}

#[test]
fn moving_by_zero_or_from_zero_follows_the_decimal_rules() {
    let a = asset(1, amount(0, 2), amount(0, 0));
    let (bought, _) = try_move_balance(&a, amount(5, 0), false, false).expect("fits");
    assert_eq!((bought.free.mantissa, bought.free.scale), (5, 0));
    let (sold, _) = try_move_balance(&a, amount(5, 1), false, true).expect("fits");
    assert_eq!((sold.free.mantissa, sold.free.scale), (-5, 1));
    let b = asset(1, amount(42, 1), amount(0, 0));
    let (same, _) = try_move_balance(&b, amount(0, 3), false, true).expect("fits");
    assert_eq!((same.free.mantissa, same.free.scale), (42, 1));
}

#[test]
fn wide_balances_of_equal_scale_move_exactly_and_cancel() {
    let wide: i128 = 70_000_000_000_000_000_000_000_000_000;
    let a = asset(1, amount(wide, 4), amount(0, 0));
    let (sold, _) = try_move_balance(&a, amount(wide - 1, 4), false, true).expect("fits");
    assert_eq!((sold.free.mantissa, sold.free.scale), (1, 4));
    let (back, _) = try_move_balance(&sold, amount(wide - 1, 4), false, false).expect("fits");
    assert_eq!((back.free.mantissa, back.free.scale), (wide, 4));
}

#[test]
fn a_zero_balance_of_the_value_scale_comes_back() {
    let a = asset(1, amount(0, 2), amount(0, 0));
    let (sold, _) = try_move_balance(&a, amount(150, 2), false, true).expect("fits");
    assert_eq!(sold.free.mantissa, -150);
    let (back, _) = try_move_balance(&sold, amount(150, 2), false, false).expect("fits");
    assert_eq!((back.free.mantissa, back.free.scale), (0, 2));
}

#[test]
fn integration_settings_come_from_the_cache_when_it_holds_them() {
    use_settings_resolution();
}

fn use_settings_resolution() {
    let mut s = IntegrationSetting::default_record();
    s.id = 3;
    s.integration_id = 8;
    let cache = Some(vec![(8, vec![s])]);
    let mut req = IntegrationSettingRequest::blank();
    req.integration_id = Some(8);
    match IntegrationsSettings::resolve_integration_settings(&cache, &req) {
        SettingsSource::Cached(v) => {
            assert_eq!(v.len(), 1);
            assert_eq!(v[0].id, 3);
        }
        SettingsSource::Database => panic!("integration 8 is cached"),
    }
    req.integration_id = Some(9);
    assert!(matches!(IntegrationsSettings::resolve_integration_settings(&cache, &req), SettingsSource::Database));
    assert!(matches!(IntegrationsSettings::resolve_integration_settings(&None, &req), SettingsSource::Database));
}

#[test]
fn a_finer_value_sold_and_bought_back_leaves_an_equal_balance() {
    let mut cache = vec![asset(4, amount(5, 0), amount(0, 0))];
    let (sold, previous) = match Assets::update_asset_balance_cache(&mut cache, 4, amount(125, 2), false, true) {
        Ok(moved) => moved,
        Err(_) => panic!("the asset is cached"),
    };
    assert_eq!((previous.mantissa, previous.scale), (5, 0));
    assert_eq!((sold.free.mantissa, sold.free.scale), (375, 2));
    let (back, _) = match Assets::update_asset_balance_cache(&mut cache, 4, amount(125, 2), false, false) {
        Ok(moved) => moved,
        Err(_) => panic!("the asset is cached"),
    };
    assert_eq!((back.free.mantissa, back.free.scale), (500, 2));
    assert_eq!((cache[0].free.mantissa, cache[0].free.scale), (500, 2));
}

#[test]
fn a_coarser_value_leaves_a_zero_balance_equal_to_zero() {
    let a = asset(1, amount(0, 2), amount(0, 0));
    let (sold, _) = try_move_balance(&a, amount(5, 0), false, true).expect("fits");
    assert_eq!((sold.free.mantissa, sold.free.scale), (-5, 0));
    let (back, _) = try_move_balance(&sold, amount(5, 0), false, false).expect("fits");
    assert_eq!((back.free.mantissa, back.free.scale), (0, 0));
}
