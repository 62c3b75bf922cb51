use trading_bots::amount::Amount;
use trading_bots::entities::assets::{self, Asset, AssetColumn, AssetRequest};
use trading_bots::entities::integration_logs::{self, IntegrationLogRequest};
use trading_bots::entities::metrics::{self, Metric, MetricRequest};
use trading_bots::entities::orders::{self, Order, OrderColumn, OrderRequest};
use trading_bots::entities::pairs::{Pair, PairRequest};
use trading_bots::entities::tasks::{self, Task, TaskRequest};
use trading_bots::query::{OrderDirection, QueryOptions};

fn amount(mantissa: i128, scale: u32) -> Amount {
    Amount { mantissa, scale }
}

#[test]
fn order_columns_are_read_by_name() {
    assert!(matches!(orders::parse_order_column("id"), Some(OrderColumn::Id)));
    assert!(matches!(orders::parse_order_column("price_abort"), Some(OrderColumn::PriceAbort)));
    assert!(matches!(orders::parse_order_column("is_sell"), Some(OrderColumn::IsSell)));
    assert!(orders::parse_order_column("ID").is_none());
    assert!(orders::parse_order_column("").is_none());
    assert!(orders::parse_order_column("unknown").is_none());
}

#[test]
fn asset_columns_are_read_by_name() {
    assert!(matches!(assets::parse_order_column("ticker"), Some(AssetColumn::Ticker)));
    assert!(assets::parse_order_column("price").is_none());
}

#[test]
fn orders_listing_without_options_keeps_twenty_newest() {
    let plan = orders::plan_query(&None);
    assert_eq!(plan.limit, Some(20));
    assert_eq!(plan.offset, None);
    assert_eq!(plan.ordering.len(), 1);
    assert!(matches!(plan.ordering[0], (OrderColumn::Id, OrderDirection::Desc)));
}

#[test]
fn orders_listing_orders_by_id_first_then_by_requested_column() {
    let query = Some(QueryOptions {
        limit: Some(5),
        offset: Some(10),
        order_by: Some("status_id".to_string()),
        order_direction: Some(OrderDirection::Asc),
    });
    let plan = orders::plan_query(&query);
    assert_eq!(plan.limit, Some(5));
    assert_eq!(plan.offset, Some(10));
    assert_eq!(plan.ordering.len(), 2);
    assert!(matches!(plan.ordering[0], (OrderColumn::Id, OrderDirection::Desc)));
    assert!(matches!(plan.ordering[1], (OrderColumn::StatusId, OrderDirection::Asc)));
}

#[test]
fn orders_listing_keeps_default_limit_and_direction_when_unset() {
    let query = Some(QueryOptions {
        limit: None,
        offset: None,
        order_by: Some("price_entry".to_string()),
        order_direction: None,
    });
    let plan = orders::plan_query(&query);
    assert_eq!(plan.limit, Some(20));
    assert_eq!(plan.ordering.len(), 2);
    assert!(matches!(plan.ordering[1], (OrderColumn::PriceEntry, OrderDirection::Desc)));
}

#[test]
fn assets_listing_ignores_unknown_column() {
    let query = Some(QueryOptions {
        limit: None,
        offset: Some(3),
        order_by: Some("nope".to_string()),
        order_direction: Some(OrderDirection::Desc),
    });
    let plan = assets::plan_query(&query);
    assert_eq!(plan.limit, None);
    assert_eq!(plan.offset, Some(3));
    assert_eq!(plan.ordering.len(), 0);
}

#[test]
fn assets_listing_orders_ascending_by_default() {
    let query = Some(QueryOptions {
        limit: None,
        offset: None,
        order_by: Some("name".to_string()),
        order_direction: None,
    });
    let plan = assets::plan_query(&query);
    assert_eq!(plan.ordering.len(), 1);
    assert!(matches!(plan.ordering[0], (AssetColumn::Name, OrderDirection::Asc)));
}

#[test]
fn new_order_takes_request_fields_and_defaults() {
    let mut req = OrderRequest::blank();
    req.strategy_id = Some(7);
    req.is_sell = Some(true);
    req.price_entry = Some(amount(12345, 2));
    let order = orders::new_record(&req, 3, 1_700_000_000);
    assert_eq!(order.id, 3);
    assert_eq!(order.strategy_id, 7);
    assert!(order.is_sell);
    assert_eq!(order.price_entry.mantissa, 12345);
    assert_eq!(order.price_entry.scale, 2);
    assert_eq!(order.status_id, 0);
    assert_eq!(order.base_asset_amount.mantissa, 0);
    assert_eq!(order.creation_date, 1_700_000_000);
    assert_eq!(order.update_date, 1_700_000_000);
}

#[test]
fn order_update_changes_status_and_amounts_only() {
    let mut order = Order::default_record();
    order.id = 9;
    order.strategy_id = 4;
    order.creation_date = 100;
    let mut req = OrderRequest::blank();
    req.status_id = Some(2);
    req.strategy_id = Some(99);
    req.quote_asset_amount = Some(amount(5, 0));
    req.price_target = Some(amount(77, 0));
    let updated = order.apply_update(&req, 500);
    assert_eq!(updated.id, 9);
    assert_eq!(updated.status_id, 2);
    assert_eq!(updated.strategy_id, 4);
    assert_eq!(updated.quote_asset_amount.mantissa, 5);
    assert_eq!(updated.price_target.mantissa, 0);
    assert_eq!(updated.creation_date, 100);
    assert_eq!(updated.update_date, 500);
}

#[test]
fn order_listing_filters_on_set_fields() {
    let mut order = Order::default_record();
    order.id = 1;
    order.strategy_id = 4;
    order.is_sell = true;
    let mut req = OrderRequest::blank();
    assert!(order.lists(&req));
    req.strategy_id = Some(4);
    assert!(order.lists(&req));
    req.is_sell = Some(false);
    assert!(!order.lists(&req));
    let mut by_id = OrderRequest::blank();
    by_id.id = Some(2);
    assert!(!order.selects(&by_id));
    by_id.id = Some(1);
    assert!(order.selects(&by_id));
}

#[test]
fn new_task_is_active_unless_request_says_otherwise() {
    let req = TaskRequest::blank();
    let task = tasks::new_record(&req, 1, 42);
    assert!(task.is_active);
    assert_eq!(task.last_update, 42);
    assert_eq!(task.last_execution, None);
    let mut off = TaskRequest::blank();
    off.is_active = Some(false);
    off.nick = Some("sync".to_string());
    let task = tasks::new_record(&off, 2, 42);
    assert!(!task.is_active);
    assert_eq!(task.nick, "sync");
}

#[test]
fn default_task_is_inactive() {
    let task = Task::default_record();
    assert!(!task.is_active);
    assert_eq!(task.id, 0);
    assert_eq!(task.nick, "");
}

#[test]
fn integration_log_creation_date_defaults_to_now() {
    let req = IntegrationLogRequest::blank();
    let log = integration_logs::new_record(&req, 5, 1234);
    assert_eq!(log.creation_date, 1234);
    assert_eq!(log.status_code, 0);
    let mut dated = IntegrationLogRequest::blank();
    dated.creation_date = Some(99);
    dated.status_code = Some(201);
    let log = integration_logs::new_record(&dated, 5, 1234);
    assert_eq!(log.creation_date, 99);
    assert_eq!(log.status_code, 201);
}

#[test]
fn pair_listing_ignores_empty_symbol() {
    let mut pair = Pair::default_record();
    pair.symbol = "BTCUSDT".to_string();
    let mut req = PairRequest::blank();
    req.symbol = Some(String::new());
    assert!(pair.lists(&req));
    req.symbol = Some("BTCUSDT".to_string());
    assert!(pair.lists(&req));
    req.symbol = Some("ETHUSDT".to_string());
    assert!(!pair.lists(&req));
}

#[test]
fn metric_lookup_by_non_positive_id_selects_every_row() {
    let mut metric = Metric::default_record();
    metric.id = 3;
    let mut req = MetricRequest::blank();
    req.id = Some(0);
    assert!(metric.selects(&req));
    assert!(metric.lists(&req));
    req.id = Some(-1);
    assert!(metric.selects(&req));
    req.id = Some(4);
    assert!(!metric.selects(&req));
    req.id = Some(3);
    assert!(metric.selects(&req));
}

#[test]
fn metrics_listing_defaults_to_twenty_newest() {
    let plan = metrics::plan_query(&None);
    assert_eq!(plan.limit, Some(20));
    assert_eq!(plan.ordering.len(), 1);
}

#[test]
fn asset_update_keeps_id() {
    let mut asset = Asset::default_record();
    asset.id = 12;
    asset.ticker = "BTC".to_string();
    let mut req = AssetRequest::blank();
    req.id = Some(40);
    req.free = Some(amount(150, 1));
    let updated = asset.apply_update(&req, 77);
    assert_eq!(updated.id, 12);
    assert_eq!(updated.free.mantissa, 150);
    assert_eq!(updated.ticker, "BTC");
}

#[test]
fn pair_update_needs_an_id() {
    let mut req = PairRequest::blank();
    match trading_bots::entities::pairs::update_id(&req) {
        Ok(_) => panic!("an update without id is refused"),
        Err(r) => {
            assert_eq!(r.code, 404);
            assert_eq!(r.message, "Invalid pair id");
        }
    }
    req.id = Some(12);
    assert_eq!(trading_bots::entities::pairs::update_id(&req).ok(), Some(12));
}
