use trading_bots::amount::Amount;
use trading_bots::entities::assets::{Asset, AssetRequest};
use trading_bots::entities::integrations::{Integration, IntegrationRequest};
use trading_bots::entities::metrics::{Metric, MetricRequest};
use trading_bots::entities::tasks::{Task, TaskRequest};
use trading_bots::entities::pairs::{Pair, PairRequest};
use trading_bots::repository::MockRepo;

fn by_id(id: i32) -> AssetRequest {
    let mut req = AssetRequest::blank();
    req.id = Some(id);
    req
}

fn asset(id: i32, ticker: &str) -> Asset {
    let mut a = Asset::default_record();
    a.id = id;
    a.ticker = ticker.to_string();
    a.name = ticker.to_lowercase();
    a
}

fn filled() -> MockRepo<Asset> {
    let mut repo = MockRepo::new();
    repo.store(asset(1, "BTC"));
    repo.store(asset(2, "ETH"));
    repo.store(asset(3, "USDT"));
    repo.store(asset(4, "BNB"));
    repo
}

#[test]
fn insert_returns_the_record_and_appends() {
    let mut repo: MockRepo<Asset> = MockRepo::new();
    assert_eq!(repo.data.len(), 0);
    let stored = repo.store(asset(8, "SOL"));
    assert_eq!(stored.id, 8);
    assert_eq!(stored.ticker, "SOL");
    assert_eq!(repo.data.len(), 1);
    assert_eq!(repo.data[0].ticker, "SOL");
}

#[test]
fn select_finds_inserted_record() {
    let repo = filled();
    let found = repo.select(&by_id(3)).expect("record 3 is stored");
    assert_eq!(found.ticker, "USDT");
    assert!(repo.select(&by_id(99)).is_none());
}

#[test]
fn select_returns_the_first_of_equal_ids() {
    let mut repo = filled();
    repo.store(asset(2, "DUP"));
    let found = repo.select(&by_id(2)).expect("record 2 is stored");
    assert_eq!(found.ticker, "ETH");
}

#[test]
fn asset_listing_keeps_every_record_up_to_the_limit() {
    let repo = filled();
    let all = repo.select_many(&AssetRequest::blank(), None, None);
    assert_eq!(all.len(), 4);
    let first_two = repo.select_many(&AssetRequest::blank(), Some(1), Some(2));
    assert_eq!(first_two.len(), 2);
    assert_eq!(first_two[0].id, 1);
    assert_eq!(first_two[1].id, 2);
    let mut by_ticker = AssetRequest::blank();
    by_ticker.ticker = Some("BNB".to_string());
    let listed = repo.select_many(&by_ticker, Some(10), None);
    assert_eq!(listed.len(), 4);
}

#[test]
fn asset_lookup_without_id_finds_id_zero() {
    let mut repo = filled();
    assert!(repo.select(&AssetRequest::blank()).is_none());
    repo.store(asset(0, "ZERO"));
    let found = repo.select(&AssetRequest::blank()).expect("record 0 is stored");
    assert_eq!(found.ticker, "ZERO");
}

fn pair(id: i32, base: i32, quote: i32, symbol: &str) -> Pair {
    let mut p = Pair::default_record();
    p.id = id;
    p.base_asset_id = base;
    p.quote_asset_id = quote;
    p.symbol = symbol.to_string();
    p
}

fn pairs() -> MockRepo<Pair> {
    let mut repo = MockRepo::new();
    repo.store(pair(1, 10, 20, "BTC"));
    repo.store(pair(2, 10, 30, "ETH"));
    repo.store(pair(3, 11, 30, "BNB"));
    repo
}

#[test]
fn pair_listing_compares_the_symbol_exactly() {
    let repo = pairs();
    let mut req = PairRequest::blank();
    req.symbol = Some(String::new());
    assert_eq!(repo.select_many(&req, None, None).len(), 0);
    req.symbol = Some("BTC".to_string());
    let hit = repo.select_many(&req, None, None);
    assert_eq!(hit.len(), 1);
    assert_eq!(hit[0].id, 1);
}

#[test]
fn pair_listing_filters_then_skips_then_limits() {
    let repo = pairs();
    let mut req = PairRequest::blank();
    req.quote_asset_id = Some(30);
    let page = repo.select_many(&req, Some(1), Some(5));
    assert_eq!(page.len(), 1);
    assert_eq!(page[0].id, 3);
    assert_eq!(repo.select_many(&req, Some(2), None).len(), 0);
    let all = repo.select_many(&PairRequest::blank(), Some(0), Some(2));
    assert_eq!(all.len(), 2);
    assert_eq!(all[1].id, 2);
}

#[test]
fn pair_lookup_uses_every_set_field() {
    let repo = pairs();
    let mut req = PairRequest::blank();
    req.base_asset_id = Some(10);
    req.quote_asset_id = Some(30);
    assert_eq!(repo.select(&req).map(|p| p.id), Some(2));
    req.symbol = Some("BTC".to_string());
    assert!(repo.select(&req).is_none());
}

#[test]
fn pair_update_changes_only_its_listed_fields() {
    let mut repo = pairs();
    let mut req = PairRequest::blank();
    req.id = Some(2);
    req.symbol = Some("ETHUSDT".to_string());
    req.last_price = Some(Amount { mantissa: 31, scale: 1 });
    req.max_num_orders = Some(9);
    let updated = match repo.update(&req, 44) {
        Ok(p) => p,
        Err(_) => panic!("pair 2 is stored"),
    };
    assert_eq!(updated.symbol, "ETHUSDT");
    assert_eq!(updated.last_price.mantissa, 31);
    assert_eq!(updated.max_num_orders, 0);
    assert_eq!(updated.update_date, 44);
}

#[test]
fn metrics_listing_limits_then_skips() {
    let mut repo: MockRepo<Metric> = MockRepo::new();
    for id in 1..=5 {
        let mut m = Metric::default_record();
        m.id = id;
        repo.store(m);
    }
    let page = repo.select_many(&MetricRequest::blank(), Some(1), Some(3));
    assert_eq!(page.len(), 2);
    assert_eq!(page[0].id, 2);
    assert_eq!(page[1].id, 3);
    let untouched = repo.select_many(&MetricRequest::blank(), Some(7), Some(3));
    assert_eq!(untouched.len(), 3);
    assert!(repo.select(&MetricRequest::blank()).is_none());
    match repo.update(&MetricRequest::blank(), 1) {
        Ok(_) => panic!("an update without id fails"),
        Err(r) => {
            assert_eq!(r.code, 404);
            assert_eq!(r.message, "Missing id for mock update");
        }
    }
}

#[test]
fn update_changes_the_named_record() {
    let mut repo = filled();
    let mut req = AssetRequest::blank();
    req.id = Some(2);
    req.name = Some("ether".to_string());
    req.free = Some(Amount { mantissa: 25, scale: 1 });
    let updated = match repo.update(&req, 900) {
        Ok(a) => a,
        Err(_) => panic!("record 2 is stored"),
    };
    assert_eq!(updated.id, 2);
    assert_eq!(updated.name, "ether");
    assert_eq!(updated.free.mantissa, 0);
    assert_eq!(updated.last_update, 0);
    assert_eq!(repo.data[1].name, "ether");
    assert_eq!(repo.data[0].name, "btc");
}

#[test]
fn update_without_id_is_refused() {
    let mut repo = filled();
    let req = AssetRequest::blank();
    match repo.update(&req, 1) {
        Ok(_) => panic!("an update without id must fail"),
        Err(r) => {
            assert_eq!(r.code, 404);
            assert_eq!(r.message, "Invalid mock update id");
        }
    }
    assert_eq!(repo.data.len(), 4);
}

#[test]
fn update_of_missing_record_is_refused() {
    let mut repo = filled();
    let mut req = AssetRequest::blank();
    req.id = Some(77);
    match repo.update(&req, 1) {
        Ok(_) => panic!("no record 77"),
        Err(r) => assert_eq!(r.code, 404),
    }
}

#[test]
fn delete_removes_every_record_with_the_id() {
    let mut repo = filled();
    repo.store(asset(2, "DUP"));
    match repo.delete(Some(2)) {
        Ok(n) => assert_eq!(n, 2),
        Err(_) => panic!("delete with id succeeds"),
    }
    assert_eq!(repo.data.len(), 3);
    assert!(repo.select(&by_id(2)).is_none());
    assert!(repo.select(&by_id(1)).is_some());
    match repo.delete(Some(50)) {
        Ok(n) => assert_eq!(n, 0),
        Err(_) => panic!("delete with id succeeds"),
    }
}

#[test]
fn delete_without_id_is_refused() {
    let mut repo = filled();
    match repo.delete(None) {
        Ok(_) => panic!("delete without id must fail"),
        Err(r) => {
            assert_eq!(r.code, 404);
            assert_eq!(r.message, "Invalid mock delete id");
        }
    }
    assert_eq!(repo.data.len(), 4);
}

#[test]
fn lookup_after_update_finds_the_change() {
    let mut repo = filled();
    repo.store(asset(3, "DUP"));
    let mut req = AssetRequest::blank();
    req.id = Some(3);
    req.name = Some("tether".to_string());
    assert!(repo.update(&req, 5).is_ok());
    let found = repo.select(&by_id(3)).expect("record 3 is stored");
    assert_eq!(found.name, "tether");
    assert_eq!(found.ticker, "USDT");
    assert_eq!(found.last_update, 0);
    assert_eq!(repo.data.len(), 5);
    assert_eq!(repo.data[4].name, "dup");
}

#[test]
fn insert_builds_the_record_by_the_table_rules() {
    let mut repo: MockRepo<Asset> = MockRepo::new();
    let mut req = AssetRequest::blank();
    req.ticker = Some("BTC".to_string());
    let a = repo.insert(&req, 77);
    assert_eq!(a.id, 0);
    assert_eq!(a.ticker, "BTC");
    assert_eq!(a.name, "");
    assert_eq!(a.last_update, 77);
    assert_eq!(repo.data.len(), 1);
    req.id = Some(9);
    assert_eq!(repo.insert(&req, 78).id, 9);
}

#[test]
fn pair_insert_numbers_records_after_the_last() {
    let mut repo = pairs();
    let mut req = PairRequest::blank();
    req.symbol = Some("SOLUSDT".to_string());
    req.max_num_orders = Some(50);
    let p = repo.insert(&req, 5);
    assert_eq!(p.id, 4);
    assert_eq!(p.symbol, "SOLUSDT");
    assert_eq!(p.max_num_orders, 0);
    assert_eq!(p.update_date, 5);
    req.id = Some(40);
    assert_eq!(repo.insert(&req, 5).id, 40);
}

#[test]
fn metric_insert_numbers_a_zero_id() {
    let mut repo: MockRepo<Metric> = MockRepo::new();
    let mut req = MetricRequest::blank();
    req.id = Some(0);
    req.executions_ok = Some(3);
    let m = repo.insert(&req, 100);
    assert_eq!(m.id, 1);
    assert_eq!(m.executions_ok, 3);
    assert_eq!(m.creation_date, 100);
    req.id = Some(7);
    req.creation_date = Some(50);
    let m = repo.insert(&req, 100);
    assert_eq!(m.id, 7);
    assert_eq!(m.creation_date, 50);
}

#[test]
fn task_insert_is_active_by_default_and_integrations_keep_only_the_id() {
    let mut tasks: MockRepo<Task> = MockRepo::new();
    assert!(tasks.insert(&TaskRequest::blank(), 1).is_active);
    let mut integrations: MockRepo<Integration> = MockRepo::new();
    let mut req = IntegrationRequest::blank();
    req.id = Some(2);
    req.code = Some("BINANCE".to_string());
    let i = integrations.insert(&req, 1);
    assert_eq!(i.id, 2);
    assert_eq!(i.code, "");
}
