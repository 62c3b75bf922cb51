use trading_bots::amount::Amount;
use trading_bots::balances::{settle_leg, settlement_legs};
use trading_bots::binance::Binance;
use trading_bots::call_logs::{
    account_error_message, call_status, exchange_log, get_request_text, integer_text,
    natural_text, record_reply, ticker_call_log, CoinPaprika, ErrorLogs, IntegrationLogs,
};
use trading_bots::engine::{DatabaseSetupStep, DBC};
use trading_bots::entities::error_logs::ErrorLogRequest;
use trading_bots::entities::assets::Asset;
use trading_bots::entities::orders::Order;
use trading_bots::stored::{PairAsset, PairAssets};

#[test]
fn integers_are_written_in_decimal() {
    assert_eq!(natural_text(0), "0");
    assert_eq!(natural_text(7), "7");
    assert_eq!(natural_text(10), "10");
    assert_eq!(natural_text(1234567890), "1234567890");
    assert_eq!(natural_text(u64::MAX), u64::MAX.to_string());
    assert_eq!(integer_text(-2015), "-2015");
    assert_eq!(integer_text(0), "0");
    assert_eq!(integer_text(i64::MIN), i64::MIN.to_string());
    assert_eq!(integer_text(i64::MAX), i64::MAX.to_string());
}

#[test]
fn account_error_names_code_and_message() {
    assert_eq!(
        account_error_message(-2015, "Invalid API-key, IP, or permissions for action."),
        "code: -2015 - message: Invalid API-key, IP, or permissions for action."
    );
    assert_eq!(account_error_message(0, ""), "code: 0 - message: ");
}

#[test]
fn exchange_log_names_the_call() {
    let log = exchange_log("BINANCE", "get_account", "https://api/account", 15);
    assert_eq!(log.integration_name.as_deref(), Some("BINANCE"));
    assert_eq!(log.function_name.as_deref(), Some("get_account"));
    assert_eq!(log.url.as_deref(), Some("https://api/account"));
    assert_eq!(log.execution_time_ms, Some(15));
    assert!(log.request.is_none());
    assert!(log.status_code.is_none());
    let slow = exchange_log("BINANCE", "f", "u", 3_000_000_000);
    assert_eq!(slow.execution_time_ms, Some(-1));
}

#[test]
fn ticker_log_describes_the_read() {
    assert_eq!(get_request_text("https://t/tickers"), "GET request: https://t/tickers");
    let log = ticker_call_log("COINPAPRIKA", "get_tickers_core", "https://t/tickers", 200, 80);
    assert_eq!(log.request.as_deref(), Some("GET request: https://t/tickers"));
    assert_eq!(log.status_code, Some(200));
    assert_eq!(log.execution_time_ms, Some(80));
    assert!(log.response.is_none());
}

#[test]
fn failed_call_without_status_is_logged_as_500() {
    assert_eq!(call_status(Ok(201)), 201);
    assert_eq!(call_status(Err(Some(429))), 429);
    assert_eq!(call_status(Err(None)), 500);
}

#[test]
fn reply_goes_to_response_or_error() {
    let mut log = exchange_log("X", "f", "u", 1);
    record_reply(&mut log, &Ok("[1,2]".to_string()));
    assert_eq!(log.response.as_deref(), Some("[1,2]"));
    assert!(log.error_message.is_none());
    let mut log = exchange_log("X", "f", "u", 1);
    record_reply(&mut log, &Err("timeout".to_string()));
    assert_eq!(log.error_message.as_deref(), Some("timeout"));
    assert!(log.response.is_none());
}

#[test]
fn stored_log_is_dated_when_stored() {
    let mut log = exchange_log("X", "f", "u", 9);
    log.creation_date = Some(5);
    let record = IntegrationLogs::insert_log_data(&log, 3, 1000);
    assert_eq!(record.id, 3);
    assert_eq!(record.creation_date, 1000);
    assert_eq!(record.integration_name, "X");
    assert_eq!(record.execution_time_ms, 9);
    assert_eq!(record.response, "");
    assert_eq!(record.status_code, 0);
}

#[test]
fn database_setup_failures_name_the_step() {
    assert!(DBC::set_database_data(None).is_ok());
    match DBC::set_database_data(Some(DatabaseSetupStep::Connect)) {
        Ok(()) => panic!("a failed connection fails"),
        Err(r) => {
            assert_eq!(r.code, 500);
            assert_eq!(r.message, "Failed to setup database connection");
        }
    }
    match DBC::set_database_data(Some(DatabaseSetupStep::Migrate)) {
        Ok(()) => panic!("a failed migration fails"),
        Err(r) => {
            assert_eq!(r.code, 500);
            assert_eq!(r.message, "Failed to run database migration");
        }
    }
}

#[test]
fn stored_error_is_dated_when_stored() {
    let mut req = ErrorLogRequest::blank();
    req.function_name = Some("start".to_string());
    req.line_number = Some("42".to_string());
    let record = ErrorLogs::insert_log_data(&req, 8, 77);
    assert_eq!(record.id, 8);
    assert_eq!(record.creation_date, 77);
    assert_eq!(record.function_name, "start");
    assert_eq!(record.line_number, "42");
    assert_eq!(record.error_details, "");
}

#[test]
fn pair_asset_insert_sends_assets_and_symbol() {
    let mut p = PairAsset::default_record();
    p.pair.id = 4;
    p.pair.base_asset_id = 1;
    p.pair.quote_asset_id = 2;
    p.pair.symbol = "BTCUSDT".to_string();
    p.pair.max_num_orders = 200;
    let insert = PairAssets::insert_pair_asset(&p);
    assert_eq!(insert.base_asset_id, 1);
    assert_eq!(insert.quote_asset_id, 2);
    assert_eq!(insert.symbol, "BTCUSDT");
}

#[test]
fn pair_asset_update_writes_every_column_and_the_time() {
    let mut p = PairAsset::default_record();
    p.pair.id = 4;
    p.pair.update_date = 10;
    p.pair.max_num_orders = 200;
    p.pair.symbol = "ETHBTC".to_string();
    p.iceberg_parts_limit = 50;
    p.pair.last_price = trading_bots::amount::Amount { mantissa: 5, scale: 0 };
    let mut stored = PairAsset::default_record();
    stored.pair.id = 4;
    stored.pair.last_price = trading_bots::amount::Amount { mantissa: 7, scale: 0 };
    let written = PairAssets::update_pair_asset(&stored, &p, 99);
    assert_eq!(written.pair.last_price.mantissa, 7);
    assert_eq!(written.pair.id, 4);
    assert_eq!(written.pair.update_date, 99);
    assert_eq!(written.pair.max_num_orders, 200);
    assert_eq!(written.pair.symbol, "ETHBTC");
    assert_eq!(written.iceberg_parts_limit, 50);
}

fn asset(id: i32, free: i128) -> Asset {
    let mut a = Asset::default_record();
    a.id = id;
    a.free = Amount { mantissa: free, scale: 0 };
    a
}

#[test]
fn executed_order_settles_both_legs() {
    let mut cache = vec![asset(1, 10), asset(2, 100)];
    let mut order = Order::default_record();
    order.id = 70;
    order.is_sell = true;
    order.base_asset_id = 1;
    order.base_asset_amount = Amount { mantissa: 3, scale: 0 };
    order.quote_asset_id = 2;
    order.quote_asset_amount = Amount { mantissa: 45, scale: 0 };
    let (base, quote) = settlement_legs(&order);
    let (req, entry) = match settle_leg(&mut cache, &order, base) {
        Some(Ok(v)) => v,
        _ => panic!("base leg settles"),
    };
    assert_eq!(req.id, Some(1));
    assert_eq!(req.free.map(|x| x.mantissa), Some(7));
    assert_eq!(entry.order_id, Some(70));
    assert_eq!(entry.free_previous_balance.map(|x| x.mantissa), Some(10));
    assert_eq!(entry.free_new_balance.map(|x| x.mantissa), Some(7));
    let (req, _) = match settle_leg(&mut cache, &order, quote) {
        Some(Ok(v)) => v,
        _ => panic!("quote leg settles"),
    };
    assert_eq!(req.free.map(|x| x.mantissa), Some(145));
    assert_eq!(cache[0].free.mantissa, 7);
    assert_eq!(cache[1].free.mantissa, 145);
}

#[test]
fn leg_of_an_uncached_asset_is_refused() {
    let mut cache = vec![asset(1, 10)];
    let mut order = Order::default_record();
    order.base_asset_id = 8;
    let (base, _) = settlement_legs(&order);
    match settle_leg(&mut cache, &order, base) {
        Some(Err(r)) => assert_eq!(r.code, 404),
        _ => panic!("asset 8 is not cached"),
    }
    assert_eq!(cache[0].free.mantissa, 10);
}

#[test]
fn account_answer_gives_the_account_or_a_logged_failure() {
    let mut log = exchange_log("BINANCE", "get_account", "u", 3);
    let ok: Result<u32, (i64, String)> = Ok(7);
    match Binance::get_account(ok, &mut log) {
        Ok(v) => assert_eq!(v, 7),
        Err(_) => panic!("the account is returned"),
    }
    assert!(log.error_message.is_none());
    let refused: Result<u32, (i64, String)> = Err((-2014, "API-key format invalid.".to_string()));
    match Binance::get_account(refused, &mut log) {
        Ok(_) => panic!("an exchange error fails"),
        Err(r) => {
            assert_eq!(r.code, 500);
            assert_eq!(r.message, "code: -2014 - message: API-key format invalid.");
        }
    }
    assert_eq!(log.error_message.as_deref(), Some("code: -2014 - message: API-key format invalid."));
}

#[test]
fn order_failure_is_recorded_in_its_log() {
    let mut log = exchange_log("BINANCE", "post_new_order", "u", 0);
    let failure = trading_bots::response::Response::bad_request("Invalid quantity".to_string());
    Binance::record_order_failure(&mut log, &failure);
    assert_eq!(log.status_code, Some(400));
    assert_eq!(log.error_message.as_deref(), Some("Invalid quantity"));
    assert_eq!(log.function_name.as_deref(), Some("post_new_order"));
}

#[test]
fn ticker_read_keeps_body_and_parse_error_in_its_log() {
    use_ticker_paths();
}

fn use_ticker_paths() {
    let base = ticker_call_log("COINPAPRIKA", "get_tickers_core", "u", 200, 5);
    let mut log = base.duplicate();
    let out: Result<u32, String> =
        CoinPaprika::get_tickers_core(&mut log, Ok(("[x]".to_string(), Err("expected value".to_string()))));
    assert_eq!(out, Err("expected value".to_string()));
    assert_eq!(log.response.as_deref(), Some("[x]"));
    assert_eq!(log.error_message.as_deref(), Some("expected value"));
    let mut log = base.duplicate();
    let out: Result<u32, String> = CoinPaprika::get_tickers_core(&mut log, Ok(("[]".to_string(), Ok(0))));
    assert_eq!(out, Ok(0));
    assert_eq!(log.response.as_deref(), Some("[]"));
    assert!(log.error_message.is_none());
    let mut log = base.duplicate();
    let out: Result<u32, String> = CoinPaprika::get_tickers_core(&mut log, Err("connection refused".to_string()));
    assert_eq!(out, Err("connection refused".to_string()));
    assert!(log.response.is_none());
    assert_eq!(log.error_message.as_deref(), Some("connection refused"));
    assert_eq!(log.status_code, Some(200));
}
