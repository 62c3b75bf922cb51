use trading_bots::binance::{Binance, OrderEndpoint, RESPONSE_LOG_LIMIT};
use trading_bots::entities::integrations::Integration;
use trading_bots::environments::Environments;
use trading_bots::states::TradingEnvironment;
use trading_bots::text::text_eq;

#[test]
fn parse_known_environments() {
    assert_eq!(Environments::parse("PRO"), Environments::PRO);
    assert_eq!(Environments::parse("UAT"), Environments::UAT);
    assert_eq!(Environments::parse("STG"), Environments::STG);
    assert_eq!(Environments::parse("DEV"), Environments::DEV);
}

#[test]
fn parse_unknown_environment_falls_back_to_dev() {
    assert_eq!(Environments::parse("pro"), Environments::DEV);
    assert_eq!(Environments::parse(""), Environments::DEV);
    assert_eq!(Environments::parse("PROD"), Environments::DEV);
}

#[test]
fn text_eq_compares_characters() {
    assert!(text_eq("abc", "abc"));
    assert!(!text_eq("abc", "abd"));
    assert!(!text_eq("abc", "ab"));
    assert!(text_eq("", ""));
    assert!(text_eq("ñé", "ñé"));
}

#[test]
fn truncate_keeps_whole_characters() {
    assert_eq!(Binance::truncate_utf8("héllo", 2), "hé");
    assert_eq!(Binance::truncate_utf8("héllo", 5), "héllo");
    assert_eq!(Binance::truncate_utf8("héllo", 50), "héllo");
    assert_eq!(Binance::truncate_utf8("héllo", 0), "");
    assert_eq!(Binance::truncate_utf8("€€€", 1), "€");
    assert_eq!(Binance::truncate_utf8("", 3), "");
}

#[test]
fn logged_response_is_cut_to_the_limit() {
    let long: String = "ü".repeat(1500);
    let kept = Binance::logged_response(&long);
    assert_eq!(kept.chars().count(), RESPONSE_LOG_LIMIT);
    assert_eq!(RESPONSE_LOG_LIMIT, 1000);
    assert_eq!(Binance::logged_response("short"), "short");
}

#[test]
fn order_endpoint_follows_environment() {
    assert_eq!(Binance::order_endpoint(TradingEnvironment::DEV), OrderEndpoint::Test);
    assert_eq!(Binance::order_endpoint(TradingEnvironment::PROD), OrderEndpoint::Live);
}

#[test]
fn empty_object_acknowledges_an_order() {
    assert!(Binance::order_acknowledged("{}"));
    assert!(!Binance::order_acknowledged("{ }"));
    assert!(!Binance::order_acknowledged("{\"orderId\":1}"));
}

fn integration(id: i32, code: &str) -> Integration {
    let mut i = Integration::default_record();
    i.id = id;
    i.code = code.to_string();
    i
}

#[test]
fn binance_integration_is_found_by_code() {
    let cache = vec![integration(1, "COINPAPRIKA"), integration(7, "BINANCE"), integration(9, "BINANCE")];
    let found = Binance::find_cached_integration(&cache);
    assert_eq!(found.map(|i| i.id), Some(7));
    assert!(Binance::find_cached_integration(&vec![integration(1, "binance")]).is_none());
    let req = Binance::integration_request();
    assert_eq!(req.code.as_deref(), Some("BINANCE"));
    assert!(req.id.is_none());
}

#[test]
fn missing_binance_integration_is_not_found() {
    match Binance::resolve_binance_integration(None) {
        Err(r) => {
            assert_eq!(r.code, 404);
            assert_eq!(r.message, "Binance integration not found in cache or db");
        }
        Ok(_) => panic!("expected an error"),
    }
    match Binance::resolve_binance_integration(Some(integration(3, "BINANCE"))) {
        Ok(i) => assert_eq!(i.id, 3),
        Err(_) => panic!("expected the integration"),
    }
    let settings = Binance::settings_request(&integration(3, "BINANCE"));
    assert_eq!(settings.integration_id, Some(3));
}

#[test]
fn truncating_twice_changes_nothing() {
    let once = Binance::truncate_utf8("añoñoño", 4);
    assert_eq!(once, "añoñ");
    assert_eq!(Binance::truncate_utf8(&once, 4), once);
    assert!("añoñoño".starts_with(once.as_str()));
}
