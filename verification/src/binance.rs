use vstd::prelude::*;

use crate::call_logs::{account_error_message, spec_account_error};
use crate::entities::integration_logs::IntegrationLogRequest;
use crate::response::Response;
use crate::text::text_eq;

verus! {

/// The exchange integration of the engine (Binance spot).
pub struct Binance;

/// The first `max_chars` characters of `s`, or all of `s` when it is shorter.
pub open spec fn spec_truncate(s: Seq<char>, max_chars: nat) -> Seq<char> {
    if max_chars < s.len() {
        s.take(max_chars as int)
    } else {
        s
    }
}

/// A cut text is the start of the text, holds at most `max_chars`
/// characters (all of them when the text is shorter), and cutting it again
/// changes nothing.
pub proof fn lemma_truncate_keeps_a_prefix(s: Seq<char>, max_chars: nat)
    ensures
        spec_truncate(s, max_chars).len() == (if max_chars < s.len() { max_chars } else { s.len() }),
        spec_truncate(s, max_chars) =~= s.take(spec_truncate(s, max_chars).len() as int),
        spec_truncate(spec_truncate(s, max_chars), max_chars) == spec_truncate(s, max_chars),
{
    assert(s.take(s.len() as int) =~= s);
}

impl Binance {
    /// Cuts a text to at most `max_chars` characters, never splitting one.
    pub fn truncate_utf8(s: &str, max_chars: usize) -> (res: String)
        ensures
            res@ == spec_truncate(s@, max_chars as nat),
    {
        let len = s.unicode_len();
        let end = if max_chars < len { max_chars } else { len };
        let kept = s.substring_char(0, end);
        let res = String::from_str(kept);
        assert(s@.subrange(0, end as int) =~= spec_truncate(s@, max_chars as nat));
        res
    }
}

} // verus!

verus! {

/// The order endpoints of the exchange: the test endpoint validates an order
/// without executing it; the live endpoint executes it.
#[derive(Debug, Clone, Copy, PartialEq, Eq, Structural)]
pub enum OrderEndpoint {
    Test,
    Live,
}

pub open spec fn spec_order_endpoint(environment: crate::states::TradingEnvironment) -> OrderEndpoint {
    match environment {
        crate::states::TradingEnvironment::DEV => OrderEndpoint::Test,
        crate::states::TradingEnvironment::PROD => OrderEndpoint::Live,
    }
}

/// Orders from development are only ever validated (the test endpoint), and
/// orders from production are executed (the live endpoint).
pub proof fn lemma_endpoint_by_environment()
    ensures
        spec_order_endpoint(crate::states::TradingEnvironment::DEV) == OrderEndpoint::Test,
        spec_order_endpoint(crate::states::TradingEnvironment::PROD) == OrderEndpoint::Live,
{
}

impl Binance {
    /// Development sends orders to the test endpoint, production to the live one.
    pub fn order_endpoint(environment: crate::states::TradingEnvironment) -> (res: OrderEndpoint)
        ensures
            res == spec_order_endpoint(environment),
    {
        match environment {
            crate::states::TradingEnvironment::DEV => OrderEndpoint::Test,
            crate::states::TradingEnvironment::PROD => OrderEndpoint::Live,
        }
    }
}

} // verus!

verus! {

/// The code of the exchange's integration.
pub open spec fn binance_code() -> spec_fn(crate::entities::integrations::Integration) -> bool {
    |i: crate::entities::integrations::Integration| i.code@ == "BINANCE"@
}

/// How many characters of an exchange response an integration log keeps.
pub const RESPONSE_LOG_LIMIT: usize = 1000usize;

/// The exchange's integration found in the cache is a cached integration
/// whose code is `BINANCE`, and none is found only when no cached integration
/// has that code.
pub proof fn lemma_cached_integration_is_binance(cache: Seq<crate::entities::integrations::Integration>)
    ensures
        crate::overview::first_match(cache, binance_code()) matches Some(i) ==> i.code@ == "BINANCE"@
            && cache.contains(i),
        crate::overview::first_match(cache, binance_code()) is None <==> forall|k: int|
            0 <= k < cache.len() ==> (#[trigger] cache[k]).code@ != "BINANCE"@,
{
    crate::overview::lemma_first_match_found(cache, binance_code());
    crate::overview::lemma_first_match_none(cache, binance_code());
}

impl Binance {
    /// The exchange's integration among the cached integrations: the first
    /// one whose code is `BINANCE`.
    pub fn find_cached_integration(cache: &Vec<crate::entities::integrations::Integration>) -> (res:
        Option<crate::entities::integrations::Integration>)
        ensures
            res == crate::overview::first_match(cache@, binance_code()),
    {
        let mut i: usize = 0;
        assert(cache@.skip(0) =~= cache@);
        while i < cache.len()
            invariant
                i <= cache@.len(),
                crate::overview::first_match(cache@, binance_code()) == crate::overview::first_match(
                    cache@.skip(i as int),
                    binance_code(),
                ),
            decreases cache@.len() - i,
        {
            proof {
                crate::overview::lemma_first_match_step(cache@, binance_code(), i as int);
            }
            if text_eq(cache[i].code.as_str(), "BINANCE") {
                return Some(cache[i].duplicate());
            }
            i = i + 1;
        }
        proof {
            crate::overview::lemma_first_match_end(cache@, binance_code());
        }
        None
    }

    /// The lookup of the exchange's integration in the database (when the
    /// integrations are not cached): by its code.
    pub fn integration_request() -> (res: crate::entities::integrations::IntegrationRequest)
        ensures
            res.id is None,
            res.name is None,
            res.code matches Some(c) && c@ == "BINANCE"@,
            res.is_enabled is None,
    {
        crate::entities::integrations::IntegrationRequest {
            id: None,
            name: None,
            code: Some(String::from_str("BINANCE")),
            is_enabled: None,
        }
    }

    /// The exchange's integration, found in the cache or the database; when
    /// neither holds it the request is refused (404).
    pub fn resolve_binance_integration(found: Option<crate::entities::integrations::Integration>) -> (res:
        Result<crate::entities::integrations::Integration, Response>)
        ensures
            found matches Some(i) ==> res == Ok::<crate::entities::integrations::Integration, Response>(i),
            found is None ==> (res matches Err(r) && r.code == 404 && r.message@
                == "Binance integration not found in cache or db"@),
    {
        match found {
            Some(i) => Ok(i),
            None => Err(Response::not_found(String::from_str("Binance integration not found in cache or db"))),
        }
    }

    /// The lookup of the exchange's settings (its keys): those of its integration.
    pub fn settings_request(integration: &crate::entities::integrations::Integration) -> (res:
        crate::entities::integration_settings::IntegrationSettingRequest)
        ensures
            res.integration_id == Some(integration.id),
            res.id is None,
            res.name is None,
            res.nick is None,
            res.value is None,
    {
        crate::entities::integration_settings::IntegrationSettingRequest {
            id: None,
            integration_id: Some(integration.id),
            name: None,
            nick: None,
            value: None,
        }
    }

    /// Outside production the exchange acknowledges a valid order with an
    /// empty object: such an answer means the order was accepted.
    pub fn order_acknowledged(body: &str) -> (res: bool)
        ensures
            res == (body@ == "{}"@),
    {
        text_eq(body, "{}")
    }

    /// The part of an exchange response an integration log keeps.
    pub fn logged_response(body: &str) -> (res: String)
        ensures
            res@ == spec_truncate(body@, RESPONSE_LOG_LIMIT as nat),
    {
        Binance::truncate_utf8(body, RESPONSE_LOG_LIMIT)
    }
}

impl Binance {
    /// What the exchange's answer to an account request gives: the account;
    /// or, when the exchange answers with an error (its code and message),
    /// a failure of the engine (500) whose message names both, and which the
    /// call's log records as its error message.
    pub fn get_account<T>(answer: Result<T, (i64, String)>, log: &mut IntegrationLogRequest) -> (res:
        Result<T, Response>)
        ensures
            match answer {
                Ok(a) => res == Ok::<T, Response>(a) && *final(log) == *old(log),
                Err((code, msg)) => res matches Err(r) && r.code == 500 && r.message@
                    == spec_account_error(code, msg@) && *final(log) == (IntegrationLogRequest {
                        error_message: Some(r.message),
                        ..*old(log)
                    }),
            },
    {
        match answer {
            Ok(a) => Ok(a),
            Err((code, msg)) => {
                let message = account_error_message(code, msg.as_str());
                log.error_message = Some(message.clone());
                Err(Response::server_error(message))
            },
        }
    }
}

impl Binance {
    /// Records in an order's log why the order could not be sent: the
    /// failure's status and its message.
    pub fn record_order_failure(log: &mut IntegrationLogRequest, failure: &Response)
        ensures
            *final(log) == (IntegrationLogRequest {
                status_code: Some(failure.code as i32),
                error_message: Some(failure.message),
                ..*old(log)
            }),
    {
        log.status_code = Some(failure.code as i32);
        log.error_message = Some(failure.message.clone());
    }
}

} // verus!
