use vstd::prelude::*;

use crate::engine::execution_time_field;
use crate::entities::error_logs::{self, ErrorLog, ErrorLogRequest};
use crate::entities::integration_logs::{self, IntegrationLog, IntegrationLogRequest};

verus! {

/// The character of a decimal digit.
pub open spec fn digit_char(d: int) -> char {
    if d == 0 {
        '0'
    } else if d == 1 {
        '1'
    } else if d == 2 {
        '2'
    } else if d == 3 {
        '3'
    } else if d == 4 {
        '4'
    } else if d == 5 {
        '5'
    } else if d == 6 {
        '6'
    } else if d == 7 {
        '7'
    } else if d == 8 {
        '8'
    } else {
        '9'
    }
}

/// The decimal digits of `n`, most significant first, without leading zeros.
pub open spec fn spec_decimal(n: nat) -> Seq<char>
    decreases n,
{
    if n < 10 {
        seq![digit_char(n as int)]
    } else {
        spec_decimal(n / 10).push(digit_char((n % 10) as int))
    }
}

/// An integer as decimal text, with a leading minus sign when negative.
pub open spec fn spec_signed_decimal(n: int) -> Seq<char> {
    if n < 0 {
        seq!['-'] + spec_decimal((-n) as nat)
    } else {
        spec_decimal(n as nat)
    }
}

/// The value of a decimal digit character.
pub open spec fn digit_value(c: char) -> int {
    (c as int) - ('0' as int)
}

/// The number a text of decimal digits writes, most significant first.
pub open spec fn decimal_value(s: Seq<char>) -> int
    decreases s.len(),
{
    if s.len() == 0 {
        0
    } else {
        10 * decimal_value(s.drop_last()) + digit_value(s.last())
    }
}

/// The decimal text of a number is made of digits, starts with a zero only
/// when the number is zero, and reads back as that number.
pub proof fn lemma_decimal_reads_back(n: nat)
    ensures
        spec_decimal(n).len() >= 1,
        forall|i: int| 0 <= i < spec_decimal(n).len() ==> '0' <= #[trigger] spec_decimal(n)[i] <= '9',
        n >= 10 ==> spec_decimal(n)[0] != '0',
        decimal_value(spec_decimal(n)) == n,
    decreases n,
{
    if n < 10 {
        let s = spec_decimal(n);
        assert(s.drop_last() =~= Seq::<char>::empty());
        assert(decimal_value(s.drop_last()) == 0);
        assert(digit_value(digit_char(n as int)) == n);
        assert(s.last() == digit_char(n as int));
    } else {
        let q = n / 10;
        lemma_decimal_reads_back(q);
        let s = spec_decimal(n);
        assert(s.drop_last() =~= spec_decimal(q));
        assert(digit_value(digit_char((n % 10) as int)) == n % 10);
        assert(s.last() == digit_char((n % 10) as int));
        assert(n == 10 * q + n % 10);
        assert(decimal_value(s) == 10 * decimal_value(spec_decimal(q)) + digit_value(s.last()));
        assert(s[0] == spec_decimal(q)[0]);
        assert forall|i: int| 0 <= i < s.len() implies '0' <= #[trigger] s[i] <= '9' by {
            if i < s.len() - 1 {
                assert(s[i] == spec_decimal(q)[i]);
            }
        }
        if q < 10 {
            assert(q >= 1);
        }
    }
}

/// The text of a negative integer is a minus sign before the text of its
/// magnitude; that of any other integer is its decimal text.
pub proof fn lemma_signed_decimal_reads_back(n: int)
    ensures
        n < 0 ==> spec_signed_decimal(n)[0] == '-' && decimal_value(spec_signed_decimal(n).drop_first()) == -n,
        n >= 0 ==> decimal_value(spec_signed_decimal(n)) == n && spec_signed_decimal(n)[0] != '-',
{
    if n < 0 {
        lemma_decimal_reads_back((-n) as nat);
        assert(spec_signed_decimal(n).drop_first() =~= spec_decimal((-n) as nat));
    } else {
        lemma_decimal_reads_back(n as nat);
    }
}

fn digit_text(d: u64) -> (res: &'static str)
    requires
        d < 10,
    ensures
        res@ == seq![digit_char(d as int)],
{
    if d == 0 {
        proof { reveal_strlit("0"); }
        "0"
    } else if d == 1 {
        proof { reveal_strlit("1"); }
        "1"
    } else if d == 2 {
        proof { reveal_strlit("2"); }
        "2"
    } else if d == 3 {
        proof { reveal_strlit("3"); }
        "3"
    } else if d == 4 {
        proof { reveal_strlit("4"); }
        "4"
    } else if d == 5 {
        proof { reveal_strlit("5"); }
        "5"
    } else if d == 6 {
        proof { reveal_strlit("6"); }
        "6"
    } else if d == 7 {
        proof { reveal_strlit("7"); }
        "7"
    } else if d == 8 {
        proof { reveal_strlit("8"); }
        "8"
    } else {
        proof { reveal_strlit("9"); }
        "9"
    }
}

/// A natural number as decimal text.
pub fn natural_text(n: u64) -> (res: String)
    ensures
        res@ == spec_decimal(n as nat),
    decreases n,
{
    if n < 10 {
        String::from_str(digit_text(n))
    } else {
        let mut s = natural_text(n / 10);
        s.append(digit_text(n % 10));
        s
    }
}

/// An integer as decimal text.
pub fn integer_text(n: i64) -> (res: String)
    ensures
        res@ == spec_signed_decimal(n as int),
{
    if n < 0 {
        let magnitude: u64 = (0i128 - (n as i128)) as u64;
        let mut s = String::from_str("-");
        proof { reveal_strlit("-"); }
        let digits = natural_text(magnitude);
        s.append(digits.as_str());
        s
    } else {
        natural_text(n as u64)
    }
}

/// The message of an error the exchange answers an account request with.
pub open spec fn spec_account_error(code: i64, msg: Seq<char>) -> Seq<char> {
    "code: "@ + spec_signed_decimal(code as int) + " - message: "@ + msg
}

/// Describes an error the exchange answers an account request with: its
/// code and its message.
pub fn account_error_message(code: i64, msg: &str) -> (res: String)
    ensures
        res@ == spec_account_error(code, msg@),
{
    let mut s = String::from_str("code: ");
    let digits = integer_text(code);
    s.append(digits.as_str());
    s.append(" - message: ");
    s.append(msg);
    s
}

/// How a call that only reads an endpoint is described in its log.
pub fn get_request_text(endpoint: &str) -> (res: String)
    ensures
        res@ == "GET request: "@ + endpoint@,
{
    let mut s = String::from_str("GET request: ");
    s.append(endpoint);
    s
}

/// Whether `log` is a new log (no id, no creation date yet) naming the
/// integration, the function and the address of a call.
pub open spec fn names_call(
    log: IntegrationLogRequest,
    integration: Seq<char>,
    function: Seq<char>,
    url: Seq<char>,
) -> bool {
    &&& log.id is None
    &&& log.creation_date is None
    &&& log.integration_name matches Some(n) && n@ == integration
    &&& log.function_name matches Some(f) && f@ == function
    &&& log.url matches Some(u) && u@ == url
}

/// A log that names a call is new (no id, no creation date) and carries the
/// integration, the function and the address of that call.
pub proof fn lemma_named_call_fields(log: IntegrationLogRequest, integration: Seq<char>, function: Seq<char>, url: Seq<char>)
    requires
        names_call(log, integration, function, url),
    ensures
        log.id is None,
        log.creation_date is None,
        log.integration_name.unwrap()@ == integration,
        log.function_name.unwrap()@ == function,
        log.url.unwrap()@ == url,
{
}

/// The log of a call to an exchange: the integration, the function and the
/// address it called, and how long it took (-1 when the milliseconds do not
/// fit); the rest is filled in once the answer is known.
pub fn exchange_log(integration: &str, function: &str, url: &str, elapsed_ms: u128) -> (res:
    IntegrationLogRequest)
    ensures
        names_call(res, integration@, function@, url@),
        res.execution_time_ms == Some(
            if elapsed_ms <= i32::MAX { elapsed_ms as i32 } else { -1i32 },
        ),
        res.request is None,
        res.response is None,
        res.status_code is None,
        res.error_message is None,
{
    IntegrationLogRequest {
        id: None,
        creation_date: None,
        integration_name: Some(String::from_str(integration)),
        function_name: Some(String::from_str(function)),
        url: Some(String::from_str(url)),
        request: None,
        response: None,
        status_code: None,
        error_message: None,
        execution_time_ms: Some(execution_time_field(elapsed_ms)),
    }
}

/// The status a call is logged with: that of the answer; for a failure, the
/// status it carries, or 500 when it carries none. `reply` is the answer's
/// status, or the failure's.
pub fn call_status(reply: Result<u16, Option<u16>>) -> (res: i32)
    ensures
        res == match reply {
            Ok(s) => s as i32,
            Err(Some(s)) => s as i32,
            Err(None) => 500i32,
        },
{
    match reply {
        Ok(s) => s as i32,
        Err(Some(s)) => s as i32,
        Err(None) => 500,
    }
}

/// The log of a read of a ticker service: the integration, the function and
/// the address it read, the status, how long it took and the request's
/// description. The time must fit in the log's milliseconds.
pub fn ticker_call_log(integration: &str, function: &str, url: &str, status: i32, elapsed_ms: u128) -> (res:
    IntegrationLogRequest)
    requires
        elapsed_ms <= i32::MAX,
    ensures
        names_call(res, integration@, function@, url@),
        res.status_code == Some(status),
        res.execution_time_ms == Some(elapsed_ms as i32),
        res.request matches Some(r) && r@ == "GET request: "@ + url@,
        res.response is None,
        res.error_message is None,
{
    IntegrationLogRequest {
        id: None,
        creation_date: None,
        integration_name: Some(String::from_str(integration)),
        function_name: Some(String::from_str(function)),
        url: Some(String::from_str(url)),
        request: Some(get_request_text(url)),
        response: None,
        status_code: Some(status),
        error_message: None,
        execution_time_ms: Some(elapsed_ms as i32),
    }
}

/// Records in `log` what a call gave: the body of an answer is kept as the
/// response, the text of a failure as the error message.
pub fn record_reply(log: &mut IntegrationLogRequest, reply: &Result<String, String>)
    ensures
        match reply {
            Ok(body) => *final(log) == IntegrationLogRequest { response: Some(*body), ..*old(log) },
            Err(e) => *final(log) == IntegrationLogRequest { error_message: Some(*e), ..*old(log) },
        },
{
    match reply {
        Ok(body) => {
            log.response = Some(body.clone());
        },
        Err(e) => {
            log.error_message = Some(e.clone());
        },
    }
}

/// The logs of calls to outside services.
pub struct IntegrationLogs;

impl IntegrationLogs {
    /// The record the engine stores for a call's log under id `id` at time
    /// `now`: every field the log sets, the others at their defaults, and
    /// the time of storing as its creation date.
    pub fn insert_log_data(log: &IntegrationLogRequest, id: i32, now: i64) -> (res: IntegrationLog)
        ensures
            integration_logs::spec_is_new_record(
                res,
                IntegrationLogRequest { creation_date: None, ..*log },
                id,
                now,
            ),
    {
        let mut undated = log.duplicate();
        undated.creation_date = None;
        integration_logs::new_record(&undated, id, now)
    }
}

/// The logs of the engine's own errors.
pub struct ErrorLogs;

impl ErrorLogs {
    /// The record the engine stores for an error under id `id` at time
    /// `now`: every field the request sets, the others empty, dated `now`.
    pub fn insert_log_data(log: &ErrorLogRequest, id: i32, now: i64) -> (res: ErrorLog)
        ensures
            error_logs::spec_is_new_record(res, *log, id, now),
    {
        error_logs::new_record(log, id, now)
    }
}

/// The ticker service.
pub struct CoinPaprika;

impl CoinPaprika {
    /// What a read of the ticker service gives, with its log completed. A
    /// failed call gives the failure's text, which the log keeps as its error
    /// message. An answer is kept as the log's response and then read as
    /// tickers (`reply` carries the body and that reading of it): a body that
    /// cannot be read gives the reading's error, which the log keeps as its
    /// error message; otherwise the tickers. The caller stores the log once
    /// afterwards, whatever the outcome.
    pub fn get_tickers_core<T>(log: &mut IntegrationLogRequest, reply: Result<(String, Result<T, String>), String>) -> (res:
        Result<T, String>)
        ensures
            match reply {
                Err(e) => res == Err::<T, String>(e) && *final(log) == (IntegrationLogRequest {
                    error_message: Some(e),
                    ..*old(log)
                }),
                Ok((body, Err(e))) => res == Err::<T, String>(e) && *final(log) == (IntegrationLogRequest {
                    response: Some(body),
                    error_message: Some(e),
                    ..*old(log)
                }),
                Ok((body, Ok(v))) => res == Ok::<T, String>(v) && *final(log) == (IntegrationLogRequest {
                    response: Some(body),
                    ..*old(log)
                }),
            },
    {
        match reply {
            Err(e) => {
                log.error_message = Some(e.clone());
                Err(e)
            },
            Ok((body, parsed)) => {
                log.response = Some(body);
                match parsed {
                    Ok(v) => Ok(v),
                    Err(e) => {
                        log.error_message = Some(e.clone());
                        Err(e)
                    },
                }
            },
        }
    }
}

} // verus!
