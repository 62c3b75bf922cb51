use vstd::prelude::*;

use crate::entities::metrics::{Metric, MetricRequest};
use crate::response::Response;
use crate::states::TradingEnvironment;

verus! {

/// The two databases of the engine.
#[derive(Debug, Clone, Copy, PartialEq, Eq, Structural)]
pub enum DatabaseChoice {
    Dev,
    Prod,
}

/// The connections to the engine's databases.
pub struct DBC;

impl DBC {
    /// Production reads the production database; every other environment the
    /// development one.
    pub fn get_database_core(environment: TradingEnvironment) -> (res: DatabaseChoice)
        ensures
            res == (if environment == TradingEnvironment::PROD {
                DatabaseChoice::Prod
            } else {
                DatabaseChoice::Dev
            }),
    {
        match environment {
            TradingEnvironment::PROD => DatabaseChoice::Prod,
            _ => DatabaseChoice::Dev,
        }
    }
}

/// The cancellation tokens of the runtimes.
pub struct Cancellations;

impl Cancellations {
    /// A runtime may start unless one is already running. `token` is the
    /// environment's runtime token: `None` when none is set, else whether it
    /// is cancelled. A set, live token refuses the start (400) and stays as
    /// it is; otherwise the start succeeds and the environment's token
    /// becomes a new, live one (a child of the engine's token), so that a
    /// second start is refused until it is cancelled.
    pub fn start_runtime_core(token: &mut Option<bool>) -> (res: Result<(), Response>)
        ensures
            (*old(token) == Some(false)) ==> (res matches Err(r) && r.code == 400 && r.message@
                == "Active runtime cancellation token is already set"@ && *final(token) == *old(token)),
            (*old(token) != Some(false)) ==> (res is Ok && *final(token) == Some(false)),
    {
        match *token {
            Some(cancelled) => {
                if !cancelled {
                    return Err(Response::bad_request(String::from_str("Active runtime cancellation token is already set")));
                }
            },
            None => {},
        }
        *token = Some(false);
        Ok(())
    }
}

/// The market socket is opened only when it is not connected already.
pub fn socket_needs_start(connected: bool) -> (res: bool)
    ensures
        res == !connected,
{
    !connected
}

/// The market socket is shut down once no indicator is subscribed any more.
pub fn socket_should_shut_down(subscriptions: usize) -> (res: bool)
    ensures
        res == (subscriptions == 0),
{
    subscriptions == 0
}

/// A metric's request carries every figure of the metric: storing it over
/// the metric changes nothing.
pub proof fn lemma_metric_request_restores(m: Metric, now: i64)
    ensures
        spec_metric_request(m).id == Some(m.id),
        crate::entities::metrics::spec_mock_update(m, spec_metric_request(m), now) == m,
{
}

/// The request that stores a metrics snapshot with every field it has.
pub open spec fn spec_metric_request(m: Metric) -> MetricRequest {
    MetricRequest {
        id: Some(m.id),
        creation_date: Some(m.creation_date),
        executions_ok: Some(m.executions_ok),
        executions_err: Some(m.executions_err),
        total_execution_time: Some(m.total_execution_time),
        max_execution_time: Some(m.max_execution_time),
        slowest_duration: Some(m.slowest_duration),
        active_posting: Some(m.active_posting),
        max_active_posting: Some(m.max_active_posting),
        skipped_due_to_lock: Some(m.skipped_due_to_lock),
        last_success: m.last_success,
        last_error: m.last_error,
        consecutive_errors: Some(m.consecutive_errors),
    }
}

pub fn metric_request_of(m: &Metric) -> (res: MetricRequest)
    ensures
        res == spec_metric_request(*m),
{
    MetricRequest {
        id: Some(m.id),
        creation_date: Some(m.creation_date),
        executions_ok: Some(m.executions_ok),
        executions_err: Some(m.executions_err),
        total_execution_time: Some(m.total_execution_time),
        max_execution_time: Some(m.max_execution_time),
        slowest_duration: Some(m.slowest_duration),
        active_posting: Some(m.active_posting),
        max_active_posting: Some(m.max_active_posting),
        skipped_due_to_lock: Some(m.skipped_due_to_lock),
        last_success: m.last_success,
        last_error: m.last_error,
        consecutive_errors: Some(m.consecutive_errors),
    }
}

/// The metrics of the engine.
pub struct Metrics;

impl Metrics {
    /// Persisting an environment's metrics takes its snapshot out of the
    /// cache: a snapshot is turned into the request that stores it; no
    /// snapshot, or a failure of the cache, is a failure of the engine (500).
    pub fn persist(removed: Result<Option<Metric>, String>) -> (res: Result<MetricRequest, Response>)
        ensures
            removed matches Ok(Some(m)) ==> res == Ok::<MetricRequest, Response>(spec_metric_request(m)),
            removed matches Ok(None) ==> (res matches Err(r) && r.code == 500 && r.message@
                == "Metric not found"@),
            removed matches Err(e) ==> (res matches Err(r) && r.code == 500 && r.message == e),
    {
        match removed {
            Ok(Some(m)) => Ok(metric_request_of(&m)),
            Ok(None) => Err(Response::server_error(String::from_str("Metric not found"))),
            Err(e) => Err(Response::server_error(e)),
        }
    }
}

/// The time a call took as an integration log records it: the milliseconds
/// when they fit, else -1.
pub fn execution_time_field(elapsed_ms: u128) -> (res: i32)
    ensures
        res == (if elapsed_ms <= i32::MAX { elapsed_ms as i32 } else { -1i32 }),
{
    if elapsed_ms <= 2147483647u128 {
        elapsed_ms as i32
    } else {
        -1
    }
}

/// A step of opening a database that can fail.
#[derive(Debug, Clone, Copy, PartialEq, Eq, Structural)]
pub enum DatabaseSetupStep {
    /// Connecting to the database.
    Connect,
    /// Bringing its schema up to date.
    Migrate,
}

impl DBC {
    /// Opening a database: it succeeds unless a step failed (`failed`), and
    /// a failed step is a failure of the engine (500) that names the step.
    pub fn set_database_data(failed: Option<DatabaseSetupStep>) -> (res: Result<(), Response>)
        ensures
            failed is None ==> res is Ok,
            failed matches Some(step) ==> (res matches Err(r) && r.code == 500 && r.message@ == match step {
                DatabaseSetupStep::Connect => "Failed to setup database connection"@,
                DatabaseSetupStep::Migrate => "Failed to run database migration"@,
            }),
    {
        match failed {
            None => Ok(()),
            Some(DatabaseSetupStep::Connect) => Err(Response::server_error(String::from_str("Failed to setup database connection"))),
            Some(DatabaseSetupStep::Migrate) => Err(Response::server_error(String::from_str("Failed to run database migration"))),
        }
    }
}

} // verus!
