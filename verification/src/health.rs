use vstd::prelude::*;

use crate::dates::{date_time_text, format_date_time};

verus! {

/// What the health report reads from the databases and the caches: whether
/// each database answers, the state of each cache, of the market socket, of
/// the engine and of each runtime (as text), and the engine's and runtimes'
/// dates (as seconds from the epoch, in local time).
pub struct HealthReadings {
    /// A test run does not reach the databases: both count as valid.
    pub is_test: bool,
    pub db_dev_reachable: bool,
    pub db_prod_reachable: bool,
    pub actions_dev: String,
    pub actions_prod: String,
    pub assets_dev: String,
    pub assets_prod: String,
    pub indicators_dev: String,
    pub indicators_prod: String,
    pub integrations_dev: String,
    pub integrations_prod: String,
    pub integrations_settings_dev: String,
    pub integrations_settings_prod: String,
    pub metrics_dev: String,
    pub metrics_prod: String,
    pub pairs_dev: String,
    pub pairs_prod: String,
    pub order_status_dev: String,
    pub order_status_prod: String,
    pub strategies_dev: String,
    pub strategies_prod: String,
    pub subscribed_indicators: String,
    pub tasks_dev: String,
    pub tasks_prod: String,
    pub websocket: String,
    pub engine_startup_date: i64,
    pub engine_last_update_date: i64,
    pub engine_status: String,
    pub runtime_dev_startup_date: i64,
    pub runtime_dev_last_update_date: i64,
    pub runtime_dev_status: String,
    pub runtime_prod_startup_date: i64,
    pub runtime_prod_last_update_date: i64,
    pub runtime_prod_status: String,
}

/// What the older health report reads: whether each database answers,
/// whether each cache is initialized, and the market socket's task handle
/// (`None` when there is none, else whether it has finished).
pub struct CoreHealthReadings {
    pub db_dev_reachable: bool,
    pub db_prod_reachable: bool,
    pub actions_dev_initialized: bool,
    pub actions_prod_initialized: bool,
    pub assets_dev_initialized: bool,
    pub assets_prod_initialized: bool,
    pub configuration_cached: bool,
    pub indicators_dev_initialized: bool,
    pub indicators_prod_initialized: bool,
    pub metrics_dev_cached: bool,
    pub metrics_prod_cached: bool,
    pub pairs_dev_initialized: bool,
    pub pairs_prod_initialized: bool,
    pub status_dev_initialized: bool,
    pub status_prod_initialized: bool,
    pub strategies_dev_initialized: bool,
    pub strategies_prod_initialized: bool,
    pub subscribed_indicators_dev_initialized: bool,
    pub subscribed_indicators_prod_initialized: bool,
    pub tasks_dev_initialized: bool,
    pub tasks_prod_initialized: bool,
    pub websocket_task: Option<bool>,
}

/// `true` or `false`, as text.
pub fn bool_text(b: bool) -> (res: String)
    ensures
        res@ == (if b { "true"@ } else { "false"@ }),
{
    if b {
        String::from_str("true")
    } else {
        String::from_str("false")
    }
}

/// The entries of the health report, one per key, in ascending key order.
pub open spec fn spec_health_entries(r: HealthReadings) -> Seq<(Seq<char>, Seq<char>)> {
    seq![
        ("cache_actions_dev_status"@, r.actions_dev@),
        ("cache_actions_prod_status"@, r.actions_prod@),
        ("cache_assets_dev_status"@, r.assets_dev@),
        ("cache_assets_prod_status"@, r.assets_prod@),
        ("cache_configuration_is_some"@, "true"@),
        ("cache_indicators_dev_status"@, r.indicators_dev@),
        ("cache_indicators_prod_status"@, r.indicators_prod@),
        ("cache_integrations_dev_status"@, r.integrations_dev@),
        ("cache_integrations_prod_status"@, r.integrations_prod@),
        ("cache_integrations_settings_dev_status"@, r.integrations_settings_dev@),
        ("cache_integrations_settings_prod_status"@, r.integrations_settings_prod@),
        ("cache_metrics_dev_status"@, r.metrics_dev@),
        ("cache_metrics_prod_status"@, r.metrics_prod@),
        ("cache_order_status_dev_status"@, r.order_status_dev@),
        ("cache_order_status_prod_status"@, r.order_status_prod@),
        ("cache_pairs_dev_status"@, r.pairs_dev@),
        ("cache_pairs_prod_status"@, r.pairs_prod@),
        ("cache_strategies_dev_status"@, r.strategies_dev@),
        ("cache_strategies_prod_status"@, r.strategies_prod@),
        ("cache_subscribed_indicators_status"@, r.subscribed_indicators@),
        ("cache_tasks_dev_status"@, r.tasks_dev@),
        ("cache_tasks_prod_status"@, r.tasks_prod@),
        ("cache_websocket_status"@, r.websocket@),
        ("db_dev_conn_is_valid"@, if r.is_test || r.db_dev_reachable { "true"@ } else { "false"@ }),
        ("db_prod_conn_is_valid"@, if r.is_test || r.db_prod_reachable { "true"@ } else { "false"@ }),
        ("engine_last_update_date"@, date_time_text(r.engine_last_update_date)),
        ("engine_startup_date"@, date_time_text(r.engine_startup_date)),
        ("engine_status"@, r.engine_status@),
        ("runtime_dev_last_update_date"@, date_time_text(r.runtime_dev_last_update_date)),
        ("runtime_dev_startup_date"@, date_time_text(r.runtime_dev_startup_date)),
        ("runtime_dev_status"@, r.runtime_dev_status@),
        ("runtime_prod_last_update_date"@, date_time_text(r.runtime_prod_last_update_date)),
        ("runtime_prod_startup_date"@, date_time_text(r.runtime_prod_startup_date)),
        ("runtime_prod_status"@, r.runtime_prod_status@),
    ]
}

pub open spec fn texts(entries: Seq<(String, String)>) -> Seq<(Seq<char>, Seq<char>)> {
    entries.map_values(|e: (String, String)| (e.0@, e.1@))
}

/// The entries of the older health report, one per key, in ascending key order.
pub open spec fn spec_core_health_entries(r: CoreHealthReadings) -> Seq<(Seq<char>, bool)> {
    seq![
        ("cache_actions_dev_is_initialized"@, r.actions_dev_initialized),
        ("cache_actions_prod_is_initialized"@, r.actions_prod_initialized),
        ("cache_assets_dev_is_initialized"@, r.assets_dev_initialized),
        ("cache_assets_prod_is_initialized"@, r.assets_prod_initialized),
        ("cache_configuration_is_some"@, r.configuration_cached),
        ("cache_indicators_dev_is_initialized"@, r.indicators_dev_initialized),
        ("cache_indicators_prod_is_initialized"@, r.indicators_prod_initialized),
        ("cache_metrics_dev_is_some"@, r.metrics_dev_cached),
        ("cache_metrics_prod_is_some"@, r.metrics_prod_cached),
        ("cache_pairs_dev_is_initialized"@, r.pairs_dev_initialized),
        ("cache_pairs_prod_is_initialized"@, r.pairs_prod_initialized),
        ("cache_status_dev_is_initialized"@, r.status_dev_initialized),
        ("cache_status_prod_is_initialized"@, r.status_prod_initialized),
        ("cache_strategies_dev_is_initialized"@, r.strategies_dev_initialized),
        ("cache_strategies_prod_is_initialized"@, r.strategies_prod_initialized),
        ("cache_subscribed_indicators_dev_is_initialized"@, r.subscribed_indicators_dev_initialized),
        ("cache_subscribed_indicators_prod_is_initialized"@, r.subscribed_indicators_prod_initialized),
        ("cache_tasks_dev_is_initialized"@, r.tasks_dev_initialized),
        ("cache_tasks_prod_is_initialized"@, r.tasks_prod_initialized),
        ("cache_ws_binance_abort_handle_is_finished"@, r.websocket_task == Some(true)),
        ("cache_ws_binance_abort_handle_is_some"@, r.websocket_task is Some),
        ("db_dev_conn_is_valid"@, r.db_dev_reachable),
        ("db_prod_conn_is_valid"@, r.db_prod_reachable),
    ]
}

pub open spec fn core_texts(entries: Seq<(String, bool)>) -> Seq<(Seq<char>, bool)> {
    entries.map_values(|e: (String, bool)| (e.0@, e.1))
}

/// Each reading shows in its own entry alone: a report on readings that differ
/// in one reading only differs in the entry under that reading's key, which
/// carries the new reading (a state as it is, a date as its text, a database
/// as `true` when it answers or the run is a test); the keys stay as they are.
#[verifier::spinoff_prover]
pub proof fn lemma_each_reading_in_its_own_entry(r: HealthReadings, x: String, t: i64, b: bool)
    ensures
        spec_health_entries(HealthReadings { actions_dev: x, ..r }) == spec_health_entries(r).update(0, ("cache_actions_dev_status"@, x@)),
        spec_health_entries(HealthReadings { actions_prod: x, ..r }) == spec_health_entries(r).update(1, ("cache_actions_prod_status"@, x@)),
        spec_health_entries(HealthReadings { assets_dev: x, ..r }) == spec_health_entries(r).update(2, ("cache_assets_dev_status"@, x@)),
        spec_health_entries(HealthReadings { assets_prod: x, ..r }) == spec_health_entries(r).update(3, ("cache_assets_prod_status"@, x@)),
        spec_health_entries(HealthReadings { indicators_dev: x, ..r }) == spec_health_entries(r).update(5, ("cache_indicators_dev_status"@, x@)),
        spec_health_entries(HealthReadings { indicators_prod: x, ..r }) == spec_health_entries(r).update(6, ("cache_indicators_prod_status"@, x@)),
        spec_health_entries(HealthReadings { integrations_dev: x, ..r }) == spec_health_entries(r).update(7, ("cache_integrations_dev_status"@, x@)),
        spec_health_entries(HealthReadings { integrations_prod: x, ..r }) == spec_health_entries(r).update(8, ("cache_integrations_prod_status"@, x@)),
        spec_health_entries(HealthReadings { integrations_settings_dev: x, ..r }) == spec_health_entries(r).update(9, ("cache_integrations_settings_dev_status"@, x@)),
        spec_health_entries(HealthReadings { integrations_settings_prod: x, ..r }) == spec_health_entries(r).update(10, ("cache_integrations_settings_prod_status"@, x@)),
        spec_health_entries(HealthReadings { metrics_dev: x, ..r }) == spec_health_entries(r).update(11, ("cache_metrics_dev_status"@, x@)),
        spec_health_entries(HealthReadings { metrics_prod: x, ..r }) == spec_health_entries(r).update(12, ("cache_metrics_prod_status"@, x@)),
        spec_health_entries(HealthReadings { order_status_dev: x, ..r }) == spec_health_entries(r).update(13, ("cache_order_status_dev_status"@, x@)),
        spec_health_entries(HealthReadings { order_status_prod: x, ..r }) == spec_health_entries(r).update(14, ("cache_order_status_prod_status"@, x@)),
        spec_health_entries(HealthReadings { pairs_dev: x, ..r }) == spec_health_entries(r).update(15, ("cache_pairs_dev_status"@, x@)),
        spec_health_entries(HealthReadings { pairs_prod: x, ..r }) == spec_health_entries(r).update(16, ("cache_pairs_prod_status"@, x@)),
        spec_health_entries(HealthReadings { strategies_dev: x, ..r }) == spec_health_entries(r).update(17, ("cache_strategies_dev_status"@, x@)),
        spec_health_entries(HealthReadings { strategies_prod: x, ..r }) == spec_health_entries(r).update(18, ("cache_strategies_prod_status"@, x@)),
        spec_health_entries(HealthReadings { subscribed_indicators: x, ..r }) == spec_health_entries(r).update(19, ("cache_subscribed_indicators_status"@, x@)),
        spec_health_entries(HealthReadings { tasks_dev: x, ..r }) == spec_health_entries(r).update(20, ("cache_tasks_dev_status"@, x@)),
        spec_health_entries(HealthReadings { tasks_prod: x, ..r }) == spec_health_entries(r).update(21, ("cache_tasks_prod_status"@, x@)),
        spec_health_entries(HealthReadings { websocket: x, ..r }) == spec_health_entries(r).update(22, ("cache_websocket_status"@, x@)),
        spec_health_entries(HealthReadings { db_dev_reachable: b, ..r }) == spec_health_entries(r).update(23, ("db_dev_conn_is_valid"@, if r.is_test || b { "true"@ } else { "false"@ })),
        spec_health_entries(HealthReadings { db_prod_reachable: b, ..r }) == spec_health_entries(r).update(24, ("db_prod_conn_is_valid"@, if r.is_test || b { "true"@ } else { "false"@ })),
        spec_health_entries(HealthReadings { engine_last_update_date: t, ..r }) == spec_health_entries(r).update(25, ("engine_last_update_date"@, date_time_text(t))),
        spec_health_entries(HealthReadings { engine_startup_date: t, ..r }) == spec_health_entries(r).update(26, ("engine_startup_date"@, date_time_text(t))),
        spec_health_entries(HealthReadings { engine_status: x, ..r }) == spec_health_entries(r).update(27, ("engine_status"@, x@)),
        spec_health_entries(HealthReadings { runtime_dev_last_update_date: t, ..r }) == spec_health_entries(r).update(28, ("runtime_dev_last_update_date"@, date_time_text(t))),
        spec_health_entries(HealthReadings { runtime_dev_startup_date: t, ..r }) == spec_health_entries(r).update(29, ("runtime_dev_startup_date"@, date_time_text(t))),
        spec_health_entries(HealthReadings { runtime_dev_status: x, ..r }) == spec_health_entries(r).update(30, ("runtime_dev_status"@, x@)),
        spec_health_entries(HealthReadings { runtime_prod_last_update_date: t, ..r }) == spec_health_entries(r).update(31, ("runtime_prod_last_update_date"@, date_time_text(t))),
        spec_health_entries(HealthReadings { runtime_prod_startup_date: t, ..r }) == spec_health_entries(r).update(32, ("runtime_prod_startup_date"@, date_time_text(t))),
        spec_health_entries(HealthReadings { runtime_prod_status: x, ..r }) == spec_health_entries(r).update(33, ("runtime_prod_status"@, x@)),
{
    assert(spec_health_entries(HealthReadings { actions_dev: x, ..r }) =~= spec_health_entries(r).update(0, spec_health_entries(HealthReadings { actions_dev: x, ..r })[0]));
    assert(spec_health_entries(HealthReadings { actions_prod: x, ..r }) =~= spec_health_entries(r).update(1, spec_health_entries(HealthReadings { actions_prod: x, ..r })[1]));
    assert(spec_health_entries(HealthReadings { assets_dev: x, ..r }) =~= spec_health_entries(r).update(2, spec_health_entries(HealthReadings { assets_dev: x, ..r })[2]));
    assert(spec_health_entries(HealthReadings { assets_prod: x, ..r }) =~= spec_health_entries(r).update(3, spec_health_entries(HealthReadings { assets_prod: x, ..r })[3]));
    assert(spec_health_entries(HealthReadings { indicators_dev: x, ..r }) =~= spec_health_entries(r).update(5, spec_health_entries(HealthReadings { indicators_dev: x, ..r })[5]));
    assert(spec_health_entries(HealthReadings { indicators_prod: x, ..r }) =~= spec_health_entries(r).update(6, spec_health_entries(HealthReadings { indicators_prod: x, ..r })[6]));
    assert(spec_health_entries(HealthReadings { integrations_dev: x, ..r }) =~= spec_health_entries(r).update(7, spec_health_entries(HealthReadings { integrations_dev: x, ..r })[7]));
    assert(spec_health_entries(HealthReadings { integrations_prod: x, ..r }) =~= spec_health_entries(r).update(8, spec_health_entries(HealthReadings { integrations_prod: x, ..r })[8]));
    assert(spec_health_entries(HealthReadings { integrations_settings_dev: x, ..r }) =~= spec_health_entries(r).update(9, spec_health_entries(HealthReadings { integrations_settings_dev: x, ..r })[9]));
    assert(spec_health_entries(HealthReadings { integrations_settings_prod: x, ..r }) =~= spec_health_entries(r).update(10, spec_health_entries(HealthReadings { integrations_settings_prod: x, ..r })[10]));
    assert(spec_health_entries(HealthReadings { metrics_dev: x, ..r }) =~= spec_health_entries(r).update(11, spec_health_entries(HealthReadings { metrics_dev: x, ..r })[11]));
    assert(spec_health_entries(HealthReadings { metrics_prod: x, ..r }) =~= spec_health_entries(r).update(12, spec_health_entries(HealthReadings { metrics_prod: x, ..r })[12]));
    assert(spec_health_entries(HealthReadings { order_status_dev: x, ..r }) =~= spec_health_entries(r).update(13, spec_health_entries(HealthReadings { order_status_dev: x, ..r })[13]));
    assert(spec_health_entries(HealthReadings { order_status_prod: x, ..r }) =~= spec_health_entries(r).update(14, spec_health_entries(HealthReadings { order_status_prod: x, ..r })[14]));
    assert(spec_health_entries(HealthReadings { pairs_dev: x, ..r }) =~= spec_health_entries(r).update(15, spec_health_entries(HealthReadings { pairs_dev: x, ..r })[15]));
    assert(spec_health_entries(HealthReadings { pairs_prod: x, ..r }) =~= spec_health_entries(r).update(16, spec_health_entries(HealthReadings { pairs_prod: x, ..r })[16]));
    assert(spec_health_entries(HealthReadings { strategies_dev: x, ..r }) =~= spec_health_entries(r).update(17, spec_health_entries(HealthReadings { strategies_dev: x, ..r })[17]));
    assert(spec_health_entries(HealthReadings { strategies_prod: x, ..r }) =~= spec_health_entries(r).update(18, spec_health_entries(HealthReadings { strategies_prod: x, ..r })[18]));
    assert(spec_health_entries(HealthReadings { subscribed_indicators: x, ..r }) =~= spec_health_entries(r).update(19, spec_health_entries(HealthReadings { subscribed_indicators: x, ..r })[19]));
    assert(spec_health_entries(HealthReadings { tasks_dev: x, ..r }) =~= spec_health_entries(r).update(20, spec_health_entries(HealthReadings { tasks_dev: x, ..r })[20]));
    assert(spec_health_entries(HealthReadings { tasks_prod: x, ..r }) =~= spec_health_entries(r).update(21, spec_health_entries(HealthReadings { tasks_prod: x, ..r })[21]));
    assert(spec_health_entries(HealthReadings { websocket: x, ..r }) =~= spec_health_entries(r).update(22, spec_health_entries(HealthReadings { websocket: x, ..r })[22]));
    assert(spec_health_entries(HealthReadings { db_dev_reachable: b, ..r }) =~= spec_health_entries(r).update(23, spec_health_entries(HealthReadings { db_dev_reachable: b, ..r })[23]));
    assert(spec_health_entries(HealthReadings { db_prod_reachable: b, ..r }) =~= spec_health_entries(r).update(24, spec_health_entries(HealthReadings { db_prod_reachable: b, ..r })[24]));
    assert(spec_health_entries(HealthReadings { engine_last_update_date: t, ..r }) =~= spec_health_entries(r).update(25, spec_health_entries(HealthReadings { engine_last_update_date: t, ..r })[25]));
    assert(spec_health_entries(HealthReadings { engine_startup_date: t, ..r }) =~= spec_health_entries(r).update(26, spec_health_entries(HealthReadings { engine_startup_date: t, ..r })[26]));
    assert(spec_health_entries(HealthReadings { engine_status: x, ..r }) =~= spec_health_entries(r).update(27, spec_health_entries(HealthReadings { engine_status: x, ..r })[27]));
    assert(spec_health_entries(HealthReadings { runtime_dev_last_update_date: t, ..r }) =~= spec_health_entries(r).update(28, spec_health_entries(HealthReadings { runtime_dev_last_update_date: t, ..r })[28]));
    assert(spec_health_entries(HealthReadings { runtime_dev_startup_date: t, ..r }) =~= spec_health_entries(r).update(29, spec_health_entries(HealthReadings { runtime_dev_startup_date: t, ..r })[29]));
    assert(spec_health_entries(HealthReadings { runtime_dev_status: x, ..r }) =~= spec_health_entries(r).update(30, spec_health_entries(HealthReadings { runtime_dev_status: x, ..r })[30]));
    assert(spec_health_entries(HealthReadings { runtime_prod_last_update_date: t, ..r }) =~= spec_health_entries(r).update(31, spec_health_entries(HealthReadings { runtime_prod_last_update_date: t, ..r })[31]));
    assert(spec_health_entries(HealthReadings { runtime_prod_startup_date: t, ..r }) =~= spec_health_entries(r).update(32, spec_health_entries(HealthReadings { runtime_prod_startup_date: t, ..r })[32]));
    assert(spec_health_entries(HealthReadings { runtime_prod_status: x, ..r }) =~= spec_health_entries(r).update(33, spec_health_entries(HealthReadings { runtime_prod_status: x, ..r })[33]));
}

/// The older report carries the `db_dev_reachable` reading in the entry under `db_dev_conn_is_valid`, and
/// only that reading decides it.
#[verifier::rlimit(100)]
pub proof fn lemma_core_entry_db_dev_conn_is_valid(r: CoreHealthReadings, b: bool)
    ensures
        spec_core_health_entries(CoreHealthReadings { db_dev_reachable: b, ..r })[21] == ("db_dev_conn_is_valid"@, b),
{
}

/// The older report carries the `db_prod_reachable` reading in the entry under `db_prod_conn_is_valid`, and
/// only that reading decides it.
#[verifier::rlimit(100)]
pub proof fn lemma_core_entry_db_prod_conn_is_valid(r: CoreHealthReadings, b: bool)
    ensures
        spec_core_health_entries(CoreHealthReadings { db_prod_reachable: b, ..r })[22] == ("db_prod_conn_is_valid"@, b),
{
}

/// The older report carries the `actions_dev_initialized` reading in the entry under `cache_actions_dev_is_initialized`, and
/// only that reading decides it.
#[verifier::rlimit(100)]
pub proof fn lemma_core_entry_cache_actions_dev_is_initialized(r: CoreHealthReadings, b: bool)
    ensures
        spec_core_health_entries(CoreHealthReadings { actions_dev_initialized: b, ..r })[0] == ("cache_actions_dev_is_initialized"@, b),
{
}

/// The older report carries the `actions_prod_initialized` reading in the entry under `cache_actions_prod_is_initialized`, and
/// only that reading decides it.
#[verifier::rlimit(100)]
pub proof fn lemma_core_entry_cache_actions_prod_is_initialized(r: CoreHealthReadings, b: bool)
    ensures
        spec_core_health_entries(CoreHealthReadings { actions_prod_initialized: b, ..r })[1] == ("cache_actions_prod_is_initialized"@, b),
{
}

/// The older report carries the `assets_dev_initialized` reading in the entry under `cache_assets_dev_is_initialized`, and
/// only that reading decides it.
#[verifier::rlimit(100)]
pub proof fn lemma_core_entry_cache_assets_dev_is_initialized(r: CoreHealthReadings, b: bool)
    ensures
        spec_core_health_entries(CoreHealthReadings { assets_dev_initialized: b, ..r })[2] == ("cache_assets_dev_is_initialized"@, b),
{
}

/// The older report carries the `assets_prod_initialized` reading in the entry under `cache_assets_prod_is_initialized`, and
/// only that reading decides it.
#[verifier::rlimit(100)]
pub proof fn lemma_core_entry_cache_assets_prod_is_initialized(r: CoreHealthReadings, b: bool)
    ensures
        spec_core_health_entries(CoreHealthReadings { assets_prod_initialized: b, ..r })[3] == ("cache_assets_prod_is_initialized"@, b),
{
}

/// The older report carries the `configuration_cached` reading in the entry under `cache_configuration_is_some`, and
/// only that reading decides it.
#[verifier::rlimit(100)]
pub proof fn lemma_core_entry_cache_configuration_is_some(r: CoreHealthReadings, b: bool)
    ensures
        spec_core_health_entries(CoreHealthReadings { configuration_cached: b, ..r })[4] == ("cache_configuration_is_some"@, b),
{
}

/// The older report carries the `indicators_dev_initialized` reading in the entry under `cache_indicators_dev_is_initialized`, and
/// only that reading decides it.
#[verifier::rlimit(100)]
pub proof fn lemma_core_entry_cache_indicators_dev_is_initialized(r: CoreHealthReadings, b: bool)
    ensures
        spec_core_health_entries(CoreHealthReadings { indicators_dev_initialized: b, ..r })[5] == ("cache_indicators_dev_is_initialized"@, b),
{
}

/// The older report carries the `indicators_prod_initialized` reading in the entry under `cache_indicators_prod_is_initialized`, and
/// only that reading decides it.
#[verifier::rlimit(100)]
pub proof fn lemma_core_entry_cache_indicators_prod_is_initialized(r: CoreHealthReadings, b: bool)
    ensures
        spec_core_health_entries(CoreHealthReadings { indicators_prod_initialized: b, ..r })[6] == ("cache_indicators_prod_is_initialized"@, b),
{
}

/// The older report carries the `metrics_dev_cached` reading in the entry under `cache_metrics_dev_is_some`, and
/// only that reading decides it.
#[verifier::rlimit(100)]
pub proof fn lemma_core_entry_cache_metrics_dev_is_some(r: CoreHealthReadings, b: bool)
    ensures
        spec_core_health_entries(CoreHealthReadings { metrics_dev_cached: b, ..r })[7] == ("cache_metrics_dev_is_some"@, b),
{
}

/// The older report carries the `metrics_prod_cached` reading in the entry under `cache_metrics_prod_is_some`, and
/// only that reading decides it.
#[verifier::rlimit(100)]
pub proof fn lemma_core_entry_cache_metrics_prod_is_some(r: CoreHealthReadings, b: bool)
    ensures
        spec_core_health_entries(CoreHealthReadings { metrics_prod_cached: b, ..r })[8] == ("cache_metrics_prod_is_some"@, b),
{
}

/// The older report carries the `pairs_dev_initialized` reading in the entry under `cache_pairs_dev_is_initialized`, and
/// only that reading decides it.
#[verifier::rlimit(100)]
pub proof fn lemma_core_entry_cache_pairs_dev_is_initialized(r: CoreHealthReadings, b: bool)
    ensures
        spec_core_health_entries(CoreHealthReadings { pairs_dev_initialized: b, ..r })[9] == ("cache_pairs_dev_is_initialized"@, b),
{
}

/// The older report carries the `pairs_prod_initialized` reading in the entry under `cache_pairs_prod_is_initialized`, and
/// only that reading decides it.
#[verifier::rlimit(100)]
pub proof fn lemma_core_entry_cache_pairs_prod_is_initialized(r: CoreHealthReadings, b: bool)
    ensures
        spec_core_health_entries(CoreHealthReadings { pairs_prod_initialized: b, ..r })[10] == ("cache_pairs_prod_is_initialized"@, b),
{
}

/// The older report carries the `status_dev_initialized` reading in the entry under `cache_status_dev_is_initialized`, and
/// only that reading decides it.
#[verifier::rlimit(100)]
pub proof fn lemma_core_entry_cache_status_dev_is_initialized(r: CoreHealthReadings, b: bool)
    ensures
        spec_core_health_entries(CoreHealthReadings { status_dev_initialized: b, ..r })[11] == ("cache_status_dev_is_initialized"@, b),
{
}

/// The older report carries the `status_prod_initialized` reading in the entry under `cache_status_prod_is_initialized`, and
/// only that reading decides it.
#[verifier::rlimit(100)]
pub proof fn lemma_core_entry_cache_status_prod_is_initialized(r: CoreHealthReadings, b: bool)
    ensures
        spec_core_health_entries(CoreHealthReadings { status_prod_initialized: b, ..r })[12] == ("cache_status_prod_is_initialized"@, b),
{
}

/// The older report carries the `strategies_dev_initialized` reading in the entry under `cache_strategies_dev_is_initialized`, and
/// only that reading decides it.
#[verifier::rlimit(100)]
pub proof fn lemma_core_entry_cache_strategies_dev_is_initialized(r: CoreHealthReadings, b: bool)
    ensures
        spec_core_health_entries(CoreHealthReadings { strategies_dev_initialized: b, ..r })[13] == ("cache_strategies_dev_is_initialized"@, b),
{
}

/// The older report carries the `strategies_prod_initialized` reading in the entry under `cache_strategies_prod_is_initialized`, and
/// only that reading decides it.
#[verifier::rlimit(100)]
pub proof fn lemma_core_entry_cache_strategies_prod_is_initialized(r: CoreHealthReadings, b: bool)
    ensures
        spec_core_health_entries(CoreHealthReadings { strategies_prod_initialized: b, ..r })[14] == ("cache_strategies_prod_is_initialized"@, b),
{
}

/// The older report carries the `subscribed_indicators_dev_initialized` reading in the entry under `cache_subscribed_indicators_dev_is_initialized`, and
/// only that reading decides it.
#[verifier::rlimit(100)]
pub proof fn lemma_core_entry_cache_subscribed_indicators_dev_is_initialized(r: CoreHealthReadings, b: bool)
    ensures
        spec_core_health_entries(CoreHealthReadings { subscribed_indicators_dev_initialized: b, ..r })[15] == ("cache_subscribed_indicators_dev_is_initialized"@, b),
{
}

/// The older report carries the `subscribed_indicators_prod_initialized` reading in the entry under `cache_subscribed_indicators_prod_is_initialized`, and
/// only that reading decides it.
#[verifier::rlimit(100)]
pub proof fn lemma_core_entry_cache_subscribed_indicators_prod_is_initialized(r: CoreHealthReadings, b: bool)
    ensures
        spec_core_health_entries(CoreHealthReadings { subscribed_indicators_prod_initialized: b, ..r })[16] == ("cache_subscribed_indicators_prod_is_initialized"@, b),
{
}

/// The older report carries the `tasks_dev_initialized` reading in the entry under `cache_tasks_dev_is_initialized`, and
/// only that reading decides it.
#[verifier::rlimit(100)]
pub proof fn lemma_core_entry_cache_tasks_dev_is_initialized(r: CoreHealthReadings, b: bool)
    ensures
        spec_core_health_entries(CoreHealthReadings { tasks_dev_initialized: b, ..r })[17] == ("cache_tasks_dev_is_initialized"@, b),
{
}

/// The older report carries the `tasks_prod_initialized` reading in the entry under `cache_tasks_prod_is_initialized`, and
/// only that reading decides it.
#[verifier::rlimit(100)]
pub proof fn lemma_core_entry_cache_tasks_prod_is_initialized(r: CoreHealthReadings, b: bool)
    ensures
        spec_core_health_entries(CoreHealthReadings { tasks_prod_initialized: b, ..r })[18] == ("cache_tasks_prod_is_initialized"@, b),
{
}

/// The older report shows the market socket's task in its two entries:
/// whether there is one, and whether it has finished.
#[verifier::rlimit(100)]
pub proof fn lemma_core_entries_socket_task(r: CoreHealthReadings, task: Option<bool>)
    ensures
        spec_core_health_entries(CoreHealthReadings { websocket_task: task, ..r })[20] == ("cache_ws_binance_abort_handle_is_some"@, task is Some),
        spec_core_health_entries(CoreHealthReadings { websocket_task: task, ..r })[19] == ("cache_ws_binance_abort_handle_is_finished"@, task == Some(true)),
{
}

/// Whether the market socket has a task, and whether that task has finished.
fn socket_task_flags(task: Option<bool>) -> (res: (bool, bool))
    ensures
        res.0 == (task is Some),
        res.1 == (task == Some(true)),
{
    match task {
        None => (false, false),
        Some(finished) => (true, finished),
    }
}

/// The health of the engine.
pub struct HealthCheck;

impl HealthCheck {
    /// The health report: one entry per database, cache, socket, engine
    /// and runtime reading, in ascending key order.
    pub fn select_health_check(r: &HealthReadings) -> (res: Vec<(String, String)>)
        ensures
            texts(res@) == spec_health_entries(*r),
    {
        let mut res: Vec<(String, String)> = Vec::new();
        res.push((String::from_str("cache_actions_dev_status"), r.actions_dev.clone()));
        res.push((String::from_str("cache_actions_prod_status"), r.actions_prod.clone()));
        res.push((String::from_str("cache_assets_dev_status"), r.assets_dev.clone()));
        res.push((String::from_str("cache_assets_prod_status"), r.assets_prod.clone()));
        res.push((String::from_str("cache_configuration_is_some"), String::from_str("true")));
        res.push((String::from_str("cache_indicators_dev_status"), r.indicators_dev.clone()));
        res.push((String::from_str("cache_indicators_prod_status"), r.indicators_prod.clone()));
        res.push((String::from_str("cache_integrations_dev_status"), r.integrations_dev.clone()));
        res.push((String::from_str("cache_integrations_prod_status"), r.integrations_prod.clone()));
        res.push((String::from_str("cache_integrations_settings_dev_status"), r.integrations_settings_dev.clone()));
        res.push((String::from_str("cache_integrations_settings_prod_status"), r.integrations_settings_prod.clone()));
        res.push((String::from_str("cache_metrics_dev_status"), r.metrics_dev.clone()));
        res.push((String::from_str("cache_metrics_prod_status"), r.metrics_prod.clone()));
        res.push((String::from_str("cache_order_status_dev_status"), r.order_status_dev.clone()));
        res.push((String::from_str("cache_order_status_prod_status"), r.order_status_prod.clone()));
        res.push((String::from_str("cache_pairs_dev_status"), r.pairs_dev.clone()));
        res.push((String::from_str("cache_pairs_prod_status"), r.pairs_prod.clone()));
        res.push((String::from_str("cache_strategies_dev_status"), r.strategies_dev.clone()));
        res.push((String::from_str("cache_strategies_prod_status"), r.strategies_prod.clone()));
        res.push((String::from_str("cache_subscribed_indicators_status"), r.subscribed_indicators.clone()));
        res.push((String::from_str("cache_tasks_dev_status"), r.tasks_dev.clone()));
        res.push((String::from_str("cache_tasks_prod_status"), r.tasks_prod.clone()));
        res.push((String::from_str("cache_websocket_status"), r.websocket.clone()));
        res.push((String::from_str("db_dev_conn_is_valid"), bool_text(r.is_test || r.db_dev_reachable)));
        res.push((String::from_str("db_prod_conn_is_valid"), bool_text(r.is_test || r.db_prod_reachable)));
        res.push((String::from_str("engine_last_update_date"), format_date_time(r.engine_last_update_date)));
        res.push((String::from_str("engine_startup_date"), format_date_time(r.engine_startup_date)));
        res.push((String::from_str("engine_status"), r.engine_status.clone()));
        res.push((String::from_str("runtime_dev_last_update_date"), format_date_time(r.runtime_dev_last_update_date)));
        res.push((String::from_str("runtime_dev_startup_date"), format_date_time(r.runtime_dev_startup_date)));
        res.push((String::from_str("runtime_dev_status"), r.runtime_dev_status.clone()));
        res.push((String::from_str("runtime_prod_last_update_date"), format_date_time(r.runtime_prod_last_update_date)));
        res.push((String::from_str("runtime_prod_startup_date"), format_date_time(r.runtime_prod_startup_date)));
        res.push((String::from_str("runtime_prod_status"), r.runtime_prod_status.clone()));
        assert(texts(res@) =~= spec_health_entries(*r));
        res
    }

    /// The older health report: one entry per database and cache reading,
    /// and two for the market socket's task, in ascending key order.
    #[verifier::rlimit(50)]
    pub fn select_health_check_core(r: &CoreHealthReadings) -> (res: Vec<(String, bool)>)
        ensures
            core_texts(res@) == spec_core_health_entries(*r),
    {
        let mut res: Vec<(String, bool)> = Vec::new();
        let (is_some, is_finished) = socket_task_flags(r.websocket_task);
        res.push((String::from_str("cache_actions_dev_is_initialized"), r.actions_dev_initialized));
        res.push((String::from_str("cache_actions_prod_is_initialized"), r.actions_prod_initialized));
        res.push((String::from_str("cache_assets_dev_is_initialized"), r.assets_dev_initialized));
        res.push((String::from_str("cache_assets_prod_is_initialized"), r.assets_prod_initialized));
        res.push((String::from_str("cache_configuration_is_some"), r.configuration_cached));
        res.push((String::from_str("cache_indicators_dev_is_initialized"), r.indicators_dev_initialized));
        res.push((String::from_str("cache_indicators_prod_is_initialized"), r.indicators_prod_initialized));
        res.push((String::from_str("cache_metrics_dev_is_some"), r.metrics_dev_cached));
        res.push((String::from_str("cache_metrics_prod_is_some"), r.metrics_prod_cached));
        res.push((String::from_str("cache_pairs_dev_is_initialized"), r.pairs_dev_initialized));
        res.push((String::from_str("cache_pairs_prod_is_initialized"), r.pairs_prod_initialized));
        res.push((String::from_str("cache_status_dev_is_initialized"), r.status_dev_initialized));
        res.push((String::from_str("cache_status_prod_is_initialized"), r.status_prod_initialized));
        res.push((String::from_str("cache_strategies_dev_is_initialized"), r.strategies_dev_initialized));
        res.push((String::from_str("cache_strategies_prod_is_initialized"), r.strategies_prod_initialized));
        res.push((String::from_str("cache_subscribed_indicators_dev_is_initialized"), r.subscribed_indicators_dev_initialized));
        res.push((String::from_str("cache_subscribed_indicators_prod_is_initialized"), r.subscribed_indicators_prod_initialized));
        res.push((String::from_str("cache_tasks_dev_is_initialized"), r.tasks_dev_initialized));
        res.push((String::from_str("cache_tasks_prod_is_initialized"), r.tasks_prod_initialized));
        res.push((String::from_str("cache_ws_binance_abort_handle_is_finished"), is_finished));
        res.push((String::from_str("cache_ws_binance_abort_handle_is_some"), is_some));
        res.push((String::from_str("db_dev_conn_is_valid"), r.db_dev_reachable));
        res.push((String::from_str("db_prod_conn_is_valid"), r.db_prod_reachable));
        assert(core_texts(res@) =~= spec_core_health_entries(*r));
        res
    }
}

} // verus!
