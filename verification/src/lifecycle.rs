use vstd::prelude::*;

use crate::response::Response;
use crate::states::LifecycleState;

verus! {

/// How an outside step of a start or stop went.
pub enum CacheOutcome {
    Done,
    Failed(Response),
}

/// When a cache starts the background task that keeps it up to date.
#[derive(Debug, Clone, Copy, PartialEq, Eq, Structural)]
pub enum SpawnPoint {
    /// The cache has no background task.
    Never,
    /// Right after loading, before the cache is marked running; launching
    /// cannot fail.
    AfterLoad,
    /// After the loaded records are stored; attaching the task may fail.
    AfterStore,
}

/// How one cache starts. All caches follow the same protocol; they differ in
/// their background task and in how they react to a failure while storing.
#[derive(Debug, Clone, Copy, PartialEq, Eq, Structural)]
pub struct StartPolicy {
    pub spawn: SpawnPoint,
    /// Whether the cache is reset when storing the loaded records fails.
    pub resets_after_store_failure: bool,
    /// Whether a failing reset after a failed load is reported in place of
    /// the load's error (a failing reset after a failed store is ignored).
    pub load_reset_failure_wins: bool,
}

/// What starting a cache asks its caller to do next.
pub enum StartAction {
    SetState(LifecycleState),
    /// Read the records the cache holds (from the database or another cache).
    Load,
    /// Launch (or attach) the cache's background task.
    Spawn,
    /// Put the loaded records into the cache.
    Store,
    /// Reset the cache after a failure.
    Reset,
    /// The start is over, with this result.
    Finish(Result<(), Response>),
}

pub enum StartPhase {
    MarkingStarting,
    Loading,
    SpawningEarly,
    MarkingRunning,
    Storing,
    SpawningLate,
    ResettingAfterLoad(Response),
    ResettingAfterStore(Response),
    Finished(Result<(), Response>),
}

/// A start of a cache in progress.
pub struct CacheStart {
    pub phase: StartPhase,
    pub policy: StartPolicy,
}

pub open spec fn start_pending(s: CacheStart) -> StartAction {
    match s.phase {
        StartPhase::MarkingStarting => StartAction::SetState(LifecycleState::Starting),
        StartPhase::Loading => StartAction::Load,
        StartPhase::SpawningEarly => StartAction::Spawn,
        StartPhase::MarkingRunning => StartAction::SetState(LifecycleState::Running),
        StartPhase::Storing => StartAction::Store,
        StartPhase::SpawningLate => StartAction::Spawn,
        StartPhase::ResettingAfterLoad(_) => StartAction::Reset,
        StartPhase::ResettingAfterStore(_) => StartAction::Reset,
        StartPhase::Finished(res) => StartAction::Finish(res),
    }
}

pub open spec fn start_next(phase: StartPhase, policy: StartPolicy, o: CacheOutcome) -> StartPhase {
    match phase {
        StartPhase::MarkingStarting => match o {
            CacheOutcome::Done => StartPhase::Loading,
            CacheOutcome::Failed(r) => StartPhase::Finished(Err(r)),
        },
        StartPhase::Loading => match o {
            CacheOutcome::Done => if policy.spawn == SpawnPoint::AfterLoad {
                StartPhase::SpawningEarly
            } else {
                StartPhase::MarkingRunning
            },
            CacheOutcome::Failed(r) => StartPhase::ResettingAfterLoad(r),
        },
        StartPhase::SpawningEarly => StartPhase::MarkingRunning,
        StartPhase::MarkingRunning => match o {
            CacheOutcome::Done => StartPhase::Storing,
            CacheOutcome::Failed(r) => StartPhase::Finished(Err(r)),
        },
        StartPhase::Storing => match o {
            CacheOutcome::Done => if policy.spawn == SpawnPoint::AfterStore {
                StartPhase::SpawningLate
            } else {
                StartPhase::Finished(Ok(()))
            },
            CacheOutcome::Failed(r) => if policy.resets_after_store_failure {
                StartPhase::ResettingAfterStore(r)
            } else {
                StartPhase::Finished(Err(r))
            },
        },
        StartPhase::SpawningLate => match o {
            CacheOutcome::Done => StartPhase::Finished(Ok(())),
            CacheOutcome::Failed(r) => StartPhase::Finished(Err(r)),
        },
        StartPhase::ResettingAfterLoad(cause) => match o {
            CacheOutcome::Failed(r) => if policy.load_reset_failure_wins {
                StartPhase::Finished(Err(r))
            } else {
                StartPhase::Finished(Err(cause))
            },
            CacheOutcome::Done => StartPhase::Finished(Err(cause)),
        },
        StartPhase::ResettingAfterStore(cause) => StartPhase::Finished(Err(cause)),
        StartPhase::Finished(res) => StartPhase::Finished(res),
    }
}

pub open spec fn start_step(s: CacheStart, o: CacheOutcome) -> CacheStart {
    CacheStart { phase: start_next(s.phase, s.policy, o), policy: s.policy }
}

fn finish_action(res: &Result<(), Response>) -> (a: StartAction)
    ensures
        a == StartAction::Finish(*res),
{
    match res {
        Ok(u) => StartAction::Finish(Ok(*u)),
        Err(r) => StartAction::Finish(Err(r.duplicate())),
    }
}

impl CacheStart {
    /// A start under `policy`: the cache is first marked `Starting`.
    pub fn begin(policy: StartPolicy) -> (res: (CacheStart, StartAction))
        ensures
            res.0 == (CacheStart { phase: StartPhase::MarkingStarting, policy }),
            res.1 == start_pending(res.0),
    {
        (
            CacheStart { phase: StartPhase::MarkingStarting, policy },
            StartAction::SetState(LifecycleState::Starting),
        )
    }

    /// Reacts to the outcome of the pending action.
    pub fn step(self, o: CacheOutcome) -> (res: (CacheStart, StartAction))
        ensures
            res.0 == start_step(self, o),
            res.1 == start_pending(res.0),
    {
        let policy = self.policy;
        let phase = match self.phase {
            StartPhase::MarkingStarting => match o {
                CacheOutcome::Done => StartPhase::Loading,
                CacheOutcome::Failed(r) => StartPhase::Finished(Err(r)),
            },
            StartPhase::Loading => match o {
                CacheOutcome::Done => if policy.spawn == SpawnPoint::AfterLoad {
                    StartPhase::SpawningEarly
                } else {
                    StartPhase::MarkingRunning
                },
                CacheOutcome::Failed(r) => StartPhase::ResettingAfterLoad(r),
            },
            StartPhase::SpawningEarly => StartPhase::MarkingRunning,
            StartPhase::MarkingRunning => match o {
                CacheOutcome::Done => StartPhase::Storing,
                CacheOutcome::Failed(r) => StartPhase::Finished(Err(r)),
            },
            StartPhase::Storing => match o {
                CacheOutcome::Done => if policy.spawn == SpawnPoint::AfterStore {
                    StartPhase::SpawningLate
                } else {
                    StartPhase::Finished(Ok(()))
                },
                CacheOutcome::Failed(r) => if policy.resets_after_store_failure {
                    StartPhase::ResettingAfterStore(r)
                } else {
                    StartPhase::Finished(Err(r))
                },
            },
            StartPhase::SpawningLate => match o {
                CacheOutcome::Done => StartPhase::Finished(Ok(())),
                CacheOutcome::Failed(r) => StartPhase::Finished(Err(r)),
            },
            StartPhase::ResettingAfterLoad(cause) => match o {
                CacheOutcome::Failed(r) => if policy.load_reset_failure_wins {
                    StartPhase::Finished(Err(r))
                } else {
                    StartPhase::Finished(Err(cause))
                },
                CacheOutcome::Done => StartPhase::Finished(Err(cause)),
            },
            StartPhase::ResettingAfterStore(cause) => StartPhase::Finished(Err(cause)),
            StartPhase::Finished(res) => StartPhase::Finished(res),
        };
        let action = match &phase {
            StartPhase::MarkingStarting => StartAction::SetState(LifecycleState::Starting),
            StartPhase::Loading => StartAction::Load,
            StartPhase::SpawningEarly => StartAction::Spawn,
            StartPhase::MarkingRunning => StartAction::SetState(LifecycleState::Running),
            StartPhase::Storing => StartAction::Store,
            StartPhase::SpawningLate => StartAction::Spawn,
            StartPhase::ResettingAfterLoad(_) => StartAction::Reset,
            StartPhase::ResettingAfterStore(_) => StartAction::Reset,
            StartPhase::Finished(res) => finish_action(res),
        };
        (CacheStart { phase, policy }, action)
    }
}

/// The actions a start asks for, beginning with the pending one, while it
/// reacts to each of `outs`.
pub open spec fn start_trace(s: CacheStart, outs: Seq<CacheOutcome>) -> Seq<StartAction>
    decreases outs.len(),
{
    if outs.len() == 0 {
        seq![start_pending(s)]
    } else {
        seq![start_pending(s)] + start_trace(start_step(s, outs[0]), outs.drop_first())
    }
}

pub open spec fn all_done(outs: Seq<CacheOutcome>) -> bool {
    forall|i: int| 0 <= i < outs.len() ==> #[trigger] outs[i] is Done
}

/// The actions of a start in which every outside step succeeds.
pub open spec fn successful_start_trace(policy: StartPolicy) -> Seq<StartAction> {
    let head = seq![StartAction::SetState(LifecycleState::Starting), StartAction::Load];
    let early = if policy.spawn == SpawnPoint::AfterLoad {
        seq![StartAction::Spawn]
    } else {
        Seq::empty()
    };
    let late = if policy.spawn == SpawnPoint::AfterStore {
        seq![StartAction::Spawn]
    } else {
        Seq::empty()
    };
    head + early + seq![StartAction::SetState(LifecycleState::Running), StartAction::Store] + late
        + seq![StartAction::Finish(Ok(()))]
}

/// The number of outcomes a start needs before it is over.
pub open spec fn start_length(policy: StartPolicy) -> nat {
    if policy.spawn == SpawnPoint::Never {
        4
    } else {
        5
    }
}

/// A start in which every step succeeds marks the cache `Starting`, loads,
/// marks it `Running`, stores the records (launching the background task
/// where the cache has one) and reports success.
pub proof fn lemma_successful_start(policy: StartPolicy, outs: Seq<CacheOutcome>)
    requires
        outs.len() == start_length(policy),
        all_done(outs),
    ensures
        start_trace(CacheStart { phase: StartPhase::MarkingStarting, policy }, outs)
            =~= successful_start_trace(policy),
{
    reveal_with_fuel(start_trace, 6);
    assert(outs[0] is Done);
    assert(outs[1] is Done);
    assert(outs[2] is Done);
    assert(outs[3] is Done);
    if policy.spawn != SpawnPoint::Never {
        assert(outs[4] is Done);
    }
    assert(outs.drop_first().drop_first().drop_first().drop_first().len() == outs.len() - 4);
}

/// A failed load is always followed by a reset of the cache, and the start
/// then reports a failure: the load's error, or the reset's when the policy
/// says so.
pub proof fn lemma_failed_load_resets(policy: StartPolicy, r: Response, after: CacheOutcome)
    ensures
        start_next(StartPhase::Loading, policy, CacheOutcome::Failed(r))
            == StartPhase::ResettingAfterLoad(r),
        start_pending(CacheStart { phase: StartPhase::ResettingAfterLoad(r), policy })
            == StartAction::Reset,
        start_next(StartPhase::ResettingAfterLoad(r), policy, after) == StartPhase::Finished(
            match after {
                CacheOutcome::Failed(r2) => if policy.load_reset_failure_wins {
                    Err(r2)
                } else {
                    Err(r)
                },
                CacheOutcome::Done => Err(r),
            },
        ),
{
}

/// A failed store is reported with its own error; the cache is reset first
/// when the policy says so.
pub proof fn lemma_failed_store_reports(policy: StartPolicy, r: Response, after: CacheOutcome)
    ensures
        policy.resets_after_store_failure ==> start_next(
            StartPhase::Storing,
            policy,
            CacheOutcome::Failed(r),
        ) == StartPhase::ResettingAfterStore(r),
        !policy.resets_after_store_failure ==> start_next(
            StartPhase::Storing,
            policy,
            CacheOutcome::Failed(r),
        ) == StartPhase::Finished(Err::<(), Response>(r)),
        start_next(StartPhase::ResettingAfterStore(r), policy, after) == StartPhase::Finished(
            Err::<(), Response>(r),
        ),
{
}

/// A start reports success only when its last outside step succeeded after
/// the records were stored: success never follows a failure.
pub proof fn lemma_success_needs_storing(p: StartPhase, policy: StartPolicy, o: CacheOutcome)
    requires
        !(p is Finished),
        start_next(p, policy, o) == StartPhase::Finished(Ok(())),
    ensures
        p is Storing || p is SpawningLate,
        o is Done,
{
}

/// The in-memory caches the engine keeps per environment.
#[derive(Debug, Clone, Copy, PartialEq, Eq, Structural)]
pub enum CacheKind {
    Actions,
    Assets,
    Indicators,
    Integrations,
    IntegrationsSettings,
    Pairs,
    OrderStatus,
    Strategies,
    Tasks,
}

pub open spec fn spec_start_policy(kind: CacheKind) -> StartPolicy {
    match kind {
        CacheKind::Assets => StartPolicy {
            spawn: SpawnPoint::AfterStore,
            resets_after_store_failure: true,
            load_reset_failure_wins: false,
        },
        CacheKind::Strategies => StartPolicy {
            spawn: SpawnPoint::AfterStore,
            resets_after_store_failure: false,
            load_reset_failure_wins: false,
        },
        CacheKind::Indicators => StartPolicy {
            spawn: SpawnPoint::Never,
            resets_after_store_failure: false,
            load_reset_failure_wins: false,
        },
        CacheKind::Tasks => StartPolicy {
            spawn: SpawnPoint::AfterLoad,
            resets_after_store_failure: true,
            load_reset_failure_wins: false,
        },
        CacheKind::IntegrationsSettings => StartPolicy {
            spawn: SpawnPoint::Never,
            resets_after_store_failure: true,
            load_reset_failure_wins: true,
        },
        _ => StartPolicy {
            spawn: SpawnPoint::Never,
            resets_after_store_failure: true,
            load_reset_failure_wins: false,
        },
    }
}

/// How each cache starts: the asset cache attaches its balance keeper after
/// storing, the strategy cache launches its evaluation loop after storing,
/// the task cache launches its tasks right after loading; the strategy and
/// indicator caches do not reset when storing fails (their reset is never
/// carried out); the integration
/// settings cache reports a failing reset in place of a failed load.
pub fn start_policy(kind: CacheKind) -> (res: StartPolicy)
    ensures
        res == spec_start_policy(kind),
{
    match kind {
        CacheKind::Assets => StartPolicy {
            spawn: SpawnPoint::AfterStore,
            resets_after_store_failure: true,
            load_reset_failure_wins: false,
        },
        CacheKind::Strategies => StartPolicy {
            spawn: SpawnPoint::AfterStore,
            resets_after_store_failure: false,
            load_reset_failure_wins: false,
        },
        CacheKind::Indicators => StartPolicy {
            spawn: SpawnPoint::Never,
            resets_after_store_failure: false,
            load_reset_failure_wins: false,
        },
        CacheKind::Tasks => StartPolicy {
            spawn: SpawnPoint::AfterLoad,
            resets_after_store_failure: true,
            load_reset_failure_wins: false,
        },
        CacheKind::IntegrationsSettings => StartPolicy {
            spawn: SpawnPoint::Never,
            resets_after_store_failure: true,
            load_reset_failure_wins: true,
        },
        _ => StartPolicy {
            spawn: SpawnPoint::Never,
            resets_after_store_failure: true,
            load_reset_failure_wins: false,
        },
    }
}

/// The task cache is started only when it is not already running.
pub fn tasks_need_start(state: LifecycleState) -> (res: bool)
    ensures
        res == (state != LifecycleState::Running),
{
    state != LifecycleState::Running
}

/// The task cache.
pub struct Tasks;

impl Tasks {
    /// Starting the task cache: when it is already running nothing is done
    /// (no load, no task launched, its state and records unchanged) and the
    /// start succeeds at once (`None`); otherwise the start runs under the
    /// task cache's policy from its first step.
    pub fn start(state: LifecycleState) -> (res: Option<(CacheStart, StartAction)>)
        ensures
            state == LifecycleState::Running ==> res is None,
            state != LifecycleState::Running ==> res == Some((
                CacheStart { phase: StartPhase::MarkingStarting, policy: spec_start_policy(CacheKind::Tasks) },
                StartAction::SetState(LifecycleState::Starting),
            )),
    {
        if !tasks_need_start(state) {
            None
        } else {
            Some(CacheStart::begin(start_policy(CacheKind::Tasks)))
        }
    }
}

/// What the integration settings cache requires of the integrations cache
/// before it loads: the integrations must be cached and running. When they
/// are not cached the start fails at once; when they are not running the
/// settings cache is reset first (`true`), then the start fails.
pub fn settings_source_check(integrations: Option<LifecycleState>) -> (res: Result<(), (bool, Response)>)
    ensures
        integrations is None ==> (res matches Err((reset, r)) && !reset && r.code == 500
            && r.message@ == "Integrations cache not initialized"@),
        (integrations matches Some(st) && st != LifecycleState::Running) ==> (
        res matches Err((reset, r)) && reset && r.code == 500 && r.message@
            == "Integrations cache not running"@),
        integrations == Some(LifecycleState::Running) ==> res is Ok,
{
    match integrations {
        None => Err((false, Response::server_error(String::from_str("Integrations cache not initialized")))),
        Some(st) => {
            if st != LifecycleState::Running {
                Err((true, Response::server_error(String::from_str("Integrations cache not running"))))
            } else {
                Ok(())
            }
        },
    }
}

/// How a cache (or the engine) stops.
#[derive(Debug, Clone, Copy, PartialEq, Eq, Structural)]
pub struct StopPolicy {
    /// Whether the cached records are removed.
    pub clears_cache: bool,
    /// Whether a background task is cancelled.
    pub aborts_runtime: bool,
}

pub enum StopAction {
    SetState(LifecycleState),
    RemoveAll,
    Abort,
    Finish(Result<(), Response>),
}

pub enum StopPhase {
    MarkingStopping,
    Clearing,
    Aborting,
    MarkingOff,
    Finished(Result<(), Response>),
}

/// A stop in progress.
pub struct CacheStop {
    pub phase: StopPhase,
    pub policy: StopPolicy,
}

pub open spec fn stop_pending(s: CacheStop) -> StopAction {
    match s.phase {
        StopPhase::MarkingStopping => StopAction::SetState(LifecycleState::Stopping),
        StopPhase::Clearing => StopAction::RemoveAll,
        StopPhase::Aborting => StopAction::Abort,
        StopPhase::MarkingOff => StopAction::SetState(LifecycleState::Off),
        StopPhase::Finished(res) => StopAction::Finish(res),
    }
}

pub open spec fn stop_after_clearing(policy: StopPolicy) -> StopPhase {
    if policy.aborts_runtime {
        StopPhase::Aborting
    } else {
        StopPhase::MarkingOff
    }
}

pub open spec fn stop_next(phase: StopPhase, policy: StopPolicy, o: CacheOutcome) -> StopPhase {
    match phase {
        StopPhase::Finished(res) => StopPhase::Finished(res),
        _ => match o {
            CacheOutcome::Failed(r) => StopPhase::Finished(Err(r)),
            CacheOutcome::Done => match phase {
                StopPhase::MarkingStopping => if policy.clears_cache {
                    StopPhase::Clearing
                } else {
                    stop_after_clearing(policy)
                },
                StopPhase::Clearing => stop_after_clearing(policy),
                StopPhase::Aborting => StopPhase::MarkingOff,
                _ => StopPhase::Finished(Ok(())),
            },
        },
    }
}

pub open spec fn stop_step(s: CacheStop, o: CacheOutcome) -> CacheStop {
    CacheStop { phase: stop_next(s.phase, s.policy, o), policy: s.policy }
}

pub open spec fn spec_stop_policy(kind: CacheKind) -> StopPolicy {
    StopPolicy { clears_cache: true, aborts_runtime: kind == CacheKind::Assets }
}

/// How each cache starts and stops: the asset and strategy caches launch
/// their background loop once their records are stored, the task cache once
/// its tasks are loaded, and no other cache launches anything; only the
/// strategy cache keeps its records when storing them fails, and only the
/// integration settings cache reports a failing reset after a failed load in
/// place of the load's error. Every stop clears its cache, and only the asset
/// cache's stop cancels the runtime.
pub proof fn lemma_policies_by_cache(kind: CacheKind)
    ensures
        (spec_start_policy(kind).spawn == SpawnPoint::AfterStore) <==> (kind == CacheKind::Assets || kind
            == CacheKind::Strategies),
        (spec_start_policy(kind).spawn == SpawnPoint::AfterLoad) <==> kind == CacheKind::Tasks,
        !spec_start_policy(kind).resets_after_store_failure <==> (kind == CacheKind::Strategies || kind
            == CacheKind::Indicators),
        spec_start_policy(kind).load_reset_failure_wins <==> kind == CacheKind::IntegrationsSettings,
        spec_stop_policy(kind).clears_cache,
        spec_stop_policy(kind).aborts_runtime <==> kind == CacheKind::Assets,
{
}

/// How each cache stops: every cache removes its records; the asset cache
/// also cancels its balance keeper.
pub fn stop_policy(kind: CacheKind) -> (res: StopPolicy)
    ensures
        res == spec_stop_policy(kind),
{
    StopPolicy { clears_cache: true, aborts_runtime: kind == CacheKind::Assets }
}

/// How the engine stops: its cancellation token is cancelled; it holds no records.
pub fn engine_stop_policy() -> (res: StopPolicy)
    ensures
        res == (StopPolicy { clears_cache: false, aborts_runtime: true }),
{
    StopPolicy { clears_cache: false, aborts_runtime: true }
}

fn stop_finish_action(res: &Result<(), Response>) -> (a: StopAction)
    ensures
        a == StopAction::Finish(*res),
{
    match res {
        Ok(u) => StopAction::Finish(Ok(*u)),
        Err(r) => StopAction::Finish(Err(r.duplicate())),
    }
}

impl CacheStop {
    /// A stop under `policy`: the cache is first marked `Stopping`.
    pub fn begin(policy: StopPolicy) -> (res: (CacheStop, StopAction))
        ensures
            res.0 == (CacheStop { phase: StopPhase::MarkingStopping, policy }),
            res.1 == stop_pending(res.0),
    {
        (
            CacheStop { phase: StopPhase::MarkingStopping, policy },
            StopAction::SetState(LifecycleState::Stopping),
        )
    }

    /// Reacts to the outcome of the pending action.
    pub fn step(self, o: CacheOutcome) -> (res: (CacheStop, StopAction))
        ensures
            res.0 == stop_step(self, o),
            res.1 == stop_pending(res.0),
    {
        let policy = self.policy;
        let phase = match self.phase {
            StopPhase::Finished(res) => StopPhase::Finished(res),
            current => match o {
                CacheOutcome::Failed(r) => StopPhase::Finished(Err(r)),
                CacheOutcome::Done => match current {
                    StopPhase::MarkingStopping => if policy.clears_cache {
                        StopPhase::Clearing
                    } else if policy.aborts_runtime {
                        StopPhase::Aborting
                    } else {
                        StopPhase::MarkingOff
                    },
                    StopPhase::Clearing => if policy.aborts_runtime {
                        StopPhase::Aborting
                    } else {
                        StopPhase::MarkingOff
                    },
                    StopPhase::Aborting => StopPhase::MarkingOff,
                    _ => StopPhase::Finished(Ok(())),
                },
            },
        };
        let action = match &phase {
            StopPhase::MarkingStopping => StopAction::SetState(LifecycleState::Stopping),
            StopPhase::Clearing => StopAction::RemoveAll,
            StopPhase::Aborting => StopAction::Abort,
            StopPhase::MarkingOff => StopAction::SetState(LifecycleState::Off),
            StopPhase::Finished(res) => stop_finish_action(res),
        };
        (CacheStop { phase, policy }, action)
    }
}

pub open spec fn stop_trace(s: CacheStop, outs: Seq<CacheOutcome>) -> Seq<StopAction>
    decreases outs.len(),
{
    if outs.len() == 0 {
        seq![stop_pending(s)]
    } else {
        seq![stop_pending(s)] + stop_trace(stop_step(s, outs[0]), outs.drop_first())
    }
}

pub open spec fn successful_stop_trace(policy: StopPolicy) -> Seq<StopAction> {
    let clear = if policy.clears_cache {
        seq![StopAction::RemoveAll]
    } else {
        Seq::empty()
    };
    let abort = if policy.aborts_runtime {
        seq![StopAction::Abort]
    } else {
        Seq::empty()
    };
    seq![StopAction::SetState(LifecycleState::Stopping)] + clear + abort + seq![
        StopAction::SetState(LifecycleState::Off),
        StopAction::Finish(Ok(())),
    ]
}

pub open spec fn stop_length(policy: StopPolicy) -> nat {
    2 + (if policy.clears_cache { 1nat } else { 0nat }) + (if policy.aborts_runtime {
        1nat
    } else {
        0nat
    })
}

/// A stop in which every step succeeds marks the cache `Stopping`, removes
/// its records, cancels its task (where it has one), marks it `Off` and
/// reports success.
pub proof fn lemma_successful_stop(policy: StopPolicy, outs: Seq<CacheOutcome>)
    requires
        outs.len() == stop_length(policy),
        all_done(outs),
    ensures
        stop_trace(CacheStop { phase: StopPhase::MarkingStopping, policy }, outs)
            =~= successful_stop_trace(policy),
{
    reveal_with_fuel(stop_trace, 5);
    assert(outs[0] is Done);
    assert(outs[1] is Done);
    if outs.len() > 2 {
        assert(outs[2] is Done);
    }
    if outs.len() > 3 {
        assert(outs[3] is Done);
    }
}

/// A stop marks the cache `Off` only after every earlier step succeeded, and
/// reports the first failure unchanged.
pub proof fn lemma_stop_off_needs_success(p: StopPhase, policy: StopPolicy, o: CacheOutcome)
    requires
        !(p is Finished),
    ensures
        stop_next(p, policy, o) is MarkingOff ==> o is Done,
        o matches CacheOutcome::Failed(r) ==> stop_next(p, policy, o) == StopPhase::Finished(
            Err::<(), Response>(r),
        ),
{
}

} // verus!
