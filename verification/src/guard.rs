use vstd::prelude::*;

use crate::entities::strategies::StrategyRequest;
use crate::states::{TradingEnvironment, TradingState};

verus! {

/// One write that a strategy's execution guard asks of the caches and the
/// database, for the guarded strategy in the guard's environment.
pub enum GuardCommand {
    /// Set the strategy's trading state in the cache.
    SetState(TradingState),
    /// Record (or clear) the strategy's last error message in the cache.
    SetError(Option<String>),
    /// Stamp the cached strategy with the time of an external error.
    MarkModelError,
    /// Stamp the cached strategy with the time of its last execution.
    MarkModelLastExecution,
    /// Store this version of the strategy in the database.
    Persist(StrategyRequest),
    /// Count one execution in the environment's metrics, successful or not.
    RecordMetrics(bool),
}

/// A command, and whether a failure of it ends the plan it belongs to
/// (otherwise the failure is ignored and the plan goes on).
pub struct GuardStep {
    pub command: GuardCommand,
    pub stops_on_failure: bool,
}

/// Tracks one evaluation of a strategy: it holds the strategy's state in the
/// cache for the length of the evaluation and reports how it ended.
pub struct StrategiesExecutionGuard {
    pub environment: TradingEnvironment,
    pub success: bool,
    pub model: StrategyRequest,
}

pub open spec fn halting(command: GuardCommand) -> GuardStep {
    GuardStep { command, stops_on_failure: true }
}

pub open spec fn tolerant(command: GuardCommand) -> GuardStep {
    GuardStep { command, stops_on_failure: false }
}

/// The plan of an internal error: record the message, then free the strategy.
pub open spec fn spec_err_plan(error: String) -> Seq<GuardStep> {
    seq![
        halting(GuardCommand::SetError(Some(error))),
        halting(GuardCommand::SetState(TradingState::Ready)),
    ]
}

/// The plan of an external error: record the message, stamp and store the
/// strategy, then free it.
pub open spec fn spec_ext_err_plan(error: String, stamped: StrategyRequest) -> Seq<GuardStep> {
    seq![
        halting(GuardCommand::SetError(Some(error))),
        halting(GuardCommand::MarkModelError),
        halting(GuardCommand::Persist(stamped)),
        halting(GuardCommand::SetState(TradingState::Ready)),
    ]
}

impl StrategiesExecutionGuard {
    /// Starts guarding `model`: the plan moves the strategy to `Running`;
    /// when that write fails the evaluation does not take place.
    pub fn new(environment: TradingEnvironment, model: StrategyRequest) -> (res: (
        Self,
        Vec<GuardStep>,
    ))
        ensures
            res.0.environment == environment,
            res.0.model == model,
            !res.0.success,
            res.1@ == seq![halting(GuardCommand::SetState(TradingState::Running))],
    {
        let mut plan: Vec<GuardStep> = Vec::new();
        plan.push(GuardStep { command: GuardCommand::SetState(TradingState::Running), stops_on_failure: true });
        (StrategiesExecutionGuard { environment, success: false, model }, plan)
    }

    /// Marks the evaluation as successful.
    pub fn ok(&mut self)
        ensures
            final(self).success,
            final(self).environment == old(self).environment,
            final(self).model == old(self).model,
    {
        self.success = true;
    }

    /// An internal error: the evaluation failed; record the message and
    /// free the strategy.
    pub fn err(&mut self, error: String) -> (plan: Vec<GuardStep>)
        ensures
            !final(self).success,
            final(self).environment == old(self).environment,
            final(self).model == old(self).model,
            plan@ == spec_err_plan(error),
    {
        self.success = false;
        let mut plan: Vec<GuardStep> = Vec::new();
        plan.push(GuardStep { command: GuardCommand::SetError(Some(error)), stops_on_failure: true });
        plan.push(GuardStep { command: GuardCommand::SetState(TradingState::Ready), stops_on_failure: true });
        plan
    }

    /// An error of the exchange or the network: stamp the strategy with the
    /// time of the error (which starts its error cooldown), record the
    /// message, store the stamped strategy and free it.
    pub fn ext_err(&mut self, error: String, now: i64) -> (plan: Vec<GuardStep>)
        ensures
            !final(self).success,
            final(self).environment == old(self).environment,
            final(self).model == (StrategyRequest { error_last_date: Some(now), ..old(self).model }),
            plan@ == spec_ext_err_plan(error, final(self).model),
    {
        self.success = false;
        self.model.error_last_date = Some(now);
        let mut plan: Vec<GuardStep> = Vec::new();
        plan.push(GuardStep { command: GuardCommand::SetError(Some(error)), stops_on_failure: true });
        plan.push(GuardStep { command: GuardCommand::MarkModelError, stops_on_failure: true });
        plan.push(GuardStep { command: GuardCommand::Persist(self.model.duplicate()), stops_on_failure: true });
        plan.push(GuardStep { command: GuardCommand::SetState(TradingState::Ready), stops_on_failure: true });
        plan
    }

    /// The evaluation is recording its order.
    pub fn saving(&self) -> (plan: Vec<GuardStep>)
        ensures
            plan@ == seq![halting(GuardCommand::SetState(TradingState::Saving))],
    {
        let mut plan: Vec<GuardStep> = Vec::new();
        plan.push(GuardStep { command: GuardCommand::SetState(TradingState::Saving), stops_on_failure: true });
        plan
    }

    /// The evaluation is placing its order.
    pub fn lock(&self) -> (plan: Vec<GuardStep>)
        ensures
            plan@ == seq![halting(GuardCommand::SetState(TradingState::Trading))],
    {
        let mut plan: Vec<GuardStep> = Vec::new();
        plan.push(GuardStep { command: GuardCommand::SetState(TradingState::Trading), stops_on_failure: true });
        plan
    }

    /// What happens when the guard is let go at time `now`: the execution is
    /// counted; after a success the strategy is stamped with `now` as its last
    /// execution, stored, and freed. When storing fails the strategy is not
    /// freed.
    pub fn release(&self, now: i64) -> (plan: Vec<GuardStep>)
        ensures
            plan@ == spec_release_plan(*self, now),
    {
        let mut plan: Vec<GuardStep> = Vec::new();
        plan.push(GuardStep { command: GuardCommand::RecordMetrics(self.success), stops_on_failure: false });
        if self.success {
            let mut stamped = self.model.duplicate();
            stamped.last_execution = Some(now);
            plan.push(GuardStep { command: GuardCommand::MarkModelLastExecution, stops_on_failure: false });
            plan.push(GuardStep { command: GuardCommand::Persist(stamped), stops_on_failure: true });
            plan.push(GuardStep { command: GuardCommand::SetState(TradingState::Ready), stops_on_failure: false });
        }
        plan
    }
}

pub open spec fn spec_release_plan(g: StrategiesExecutionGuard, now: i64) -> Seq<GuardStep> {
    if g.success {
        seq![
            tolerant(GuardCommand::RecordMetrics(true)),
            tolerant(GuardCommand::MarkModelLastExecution),
            halting(GuardCommand::Persist(StrategyRequest { last_execution: Some(now), ..g.model })),
            tolerant(GuardCommand::SetState(TradingState::Ready)),
        ]
    } else {
        seq![tolerant(GuardCommand::RecordMetrics(false))]
    }
}

/// Whichever way an evaluation ends (an internal error, an external error,
/// or a success), the last thing its plan asks is to free the strategy
/// (`Ready`), and nothing else in that plan changes its state.
pub proof fn lemma_every_ending_frees_the_strategy(
    g: StrategiesExecutionGuard,
    error: String,
    stamped: StrategyRequest,
    now: i64,
)
    requires
        g.success,
    ensures
        spec_err_plan(error).last().command == GuardCommand::SetState(TradingState::Ready),
        spec_ext_err_plan(error, stamped).last().command == GuardCommand::SetState(
            TradingState::Ready,
        ),
        spec_release_plan(g, now).last().command == GuardCommand::SetState(TradingState::Ready),
        forall|i: int|
            0 <= i < spec_ext_err_plan(error, stamped).len() - 1 ==> (
            #[trigger] spec_ext_err_plan(error, stamped)[i]).command !is SetState,
        forall|i: int|
            0 <= i < spec_release_plan(g, now).len() - 1 ==> (
            #[trigger] spec_release_plan(g, now)[i]).command !is SetState,
{
}

/// What each ending records: both error plans start by recording the error's
/// message; only the external one stamps the strategy and stores it (the
/// internal one stores nothing); a successful release first counts a success
/// and stores the strategy stamped with the release time as its last
/// execution.
pub proof fn lemma_plans_record_what_happened(g: StrategiesExecutionGuard, error: String, stamped: StrategyRequest, now: i64)
    ensures
        spec_err_plan(error)[0] == halting(GuardCommand::SetError(Some(error))),
        spec_ext_err_plan(error, stamped)[0] == halting(GuardCommand::SetError(Some(error))),
        forall|i: int| 0 <= i < spec_err_plan(error).len() ==> !((#[trigger] spec_err_plan(error)[i]).command is Persist)
            && !(spec_err_plan(error)[i].command is MarkModelError),
        spec_ext_err_plan(error, stamped).contains(halting(GuardCommand::MarkModelError)),
        spec_ext_err_plan(error, stamped).contains(halting(GuardCommand::Persist(stamped))),
        g.success ==> spec_release_plan(g, now)[0] == tolerant(GuardCommand::RecordMetrics(true))
            && spec_release_plan(g, now).contains(halting(GuardCommand::Persist(StrategyRequest { last_execution: Some(now), ..g.model }))),
{
    assert(spec_ext_err_plan(error, stamped)[1] == halting(GuardCommand::MarkModelError));
    assert(spec_ext_err_plan(error, stamped)[2] == halting(GuardCommand::Persist(stamped)));
    if g.success {
        assert(spec_release_plan(g, now)[2] == halting(GuardCommand::Persist(StrategyRequest { last_execution: Some(now), ..g.model })));
    }
}

/// A guard let go after a failure only counts the failed execution: the
/// strategy's state and record are left as the error plan set them.
pub proof fn lemma_failed_release_only_counts(g: StrategiesExecutionGuard, now: i64)
    requires
        !g.success,
    ensures
        spec_release_plan(g, now) == seq![tolerant(GuardCommand::RecordMetrics(false))],
{
}

/// A write to an environment's metrics that runs in the background, apart
/// from the evaluation that asked for it.
#[derive(Debug, Clone, Copy, PartialEq, Eq, Structural)]
pub enum MetricsWrite {
    /// Count one evaluation skipped because its strategy was busy.
    Skipped(TradingEnvironment),
}

/// Counts the market events a busy strategy lets pass.
pub struct LockSkipGuard;

impl LockSkipGuard {
    /// A strategy was busy when an event for it came: the environment's
    /// count of skipped evaluations goes up by one, in the background.
    pub fn hit(environment: TradingEnvironment) -> (res: MetricsWrite)
        ensures
            res == MetricsWrite::Skipped(environment),
    {
        MetricsWrite::Skipped(environment)
    }
}

} // verus!
