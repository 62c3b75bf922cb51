use vstd::prelude::*;

use crate::binance::{spec_order_endpoint, Binance, OrderEndpoint};
use crate::states::TradingEnvironment;

verus! {

/// What the evaluation of a strategy asks its caller to do next.
pub enum RunAction {
    /// Create the execution guard (its plan moves the strategy to `Running`).
    Acquire,
    /// Evaluate the strategy's overview into an order.
    Evaluate,
    /// Run the guard's `lock` plan (the strategy is `Trading`).
    Lock,
    /// Look up the exchange credentials.
    ResolveCredentials,
    /// Send the evaluated order, for this symbol (the overview ticker's), to
    /// the exchange at this endpoint.
    PostOrder(OrderEndpoint, String),
    /// Run the guard's `saving` plan; its result does not matter.
    MarkSaving,
    /// Store the order.
    StoreOrder,
    /// Announce the stored order to the balance keeper; the result does not matter.
    PublishOrder,
    /// Run the guard's `err` plan with this message.
    ReportError(String),
    /// Run the guard's `ext_err` plan with this message.
    ReportExternalError(String),
    /// Mark the guard successful.
    Complete,
    /// Let the guard go (run its `release` plan).
    Release,
    /// Nothing is left to do.
    Finish,
}

/// How the last action went.
pub enum StepOutcome {
    Done,
    Failed(String),
}

/// Where one evaluation stands: each phase waits for the outcome of one action.
pub enum RunPhase {
    Acquiring,
    Evaluating,
    Locking,
    Resolving,
    Posting,
    MarkingSaving,
    Storing,
    Publishing,
    ReportingError(String),
    ReportingExternal(String),
    Completing,
    Releasing,
    Finished,
}

/// One evaluation of a strategy, reacting to each market event for it.
pub struct StrategyRun {
    pub phase: RunPhase,
    pub can_trade: bool,
    pub environment: TradingEnvironment,
    /// The symbol of the ticker the evaluation reacts to.
    pub symbol: String,
}

/// The action a run in this phase waits on.
pub open spec fn pending(r: StrategyRun) -> RunAction {
    match r.phase {
        RunPhase::Acquiring => RunAction::Acquire,
        RunPhase::Evaluating => RunAction::Evaluate,
        RunPhase::Locking => RunAction::Lock,
        RunPhase::Resolving => RunAction::ResolveCredentials,
        RunPhase::Posting => RunAction::PostOrder(spec_order_endpoint(r.environment), r.symbol),
        RunPhase::MarkingSaving => RunAction::MarkSaving,
        RunPhase::Storing => RunAction::StoreOrder,
        RunPhase::Publishing => RunAction::PublishOrder,
        RunPhase::ReportingError(e) => RunAction::ReportError(e),
        RunPhase::ReportingExternal(e) => RunAction::ReportExternalError(e),
        RunPhase::Completing => RunAction::Complete,
        RunPhase::Releasing => RunAction::Release,
        RunPhase::Finished => RunAction::Finish,
    }
}

/// The phase that follows `phase` once its action ended with `outcome`.
pub open spec fn next_phase(phase: RunPhase, can_trade: bool, outcome: StepOutcome) -> RunPhase {
    match phase {
        RunPhase::Acquiring => match outcome {
            StepOutcome::Done => RunPhase::Evaluating,
            StepOutcome::Failed(_) => RunPhase::Finished,
        },
        RunPhase::Evaluating => match outcome {
            StepOutcome::Done => RunPhase::Locking,
            StepOutcome::Failed(e) => RunPhase::ReportingError(e),
        },
        RunPhase::Locking => match outcome {
            StepOutcome::Done => if can_trade {
                RunPhase::Resolving
            } else {
                RunPhase::MarkingSaving
            },
            StepOutcome::Failed(e) => RunPhase::ReportingError(e),
        },
        RunPhase::Resolving => match outcome {
            StepOutcome::Done => RunPhase::Posting,
            StepOutcome::Failed(e) => RunPhase::ReportingExternal(e),
        },
        RunPhase::Posting => match outcome {
            StepOutcome::Done => RunPhase::MarkingSaving,
            StepOutcome::Failed(e) => RunPhase::ReportingExternal(e),
        },
        RunPhase::MarkingSaving => RunPhase::Storing,
        RunPhase::Storing => match outcome {
            StepOutcome::Done => RunPhase::Publishing,
            StepOutcome::Failed(e) => RunPhase::ReportingError(e),
        },
        RunPhase::Publishing => RunPhase::Completing,
        RunPhase::ReportingError(_) => RunPhase::Releasing,
        RunPhase::ReportingExternal(_) => RunPhase::Releasing,
        RunPhase::Completing => RunPhase::Releasing,
        RunPhase::Releasing => RunPhase::Finished,
        RunPhase::Finished => RunPhase::Finished,
    }
}

pub open spec fn spec_step(r: StrategyRun, outcome: StepOutcome) -> StrategyRun {
    StrategyRun { phase: next_phase(r.phase, r.can_trade, outcome), ..r }
}

pub open spec fn spec_start(can_trade: bool, environment: TradingEnvironment, symbol: String) -> StrategyRun {
    StrategyRun { phase: RunPhase::Acquiring, can_trade, environment, symbol }
}

impl StrategyRun {
    /// A new evaluation of a strategy (that may or may not trade) in an
    /// environment; its first action acquires the guard.
    pub fn start(can_trade: bool, environment: TradingEnvironment, symbol: String) -> (res: (
        StrategyRun,
        RunAction,
    ))
        ensures
            res.0 == spec_start(can_trade, environment, symbol),
            res.1 == pending(res.0),
    {
        (StrategyRun { phase: RunPhase::Acquiring, can_trade, environment, symbol }, RunAction::Acquire)
    }

    /// Reacts to the outcome of the pending action.
    pub fn step(self, outcome: StepOutcome) -> (res: (StrategyRun, RunAction))
        ensures
            res.0 == spec_step(self, outcome),
            res.1 == pending(res.0),
    {
        let StrategyRun { phase: current, can_trade, environment, symbol } = self;
        let phase = match current {
            RunPhase::Acquiring => match outcome {
                StepOutcome::Done => RunPhase::Evaluating,
                StepOutcome::Failed(_) => RunPhase::Finished,
            },
            RunPhase::Evaluating => match outcome {
                StepOutcome::Done => RunPhase::Locking,
                StepOutcome::Failed(e) => RunPhase::ReportingError(e),
            },
            RunPhase::Locking => match outcome {
                StepOutcome::Done => if can_trade {
                    RunPhase::Resolving
                } else {
                    RunPhase::MarkingSaving
                },
                StepOutcome::Failed(e) => RunPhase::ReportingError(e),
            },
            RunPhase::Resolving => match outcome {
                StepOutcome::Done => RunPhase::Posting,
                StepOutcome::Failed(e) => RunPhase::ReportingExternal(e),
            },
            RunPhase::Posting => match outcome {
                StepOutcome::Done => RunPhase::MarkingSaving,
                StepOutcome::Failed(e) => RunPhase::ReportingExternal(e),
            },
            RunPhase::MarkingSaving => RunPhase::Storing,
            RunPhase::Storing => match outcome {
                StepOutcome::Done => RunPhase::Publishing,
                StepOutcome::Failed(e) => RunPhase::ReportingError(e),
            },
            RunPhase::Publishing => RunPhase::Completing,
            RunPhase::ReportingError(_) => RunPhase::Releasing,
            RunPhase::ReportingExternal(_) => RunPhase::Releasing,
            RunPhase::Completing => RunPhase::Releasing,
            RunPhase::Releasing => RunPhase::Finished,
            RunPhase::Finished => RunPhase::Finished,
        };
        let action = match &phase {
            RunPhase::Acquiring => RunAction::Acquire,
            RunPhase::Evaluating => RunAction::Evaluate,
            RunPhase::Locking => RunAction::Lock,
            RunPhase::Resolving => RunAction::ResolveCredentials,
            RunPhase::Posting => RunAction::PostOrder(Binance::order_endpoint(environment), symbol.clone()),
            RunPhase::MarkingSaving => RunAction::MarkSaving,
            RunPhase::Storing => RunAction::StoreOrder,
            RunPhase::Publishing => RunAction::PublishOrder,
            RunPhase::ReportingError(e) => RunAction::ReportError(e.clone()),
            RunPhase::ReportingExternal(e) => RunAction::ReportExternalError(e.clone()),
            RunPhase::Completing => RunAction::Complete,
            RunPhase::Releasing => RunAction::Release,
            RunPhase::Finished => RunAction::Finish,
        };
        (StrategyRun { phase, can_trade, environment, symbol }, action)
    }
}

} // verus!

verus! {

/// How many more steps a run in this phase takes at most before it finishes.
pub open spec fn rank(p: RunPhase) -> nat {
    match p {
        RunPhase::Acquiring => 10,
        RunPhase::Evaluating => 9,
        RunPhase::Locking => 8,
        RunPhase::Resolving => 7,
        RunPhase::Posting => 6,
        RunPhase::MarkingSaving => 5,
        RunPhase::Storing => 4,
        RunPhase::Publishing => 3,
        RunPhase::ReportingError(_) => 2,
        RunPhase::ReportingExternal(_) => 2,
        RunPhase::Completing => 2,
        RunPhase::Releasing => 1,
        RunPhase::Finished => 0,
    }
}

/// The run after it has reacted to each of `outs` in turn.
pub open spec fn run_after(r: StrategyRun, outs: Seq<StepOutcome>) -> StrategyRun
    decreases outs.len(),
{
    if outs.len() == 0 {
        r
    } else {
        run_after(spec_step(r, outs[0]), outs.drop_first())
    }
}

/// How many of the actions the run asks for while reacting to `outs` satisfy `pred`.
pub open spec fn count_where(
    r: StrategyRun,
    outs: Seq<StepOutcome>,
    pred: spec_fn(RunAction) -> bool,
) -> nat
    decreases outs.len(),
{
    if outs.len() == 0 {
        0
    } else {
        let r2 = spec_step(r, outs[0]);
        (if pred(pending(r2)) { 1nat } else { 0nat }) + count_where(r2, outs.drop_first(), pred)
    }
}

pub open spec fn is_release(a: RunAction) -> bool {
    a is Release
}

pub open spec fn is_conclusion(a: RunAction) -> bool {
    a is Complete || a is ReportError || a is ReportExternalError
}

pub open spec fn is_exchange_call(a: RunAction) -> bool {
    a is ResolveCredentials || a is PostOrder
}

/// Phases in which the guard is held and still has to be let go.
pub open spec fn holds_guard(p: RunPhase) -> bool {
    !(p is Acquiring || p is Releasing || p is Finished)
}

/// Phases in which the evaluation has not yet completed or reported an error.
pub open spec fn unconcluded(p: RunPhase) -> bool {
    p is Evaluating || p is Locking || p is Resolving || p is Posting || p is MarkingSaving
        || p is Storing || p is Publishing
}

/// Every evaluation finishes: once it has reacted to `rank` outcomes
/// (at most ten from the start) it asks for nothing more.
pub proof fn lemma_run_finishes(r: StrategyRun, outs: Seq<StepOutcome>)
    requires
        outs.len() >= rank(r.phase),
    ensures
        run_after(r, outs).phase is Finished,
    decreases outs.len(),
{
    if outs.len() > 0 {
        lemma_run_finishes(spec_step(r, outs[0]), outs.drop_first());
    }
}

/// A held guard is let go exactly once before the run finishes.
pub proof fn lemma_guard_released_once(r: StrategyRun, outs: Seq<StepOutcome>)
    requires
        outs.len() >= rank(r.phase),
        !(r.phase is Acquiring),
    ensures
        count_where(r, outs, |a: RunAction| is_release(a)) == (if holds_guard(r.phase) { 1nat } else { 0nat }),
    decreases outs.len(),
{
    if outs.len() > 0 {
        lemma_guard_released_once(spec_step(r, outs[0]), outs.drop_first());
    }
}

/// An evaluation whose guard was acquired lets it go exactly once; one whose
/// guard could not be acquired does nothing more.
pub proof fn lemma_release_after_acquire(
    can_trade: bool,
    environment: TradingEnvironment,
    symbol: String,
    outs: Seq<StepOutcome>,
)
    requires
        outs.len() >= 10,
    ensures
        count_where(spec_start(can_trade, environment, symbol), outs, |a: RunAction| is_release(a)) == (
        if outs[0] is Done {
            1nat
        } else {
            0nat
        }),
        outs[0] is Failed ==> count_where(
            spec_start(can_trade, environment, symbol),
            outs,
            |a: RunAction| !(a is Finish),
        ) == 0,
{
    let r = spec_start(can_trade, environment, symbol);
    let r2 = spec_step(r, outs[0]);
    lemma_guard_released_once(r2, outs.drop_first());
    if outs[0] is Failed {
        lemma_finished_stays(r2, outs.drop_first());
    }
}

/// A run posts its order only for the symbol it was started on, at the
/// endpoint of its environment: every step keeps the run's symbol, and a
/// post names it.
pub proof fn lemma_posts_its_symbol(r: StrategyRun, outcome: StepOutcome)
    ensures
        spec_step(r, outcome).symbol == r.symbol,
        spec_step(r, outcome).environment == r.environment,
        pending(r) matches RunAction::PostOrder(e, s) ==> s == r.symbol && e == spec_order_endpoint(r.environment),
{
}

/// A finished run only ever answers `Finish`.
pub proof fn lemma_finished_stays(r: StrategyRun, outs: Seq<StepOutcome>)
    requires
        r.phase is Finished,
    ensures
        count_where(r, outs, |a: RunAction| !(a is Finish)) == 0,
        run_after(r, outs).phase is Finished,
    decreases outs.len(),
{
    if outs.len() > 0 {
        lemma_finished_stays(spec_step(r, outs[0]), outs.drop_first());
    }
}

/// Every evaluation that got its guard ends in exactly one way: it completes,
/// or it reports an internal error, or it reports an external error.
pub proof fn lemma_single_conclusion(r: StrategyRun, outs: Seq<StepOutcome>)
    requires
        outs.len() >= rank(r.phase),
        !(r.phase is Acquiring),
    ensures
        count_where(r, outs, |a: RunAction| is_conclusion(a)) == (if unconcluded(r.phase) {
            1nat
        } else {
            0nat
        }),
    decreases outs.len(),
{
    if outs.len() > 0 {
        lemma_single_conclusion(spec_step(r, outs[0]), outs.drop_first());
    }
}

/// A strategy that may not trade never reaches the exchange: no credentials
/// are looked up and no order is sent.
pub proof fn lemma_no_exchange_without_permission(r: StrategyRun, outs: Seq<StepOutcome>)
    requires
        !r.can_trade,
        !(r.phase is Resolving || r.phase is Posting),
    ensures
        count_where(r, outs, |a: RunAction| is_exchange_call(a)) == 0,
    decreases outs.len(),
{
    if outs.len() > 0 {
        lemma_no_exchange_without_permission(spec_step(r, outs[0]), outs.drop_first());
    }
}

/// A failure is reported by where it happened: a failed exchange call (the
/// credentials lookup or the order post) is reported as an external error
/// with its message, and a failed evaluation, lock or order store as an
/// internal error with its message. A failed guard acquisition reports
/// nothing and ends the run.
pub proof fn lemma_failures_reported_by_origin(r: StrategyRun, e: String)
    ensures
        is_exchange_call(pending(r)) ==> pending(spec_step(r, StepOutcome::Failed(e)))
            == RunAction::ReportExternalError(e),
        (r.phase is Evaluating || r.phase is Locking || r.phase is Storing) ==> pending(
            spec_step(r, StepOutcome::Failed(e)),
        ) == RunAction::ReportError(e),
        r.phase is Acquiring ==> pending(spec_step(r, StepOutcome::Failed(e))) == RunAction::Finish,
{
}

/// The successful path of an evaluation: each step that succeeds leads to the
/// next action, a trading strategy going through the exchange (credentials,
/// then the post for its symbol at its environment's endpoint) and a
/// non-trading one going straight to saving.
pub proof fn lemma_successful_path(r: StrategyRun)
    ensures
        r.phase is Acquiring ==> pending(spec_step(r, StepOutcome::Done)) == RunAction::Evaluate,
        r.phase is Evaluating ==> pending(spec_step(r, StepOutcome::Done)) == RunAction::Lock,
        r.phase is Locking && r.can_trade ==> pending(spec_step(r, StepOutcome::Done))
            == RunAction::ResolveCredentials,
        r.phase is Locking && !r.can_trade ==> pending(spec_step(r, StepOutcome::Done))
            == RunAction::MarkSaving,
        r.phase is Resolving ==> pending(spec_step(r, StepOutcome::Done)) == RunAction::PostOrder(
            spec_order_endpoint(r.environment),
            r.symbol,
        ),
        r.phase is Posting ==> pending(spec_step(r, StepOutcome::Done)) == RunAction::MarkSaving,
        r.phase is Storing ==> pending(spec_step(r, StepOutcome::Done)) == RunAction::PublishOrder,
{
}

/// An evaluation completes only after its order was stored and announced.
pub proof fn lemma_completion_needs_stored_order(r: StrategyRun, outcome: StepOutcome)
    ensures
        spec_step(r, outcome).phase is Completing ==> r.phase is Publishing,
        spec_step(r, outcome).phase is Publishing ==> (r.phase is Storing && outcome is Done),
{
}

} // verus!
