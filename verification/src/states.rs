use vstd::prelude::*;

verus! {

/// Where a cache (or the engine, or a runtime) is in its start/stop cycle.
#[derive(Debug, Clone, Copy, PartialEq, Eq, Structural)]
pub enum LifecycleState {
    Off,
    Starting,
    Running,
    Stopping,
}

/// Where a single strategy is in one evaluation: idle and free to run,
/// evaluating, placing an order, or recording the result.
#[derive(Debug, Clone, Copy, PartialEq, Eq, Structural)]
pub enum TradingState {
    Ready,
    Running,
    Trading,
    Saving,
}

/// The trading environments a runtime serves: paper trading and live trading.
#[derive(Debug, Clone, Copy, PartialEq, Eq, Structural)]
pub enum TradingEnvironment {
    DEV,
    PROD,
}

} // verus!
