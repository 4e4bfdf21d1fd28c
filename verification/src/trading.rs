//! Trading execution: the dry-run simulator and the live coordinator.

pub mod dry_run;
pub mod live_trading;

use vstd::prelude::*;

verus! {

/// Summary of an execution run.
#[derive(Debug, Clone, Copy)]
pub struct ExecutionResults {
    /// Total trades executed.
    pub total_trades: u64,
    /// Total profit and loss, scaled, signed.
    pub total_pnl: i128,
}

} // verus!
