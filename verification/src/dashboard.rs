//! The dashboard's state and its two transitions.
//!
//! `DashboardState` is the mutable record behind the window: bot B's final
//! profit-and-loss, bot A's results by latency bucket, and which bucket (if
//! any) the user has selected. Money is carried as hundredths of the display
//! unit in an `i64`, so every figure the dashboard ever shows is exact.
//!
//! `DashboardModel` is the mathematical view of that record; the spec
//! functions `select_latency_model` and `run_evaluation_model` say what the
//! two transitions do to it, and the public lemmas state the laws the
//! transitions obey.

use vstd::prelude::*;

verus! {

/// One row of bot A's results table: a latency bucket (in ticks) and the
/// profit-and-loss recorded for it, in hundredths of the display unit.
#[derive(Clone, Copy, Debug, PartialEq, Eq, Structural)]
pub struct LatencyEntry {
    pub latency_ticks: u32,
    pub pnl_hundredths: i64,
}

/// The dashboard's whole state: everything the window renders.
pub struct DashboardState {
    /// Bot B's final profit-and-loss, in hundredths of the display unit.
    pub bot_b_final_pnl_hundredths: i64,
    /// Bot A's results, one entry per latency bucket; insertion order is
    /// display order, and nothing forces the buckets to be distinct.
    pub bot_a_latency_results: Vec<LatencyEntry>,
    /// The latency bucket whose details panel is open, if any. Nothing
    /// requires the bucket to be present in the results table.
    pub selected_latency: Option<u32>,
}

/// The mathematical view of a `DashboardState`.
#[verifier::ext_equal]
pub struct DashboardModel {
    pub bot_b_final_pnl: int,
    pub bot_a_latency_results: Seq<LatencyEntry>,
    pub selected_latency: Option<u32>,
}

impl View for DashboardState {
    type V = DashboardModel;

    open spec fn view(&self) -> DashboardModel {
        DashboardModel {
            bot_b_final_pnl: self.bot_b_final_pnl_hundredths as int,
            bot_a_latency_results: self.bot_a_latency_results@,
            selected_latency: self.selected_latency,
        }
    }
}

/// The state the dashboard starts in: no profit recorded, no results, and
/// nothing selected.
pub open spec fn initial_model() -> DashboardModel {
    DashboardModel {
        bot_b_final_pnl: 0,
        bot_a_latency_results: Seq::empty(),
        selected_latency: None,
    }
}

/// What selecting a latency bucket does to the state: it records the bucket
/// and touches nothing else. No guard checks that the bucket is present in
/// the results table; an absent bucket is simply stored.
pub open spec fn select_latency_model(s: DashboardModel, bucket: u32) -> DashboardModel {
    DashboardModel { selected_latency: Some(bucket), ..s }
}

/// The one state the evaluation ever produces: bot B's fixed figure, the
/// fixed four-row results table for bot A, and nothing selected.
pub open spec fn evaluation_model() -> DashboardModel {
    DashboardModel {
        bot_b_final_pnl: 123456,
        bot_a_latency_results: seq![
            LatencyEntry { latency_ticks: 1, pnl_hundredths: 50000 },
            LatencyEntry { latency_ticks: 5, pnl_hundredths: 60000 },
            LatencyEntry { latency_ticks: 10, pnl_hundredths: 55000 },
            LatencyEntry { latency_ticks: 100, pnl_hundredths: 110000 },
        ],
        selected_latency: None,
    }
}

/// What running the evaluation does to the state: it replaces all of it with
/// `evaluation_model()`. The prior state plays no part in the result.
pub open spec fn run_evaluation_model(s: DashboardModel) -> DashboardModel {
    evaluation_model()
}

impl DashboardState {
    /// Creates the dashboard in its initial state.
    pub fn new() -> (s: Self)
        ensures
            s@ == initial_model(),
    {
        DashboardState {
            bot_b_final_pnl_hundredths: 0,
            bot_a_latency_results: Vec::new(),
            selected_latency: None,
        }
    }

    /// Opens the details panel for `bucket`, leaving the rest of the state
    /// untouched. The bucket need not occur in the results table.
    pub fn select_latency(&mut self, bucket: u32)
        ensures
            final(self)@ == select_latency_model(old(self)@, bucket),
    {
        self.selected_latency = Some(bucket);
    }

    /// Replaces the whole state with the evaluation's fixed outcome,
    /// closing any open details panel.
    pub fn run_evaluation(&mut self)
        ensures
            final(self)@ == run_evaluation_model(old(self)@),
    {
        self.bot_b_final_pnl_hundredths = 123456;
        let mut results: Vec<LatencyEntry> = Vec::new();
        results.push(LatencyEntry { latency_ticks: 1, pnl_hundredths: 50000 });
        results.push(LatencyEntry { latency_ticks: 5, pnl_hundredths: 60000 });
        results.push(LatencyEntry { latency_ticks: 10, pnl_hundredths: 55000 });
        results.push(LatencyEntry { latency_ticks: 100, pnl_hundredths: 110000 });
        self.bot_a_latency_results = results;
        self.selected_latency = None;
    }

    /// The title of the dashboard window.
    pub fn name(&self) -> (r: &'static str)
        ensures
            r@ == "Latency Wars Trading Bots Dashboard"@,
    {
        "Latency Wars Trading Bots Dashboard"
    }
}

impl Default for DashboardState {
    /// The default dashboard is the initial one.
    fn default() -> (s: Self)
        ensures
            s@ == initial_model(),
    {
        DashboardState::new()
    }
}

/// Selecting the same latency bucket twice in a row leaves the state exactly
/// as selecting it once does.
pub proof fn lemma_select_latency_idempotent(s: DashboardModel, bucket: u32)
    ensures
        select_latency_model(select_latency_model(s, bucket), bucket)
            == select_latency_model(s, bucket),
{
}

/// Running the evaluation is deterministic and stateless: from any two prior
/// states it yields one and the same state, `evaluation_model()`.
pub proof fn lemma_run_evaluation_deterministic(s1: DashboardModel, s2: DashboardModel)
    ensures
        run_evaluation_model(s1) == run_evaluation_model(s2),
        run_evaluation_model(s1) == evaluation_model(),
{
}

/// Running the evaluation always clears the selection, whatever was selected
/// before and whether or not that bucket occurs in the new results table.
pub proof fn lemma_run_evaluation_resets_selection(s: DashboardModel)
    ensures
        run_evaluation_model(s).selected_latency is None,
{
}

/// Running the evaluation again changes nothing: the outcome does not depend
/// on how often the evaluation has already run.
pub proof fn lemma_run_evaluation_idempotent(s: DashboardModel)
    ensures
        run_evaluation_model(run_evaluation_model(s)) == run_evaluation_model(s),
{
}

} // verus!
