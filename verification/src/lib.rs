//! View-model for a small trading-bot performance dashboard.
//!
//! The library holds the dashboard's state (one summary figure, a table of
//! per-latency results, and an optional selection) and its two transitions:
//! selecting a latency bucket and running the evaluation. Profit-and-loss
//! figures are kept as exact hundredths in integers; a presentation layer
//! turns them into decimal text for display.

pub mod dashboard;
