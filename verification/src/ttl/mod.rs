//! Expire Deferred rows past their deadline and queue them into deletion under a budget.

pub mod sweep;
