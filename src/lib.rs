//! Watching addresses on a public ledger: which queries to send to the block
//! explorer, how its answers become transactions, and the rules that turn
//! them into alerts and registry entries.
use vstd::prelude::*;

pub mod detector;
pub mod fetcher;
pub mod json;
pub mod monitor;
pub mod registry;
pub mod selector;

verus! {

} // verus!
