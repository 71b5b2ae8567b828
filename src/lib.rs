use vstd::prelude::*;

pub mod bet;
pub mod binder;
pub mod error;
pub mod host;
pub mod outcome;
pub mod payout;
pub mod resolve;

verus! {

} // verus!
