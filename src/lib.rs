use vstd::prelude::*;

pub mod time;
pub mod model;
pub mod gacha;
pub mod ranking;
pub mod auth;

verus! {

} // verus!
