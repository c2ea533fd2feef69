//! Core of a menu-bar usage monitor: a provider-independent usage model, a
//! coalescing refresh scheduler, a pure render coordinator, and config
//! reactivity, all with verified contracts. Platform toolkits consume the
//! view-model produced here; network and file I/O live outside this crate.

use vstd::prelude::*;

pub mod calendar;
mod clock;
pub mod config;
pub mod coordinator;
pub mod model;
pub mod parse;
pub mod provider;
pub mod render;
pub mod scheduler;
pub mod text;
pub mod time;

verus! {

/// Clamps a raw percentage reading to the `0..=100` range the model stores.
pub fn clamp_percent(raw: i64) -> (p: u32)
    ensures
        raw < 0 ==> p == 0,
        raw > 100 ==> p == 100,
        0 <= raw <= 100 ==> p == raw,
{
    if raw < 0 {
        0
    } else if raw > 100 {
        100
    } else {
        raw as u32
    }
}

} // verus!
