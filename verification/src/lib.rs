//! Hour-and-weather keyed selection of a looping audio resource: key
//! derivation, the throttled weather oracle, the resource index, the two-slot
//! prefetch cache and the hourly rollover timer.

pub mod cache;
pub mod clock;
pub mod index;
pub mod key;
pub mod scheduler;
pub mod session;
pub mod weather;
