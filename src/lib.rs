//! Recording from the default audio input device into a file: choosing the device,
//! fixing the stream configuration and the matching file header, feeding captured
//! samples to the encoder in order, and keeping at most one capture session alive.
use vstd::prelude::*;

pub mod config;
pub mod device;
pub mod error;
pub mod session;
pub mod sink;

verus! {

} // verus!
