use vstd::prelude::*;

use crate::error::RecorderError;

verus! {

/// The device a session records from: the host's default if it has one, else the first
/// device it lists.
pub open spec fn chosen<D>(default: Option<D>, first: Option<D>) -> Result<D, RecorderError> {
    match default {
        Some(d) => Ok(d),
        None => match first {
            Some(d) => Ok(d),
            None => Err(RecorderError::NoDeviceFound),
        },
    }
}

/// Picks the input device to record from, given the host's default input device and the
/// first device of its list.
pub fn select_device<D>(default: Option<D>, first: Option<D>) -> (r: Result<D, RecorderError>)
    ensures
        r == chosen(default, first),
        r is Err <==> default is None && first is None,
{
    match default {
        Some(d) => Ok(d),
        None => match first {
            Some(d) => Ok(d),
            None => Err(RecorderError::NoDeviceFound),
        },
    }
}

} // verus!
