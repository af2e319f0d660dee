//! Monitor enumeration over the one canvas surface.
//!
//! Exactly one monitor always exists: the canvas itself.  It has a fixed
//! name and no further identity; its physical dimensions are outside this
//! backend's capabilities.

use vstd::prelude::*;
use vstd::string::StringExecFns;
use crate::window::UnsupportedOperation;

verus! {

/// The stateless marker for the one canvas surface.
#[derive(Clone, Copy, PartialEq, Eq, Structural, Debug)]
pub struct MonitorID;

/// All monitors of this platform: always exactly the one canvas.
pub fn get_available_monitors() -> (r: Vec<MonitorID>)
    ensures
        r@.len() == 1,
{
    let mut monitors: Vec<MonitorID> = Vec::new();
    monitors.push(MonitorID);
    monitors
}

/// The primary monitor: the one canvas.
pub fn get_primary_monitor() -> (r: MonitorID) {
    MonitorID
}

impl MonitorID {
    /// The fixed name of the one canvas surface.
    pub fn get_name(&self) -> (r: Option<String>)
        ensures
            r matches Some(name) && name@ == "Canvas"@,
    {
        Some(String::from_str("Canvas"))
    }

    /// Monitor dimensions are outside this backend's capabilities; the
    /// distinct unsupported-operation signal comes back instead of a size.
    pub fn get_dimensions(&self) -> (r: Result<(u32, u32), UnsupportedOperation>)
        ensures
            r is Err,
    {
        Err(UnsupportedOperation)
    }
}

} // verus!
