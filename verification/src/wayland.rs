//! The display-protocol precondition: the pipeline refuses to start unless
//! the session advertises a Wayland display.

use vstd::prelude::*;

use crate::error::Error;

verus! {

/// Checks the display precondition. `wayland_display` is the value of the
/// session's display variable, `None` when unset.
pub fn require_wayland(wayland_display: Option<&str>) -> (r: Result<(), Error>)
    ensures
        match r {
            Ok(_) => wayland_display is Some,
            Err(Error::NotWayland) => wayland_display is None,
            Err(_) => false,
        },
{
    match wayland_display {
        Some(_) => Ok(()),
        None => Err(Error::NotWayland),
    }
}

} // verus!
