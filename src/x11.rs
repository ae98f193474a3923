//! The decisions of the synchronous handshake with an X11 server.
//!
//! The server is asked to set up its keyboard extension, then for the id of
//! the core keyboard device, whose keymap is then compiled directly.
use vstd::prelude::*;
use crate::errors::KeyLayoutError;

verus! {

/// The device whose keymap to compile, given the extension setup's status
/// (zero for failure) and the reported core keyboard device id (negative for
/// failure).
pub open spec fn keyboard_device_of(setup_status: i32, device_id: i32) -> Result<
    i32,
    KeyLayoutError,
> {
    if setup_status == 0 || device_id < 0 {
        Err(KeyLayoutError::X11Error)
    } else {
        Ok(device_id)
    }
}

/// Decides which device's keymap to compile, or that the handshake failed.
pub fn keyboard_device(setup_status: i32, device_id: i32) -> (r: Result<i32, KeyLayoutError>)
    ensures
        r == keyboard_device_of(setup_status, device_id),
{
    if setup_status == 0 || device_id < 0 {
        Err(KeyLayoutError::X11Error)
    } else {
        Ok(device_id)
    }
}

} // verus!
