//! Errors during creation of a key layout.
use vstd::prelude::*;
use vstd::string::StringExecFns;

verus! {

/// Errors during creation of a key layout.
#[derive(Debug, Clone, Copy, PartialEq, Eq, Structural)]
pub enum KeyLayoutError {
    /// The handshake with the Wayland compositor failed.
    WaylandError,
    /// The handshake with the X11 server failed.
    X11Error,
    /// The session type was absent or not recognised.
    SessionError,
    /// The platform is not supported.
    PlatformUnsupportedError,
}

/// The human-readable description of each error kind.
pub open spec fn error_message(e: KeyLayoutError) -> Seq<char> {
    match e {
        KeyLayoutError::WaylandError => "Error getting KeyLayout from Wayland compositor"@,
        KeyLayoutError::X11Error => "Error getting KeyLayout from X11 server"@,
        KeyLayoutError::SessionError => "Error getting XDG_SESSION_TYPE"@,
        KeyLayoutError::PlatformUnsupportedError => "Your platform is not supported"@,
    }
}

impl KeyLayoutError {
    /// Describes the error in words.
    pub fn message(&self) -> (r: String)
        ensures
            r@ == error_message(*self),
    {
        match self {
            KeyLayoutError::WaylandError => String::from_str(
                "Error getting KeyLayout from Wayland compositor",
            ),
            KeyLayoutError::X11Error => String::from_str("Error getting KeyLayout from X11 server"),
            KeyLayoutError::SessionError => String::from_str("Error getting XDG_SESSION_TYPE"),
            KeyLayoutError::PlatformUnsupportedError => String::from_str(
                "Your platform is not supported",
            ),
        }
    }
}

} // verus!
