//! Choosing the display protocol that a key layout is negotiated with.
use vstd::prelude::*;
use crate::errors::KeyLayoutError;
use crate::text::text_equals;

verus! {

/// The operating system family that the library runs on.
#[derive(Debug, Clone, Copy, PartialEq, Eq, Structural)]
pub enum Platform {
    /// A Unix desktop, with a Wayland or an X11 session.
    Unix,
    /// Windows, whose own key name functions need no negotiation.
    Windows,
    /// Any other system: no key layout can be had.
    Unsupported,
}

/// The session type named by the session-type signal.
#[derive(Debug, Clone, Copy, PartialEq, Eq, Structural)]
pub enum SessionType {
    /// A Wayland compositor session.
    Wayland,
    /// An X11 server session.
    X11,
    /// No session type that a key layout can be taken from.
    Unsupported,
}

/// The source that a key layout is taken from.
#[derive(Debug, Clone, Copy, PartialEq, Eq, Structural)]
pub enum Backend {
    /// The asynchronous handshake with a Wayland compositor.
    Wayland,
    /// The synchronous handshake with an X11 server.
    X11,
    /// The Windows key name functions.
    Windows,
}

/// Whether the autodetecting constructor follows an `"x11"` session signal to
/// the X11 handshake. It does not: such a session is reported as a
/// `SessionError`, and the X11 handshake is reached by asking for it.
pub const X11_FROM_SESSION: bool = false;

/// The session type that a signal value names; an absent signal names none.
pub open spec fn session_type_of(signal: Option<Seq<char>>) -> SessionType {
    match signal {
        Some(s) => if s == "wayland"@ {
            SessionType::Wayland
        } else if s == "x11"@ {
            SessionType::X11
        } else {
            SessionType::Unsupported
        },
        None => SessionType::Unsupported,
    }
}

/// The view of an optional signal value.
pub open spec fn signal_view(signal: Option<&str>) -> Option<Seq<char>> {
    match signal {
        Some(s) => Some(s@),
        None => None,
    }
}

/// Reads the session type from the session-type signal.
pub fn session_type(signal: Option<&str>) -> (r: SessionType)
    ensures
        r == session_type_of(signal_view(signal)),
{
    match signal {
        Some(s) => {
            if text_equals(s, "wayland") {
                SessionType::Wayland
            } else if text_equals(s, "x11") {
                SessionType::X11
            } else {
                SessionType::Unsupported
            }
        },
        None => SessionType::Unsupported,
    }
}

/// The backend that the autodetecting constructor uses.
pub open spec fn autodetect_backend(
    platform: Platform,
    session: SessionType,
    x11_from_session: bool,
) -> Result<Backend, KeyLayoutError> {
    match platform {
        Platform::Unsupported => Err(KeyLayoutError::PlatformUnsupportedError),
        Platform::Windows => Ok(Backend::Windows),
        Platform::Unix => match session {
            SessionType::Wayland => Ok(Backend::Wayland),
            SessionType::X11 => if x11_from_session {
                Ok(Backend::X11)
            } else {
                Err(KeyLayoutError::SessionError)
            },
            SessionType::Unsupported => Err(KeyLayoutError::SessionError),
        },
    }
}

/// The backend that a constructor handed an existing window uses: the
/// window's connection tells the protocol, no signal is read.
pub open spec fn window_backend(platform: Platform, x11_connection: bool) -> Result<
    Backend,
    KeyLayoutError,
> {
    match platform {
        Platform::Unsupported => Err(KeyLayoutError::PlatformUnsupportedError),
        Platform::Windows => Ok(Backend::Windows),
        Platform::Unix => if x11_connection {
            Ok(Backend::X11)
        } else {
            Ok(Backend::Wayland)
        },
    }
}

/// Chooses the backend from the session-type signal.
pub fn backend_for_session(platform: Platform, signal: Option<&str>, x11_from_session: bool) -> (r:
    Result<Backend, KeyLayoutError>)
    ensures
        r == autodetect_backend(platform, session_type_of(signal_view(signal)), x11_from_session),
{
    match platform {
        Platform::Unsupported => Err(KeyLayoutError::PlatformUnsupportedError),
        Platform::Windows => Ok(Backend::Windows),
        Platform::Unix => match session_type(signal) {
            SessionType::Wayland => Ok(Backend::Wayland),
            SessionType::X11 => if x11_from_session {
                Ok(Backend::X11)
            } else {
                Err(KeyLayoutError::SessionError)
            },
            SessionType::Unsupported => Err(KeyLayoutError::SessionError),
        },
    }
}

/// Chooses the backend from the kind of an existing window's connection.
pub fn backend_for_window(platform: Platform, x11_connection: bool) -> (r: Result<
    Backend,
    KeyLayoutError,
>)
    ensures
        r == window_backend(platform, x11_connection),
{
    match platform {
        Platform::Unsupported => Err(KeyLayoutError::PlatformUnsupportedError),
        Platform::Windows => Ok(Backend::Windows),
        Platform::Unix => if x11_connection {
            Ok(Backend::X11)
        } else {
            Ok(Backend::Wayland)
        },
    }
}

/// On a Unix desktop, an absent session signal, or one that names neither
/// `"wayland"` nor `"x11"`, makes autodetection fail with `SessionError`.
pub proof fn lemma_unknown_session_fails(signal: Option<Seq<char>>, x11_from_session: bool)
    requires
        signal matches Some(s) ==> s != "wayland"@ && s != "x11"@,
    ensures
        autodetect_backend(Platform::Unix, session_type_of(signal), x11_from_session) == Err::<
            Backend,
            KeyLayoutError,
        >(KeyLayoutError::SessionError),
{
}

/// On an unsupported platform every constructor fails with
/// `PlatformUnsupportedError`, so no key layout is ever built there.
pub proof fn lemma_unsupported_platform_never_constructs(
    signal: Option<Seq<char>>,
    x11_from_session: bool,
    x11_connection: bool,
)
    ensures
        autodetect_backend(Platform::Unsupported, session_type_of(signal), x11_from_session)
            == Err::<Backend, KeyLayoutError>(KeyLayoutError::PlatformUnsupportedError),
        window_backend(Platform::Unsupported, x11_connection) == Err::<Backend, KeyLayoutError>(
            KeyLayoutError::PlatformUnsupportedError,
        ),
{
}

} // verus!
