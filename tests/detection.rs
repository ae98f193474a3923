use keynames::errors::KeyLayoutError;
use keynames::x11::keyboard_device;
use keynames::session::{
    backend_for_session, backend_for_window, session_type, Backend, Platform, SessionType,
    X11_FROM_SESSION,
};

#[test]
fn session_signal_names_a_type() {
    assert_eq!(session_type(Some("wayland")), SessionType::Wayland);
    assert_eq!(session_type(Some("x11")), SessionType::X11);
    assert_eq!(session_type(Some("tty")), SessionType::Unsupported);
    assert_eq!(session_type(Some("Wayland")), SessionType::Unsupported);
    assert_eq!(session_type(None), SessionType::Unsupported);
}

#[test]
fn wayland_session_picks_wayland() {
    assert_eq!(
        backend_for_session(Platform::Unix, Some("wayland"), X11_FROM_SESSION),
        Ok(Backend::Wayland)
    );
}

#[test]
fn absent_session_signal_is_an_error() {
    assert_eq!(
        backend_for_session(Platform::Unix, None, X11_FROM_SESSION),
        Err(KeyLayoutError::SessionError)
    );
}

#[test]
fn unknown_session_signal_is_an_error() {
    for s in ["", "tty", "mir", "wayland ", "X11"] {
        assert_eq!(
            backend_for_session(Platform::Unix, Some(s), true),
            Err(KeyLayoutError::SessionError)
        );
    }
}

#[test]
fn x11_session_follows_the_policy() {
    assert_eq!(
        backend_for_session(Platform::Unix, Some("x11"), false),
        Err(KeyLayoutError::SessionError)
    );
    assert_eq!(backend_for_session(Platform::Unix, Some("x11"), true), Ok(Backend::X11));
}

#[test]
fn window_connection_decides_the_protocol() {
    assert_eq!(backend_for_window(Platform::Unix, true), Ok(Backend::X11));
    assert_eq!(backend_for_window(Platform::Unix, false), Ok(Backend::Wayland));
}

#[test]
fn windows_needs_no_session() {
    assert_eq!(backend_for_session(Platform::Windows, None, false), Ok(Backend::Windows));
    assert_eq!(backend_for_window(Platform::Windows, false), Ok(Backend::Windows));
}

#[test]
fn unsupported_platform_never_constructs() {
    for signal in [None, Some("wayland"), Some("x11"), Some("other")] {
        for policy in [false, true] {
            assert_eq!(
                backend_for_session(Platform::Unsupported, signal, policy),
                Err(KeyLayoutError::PlatformUnsupportedError)
            );
        }
    }
    for x11 in [false, true] {
        assert_eq!(
            backend_for_window(Platform::Unsupported, x11),
            Err(KeyLayoutError::PlatformUnsupportedError)
        );
    }
}

#[test]
fn x11_handshake_needs_extension_and_device() {
    assert_eq!(keyboard_device(1, 3), Ok(3));
    assert_eq!(keyboard_device(1, 0), Ok(0));
    assert_eq!(keyboard_device(0, 3), Err(KeyLayoutError::X11Error));
    assert_eq!(keyboard_device(1, -1), Err(KeyLayoutError::X11Error));
}
