use keynames::session::{backend_for_session, Backend, Platform, X11_FROM_SESSION};
use keynames::translate::{key_label_from_buffers, keymap_code, RENDER_BUFFER_LEN};
use keynames::errors::KeyLayoutError;
use keynames::handshake::{
    find_seat, has_keyboard, keymap_step, step, Action, Event, Global, KeymapEvent, Phase,
    KEYMAP_FORMAT_XKB_V1,
};

fn global(name: u32, interface: &str, version: u32) -> Global {
    Global { name, interface: interface.to_string(), version }
}

fn advertised() -> Vec<Global> {
    vec![
        global(1, "wl_compositor", 4),
        global(2, "wl_shm", 1),
        global(7, "wl_seat", 7),
        global(9, "wl_seat", 5),
    ]
}

fn failed() -> (Phase, Action) {
    (Phase::Failed, Action::Fail(KeyLayoutError::WaylandError))
}

#[test]
fn full_handshake_reaches_the_keymap() {
    let (phase, action) = step(Phase::AwaitGlobals, &Event::GlobalsListed(advertised()));
    assert_eq!(phase, Phase::AwaitCapabilities);
    assert_eq!(action, Action::BindSeat { name: 7, version: 7 });
    let (phase, action) = step(phase, &Event::CapabilitiesAnnounced(vec![1 | 2]));
    assert_eq!(phase, Phase::AwaitKeymap);
    assert_eq!(action, Action::RequestKeyboard);
    let keymap = KeymapEvent { format: KEYMAP_FORMAT_XKB_V1, fd: 5, size: 4096 };
    let (phase, action) = step(phase, &Event::KeymapsDelivered(vec![keymap]));
    assert_eq!(phase, Phase::Done);
    assert_eq!(action, Action::CompileKeymap { fd: 5, map_len: 4096, text_len: 4095 });
}

#[test]
fn first_seat_is_bound() {
    assert_eq!(find_seat(&advertised()), Some(2));
    assert_eq!(find_seat(&vec![global(1, "wl_shm", 1)]), None);
    assert_eq!(find_seat(&Vec::new()), None);
}

#[test]
fn missing_seat_fails() {
    let globals = vec![global(1, "wl_compositor", 4), global(2, "wl_seat_v2", 1)];
    assert_eq!(step(Phase::AwaitGlobals, &Event::GlobalsListed(globals)), failed());
}

#[test]
fn seat_without_keyboard_fails() {
    assert!(!has_keyboard(&vec![1, 4]));
    assert!(has_keyboard(&vec![1, 4, 2]));
    assert!(!has_keyboard(&Vec::new()));
    assert_eq!(step(Phase::AwaitCapabilities, &Event::CapabilitiesAnnounced(vec![1, 4])), failed());
    assert_eq!(step(Phase::AwaitCapabilities, &Event::CapabilitiesAnnounced(vec![])), failed());
}

#[test]
fn capabilities_accumulate() {
    let (phase, action) = step(Phase::AwaitCapabilities, &Event::CapabilitiesAnnounced(vec![1, 2]));
    assert_eq!(phase, Phase::AwaitKeymap);
    assert_eq!(action, Action::RequestKeyboard);
}

#[test]
fn keymap_format_must_be_text() {
    let no_keymap = KeymapEvent { format: 0, fd: 3, size: 10 };
    let good = KeymapEvent { format: KEYMAP_FORMAT_XKB_V1, fd: 4, size: 10 };
    assert_eq!(keymap_step(&vec![no_keymap]), Action::Fail(KeyLayoutError::WaylandError));
    assert_eq!(keymap_step(&vec![good, no_keymap]), Action::Fail(KeyLayoutError::WaylandError));
    assert_eq!(keymap_step(&vec![KeymapEvent { format: 2, fd: 4, size: 10 }]), Action::Fail(KeyLayoutError::WaylandError));
    assert_eq!(step(Phase::AwaitKeymap, &Event::KeymapsDelivered(vec![no_keymap])), failed());
}

#[test]
fn missing_or_empty_keymap_fails() {
    assert_eq!(keymap_step(&Vec::new()), Action::Fail(KeyLayoutError::WaylandError));
    let empty = KeymapEvent { format: KEYMAP_FORMAT_XKB_V1, fd: 4, size: 0 };
    assert_eq!(keymap_step(&vec![empty]), Action::Fail(KeyLayoutError::WaylandError));
}

#[test]
fn last_keymap_is_in_force() {
    let a = KeymapEvent { format: KEYMAP_FORMAT_XKB_V1, fd: 4, size: 10 };
    let b = KeymapEvent { format: KEYMAP_FORMAT_XKB_V1, fd: 6, size: 1 };
    assert_eq!(keymap_step(&vec![a, b]), Action::CompileKeymap { fd: 6, map_len: 1, text_len: 0 });
}

#[test]
fn failed_roundtrip_fails_every_phase() {
    for phase in [Phase::AwaitGlobals, Phase::AwaitCapabilities, Phase::AwaitKeymap] {
        assert_eq!(step(phase, &Event::RoundtripFailed), failed());
    }
}

#[test]
fn events_out_of_order_fail() {
    assert_eq!(step(Phase::AwaitCapabilities, &Event::GlobalsListed(advertised())), failed());
    assert_eq!(step(Phase::AwaitGlobals, &Event::CapabilitiesAnnounced(vec![2])), failed());
    let keymap = KeymapEvent { format: KEYMAP_FORMAT_XKB_V1, fd: 5, size: 4096 };
    assert_eq!(step(Phase::AwaitGlobals, &Event::KeymapsDelivered(vec![keymap])), failed());
    assert_eq!(step(Phase::Done, &Event::KeymapsDelivered(vec![keymap])), failed());
}

#[test]
fn wayland_session_shows_letter_for_scancode_30() {
    assert_eq!(
        backend_for_session(Platform::Unix, Some("wayland"), X11_FROM_SESSION),
        Ok(Backend::Wayland)
    );
    let (phase, _) = step(Phase::AwaitGlobals, &Event::GlobalsListed(advertised()));
    let (phase, _) = step(phase, &Event::CapabilitiesAnnounced(vec![3]));
    let keymap = KeymapEvent { format: KEYMAP_FORMAT_XKB_V1, fd: 5, size: 4096 };
    let (phase, _) = step(phase, &Event::KeymapsDelivered(vec![keymap]));
    assert_eq!(phase, Phase::Done);
    // On a US QWERTY keymap, code 38 types "a" and its keysym is named "a".
    assert_eq!(keymap_code(30), Some(38));
    let mut utf8 = vec![0u8; RENDER_BUFFER_LEN];
    utf8[0] = b'a';
    let mut name = vec![0u8; RENDER_BUFFER_LEN];
    name[0] = b'a';
    assert_eq!(key_label_from_buffers(&utf8, 1, &name, 1), "A");
}

#[test]
fn wayland_session_shows_name_for_f1() {
    // On a US QWERTY keymap, code 67 types nothing and its keysym is named "F1".
    assert_eq!(keymap_code(59), Some(67));
    let utf8 = vec![0u8; RENDER_BUFFER_LEN];
    let mut name = vec![0u8; RENDER_BUFFER_LEN];
    name[..2].copy_from_slice(b"F1");
    assert_eq!(key_label_from_buffers(&utf8, 0, &name, 2), "F1");
}
