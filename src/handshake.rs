//! The ordered handshake that obtains a keymap from a Wayland compositor.
//!
//! The handshake is three round trips, each depending on the one before:
//! the registry lists its globals, the seat announces its capabilities, the
//! keyboard delivers its keymap. The caller runs each round trip and hands
//! what it delivered to `step`, which says what to do next.
use vstd::prelude::*;
use crate::errors::KeyLayoutError;
use crate::text::text_equals;

verus! {

/// Capability bit of a seat that has a keyboard.
pub const KEYBOARD_CAPABILITY: u32 = 2;

/// Keymap format tag of a textual XKB keymap.
pub const KEYMAP_FORMAT_XKB_V1: u32 = 1;

/// A global interface that the compositor's registry advertised.
pub struct Global {
    /// The registry's name for the global.
    pub name: u32,
    /// The interface it implements.
    pub interface: String,
    /// The interface version it offers.
    pub version: u32,
}

/// A keymap event of the keyboard: the format tag, a handle to shared
/// memory, and the byte length of the keymap in it.
#[derive(Debug, Clone, Copy, PartialEq, Eq, Structural)]
pub struct KeymapEvent {
    /// The format tag.
    pub format: u32,
    /// The handle to the shared memory holding the keymap.
    pub fd: i32,
    /// The keymap's byte length, its terminating NUL included.
    pub size: u32,
}

/// How far the handshake has come.
#[derive(Debug, Clone, Copy, PartialEq, Eq, Structural)]
pub enum Phase {
    /// Waiting for the first round trip: the registry's globals.
    AwaitGlobals,
    /// The seat is bound; waiting for its capabilities.
    AwaitCapabilities,
    /// The keyboard is requested; waiting for its keymap.
    AwaitKeymap,
    /// The keymap is known: the handshake is over.
    Done,
    /// The handshake failed.
    Failed,
}

/// What a round trip delivered.
pub enum Event {
    /// The globals advertised during the round trip, in order.
    GlobalsListed(Vec<Global>),
    /// The capability sets that the seat announced during the round trip.
    CapabilitiesAnnounced(Vec<u32>),
    /// The keymap events that the keyboard sent during the round trip.
    KeymapsDelivered(Vec<KeymapEvent>),
    /// The round trip failed.
    RoundtripFailed,
}

/// What the caller does next.
#[derive(Debug, Clone, Copy, PartialEq, Eq, Structural)]
pub enum Action {
    /// Bind the seat global with this name and version, then run a round trip.
    BindSeat { name: u32, version: u32 },
    /// Ask the seat for its keyboard, then run a round trip.
    RequestKeyboard,
    /// Map `map_len` bytes of the shared memory and compile its first
    /// `text_len` bytes, which leave out the terminating NUL, as a text keymap.
    CompileKeymap { fd: i32, map_len: usize, text_len: usize },
    /// Give up with this error.
    Fail(KeyLayoutError),
}

/// The global is a seat.
pub open spec fn is_seat(g: Global) -> bool {
    g.interface@ == "wl_seat"@
}

/// The global at `i` is the first seat of the list.
pub open spec fn is_first_seat(gs: Seq<Global>, i: int) -> bool {
    &&& 0 <= i < gs.len()
    &&& is_seat(gs[i])
    &&& forall|j: int| 0 <= j < i ==> !is_seat(#[trigger] gs[j])
}

/// The position of the first seat in the list, if there is one.
pub open spec fn first_seat(gs: Seq<Global>) -> Option<int> {
    if exists|i: int| is_first_seat(gs, i) {
        Some(choose|i: int| is_first_seat(gs, i))
    } else {
        None
    }
}

/// Some capability set announced has the keyboard bit.
pub open spec fn announces_keyboard(caps: Seq<u32>) -> bool {
    exists|i: int| 0 <= i < caps.len() && #[trigger] caps[i] & KEYBOARD_CAPABILITY != 0
}

/// What to do with the keymap events of the last round trip: every one must
/// carry a textual XKB keymap, and the last one, which is in force, must not
/// be empty.
pub open spec fn keymap_action(ks: Seq<KeymapEvent>) -> Action {
    if ks.len() == 0 || (exists|i: int|
        0 <= i < ks.len() && (#[trigger] ks[i]).format != KEYMAP_FORMAT_XKB_V1) || ks.last().size
        == 0 {
        Action::Fail(KeyLayoutError::WaylandError)
    } else {
        Action::CompileKeymap {
            fd: ks.last().fd,
            map_len: ks.last().size as usize,
            text_len: (ks.last().size - 1) as usize,
        }
    }
}

/// The failed outcome.
pub open spec fn failure() -> (Phase, Action) {
    (Phase::Failed, Action::Fail(KeyLayoutError::WaylandError))
}

/// The next phase and action, given the phase and what the round trip delivered.
pub open spec fn next(phase: Phase, event: Event) -> (Phase, Action) {
    match event {
        Event::GlobalsListed(gs) => if phase == Phase::AwaitGlobals {
            match first_seat(gs@) {
                Some(i) => (
                    Phase::AwaitCapabilities,
                    Action::BindSeat { name: gs@[i].name, version: gs@[i].version },
                ),
                None => failure(),
            }
        } else {
            failure()
        },
        Event::CapabilitiesAnnounced(caps) => if phase == Phase::AwaitCapabilities
            && announces_keyboard(caps@) {
            (Phase::AwaitKeymap, Action::RequestKeyboard)
        } else {
            failure()
        },
        Event::KeymapsDelivered(ks) => if phase == Phase::AwaitKeymap {
            match keymap_action(ks@) {
                Action::Fail(_) => failure(),
                a => (Phase::Done, a),
            }
        } else {
            failure()
        },
        Event::RoundtripFailed => failure(),
    }
}

/// Finds the first seat among the advertised globals.
pub fn find_seat(globals: &Vec<Global>) -> (r: Option<usize>)
    ensures
        r matches Some(i) ==> first_seat(globals@) == Some(i as int),
        r is None ==> first_seat(globals@) is None,
{
    let mut i: usize = 0;
    while i < globals.len()
        invariant
            i <= globals@.len(),
            forall|j: int| 0 <= j < i ==> !is_seat(#[trigger] globals@[j]),
        decreases globals@.len() - i,
    {
        if text_equals(globals[i].interface.as_str(), "wl_seat") {
            assert(is_first_seat(globals@, i as int));
            assert forall|k: int| is_first_seat(globals@, k) implies k == i by {
                if k < i {
                    assert(!is_seat(globals@[k]));
                } else if k > i {
                    assert(!is_seat(globals@[i as int]));
                }
            }
            return Some(i);
        }
        i += 1;
    }
    assert forall|k: int| !is_first_seat(globals@, k) by {
        if 0 <= k < globals@.len() {
            assert(!is_seat(globals@[k]));
        }
    }
    None
}

/// Whether some announced capability set has the keyboard bit.
pub fn has_keyboard(caps: &Vec<u32>) -> (r: bool)
    ensures
        r == announces_keyboard(caps@),
{
    let mut i: usize = 0;
    while i < caps.len()
        invariant
            i <= caps@.len(),
            forall|j: int| 0 <= j < i ==> #[trigger] caps@[j] & KEYBOARD_CAPABILITY == 0,
        decreases caps@.len() - i,
    {
        if caps[i] & KEYBOARD_CAPABILITY != 0 {
            return true;
        }
        i += 1;
    }
    false
}

/// Decides what to do with the keymap events of the last round trip.
pub fn keymap_step(ks: &Vec<KeymapEvent>) -> (r: Action)
    ensures
        r == keymap_action(ks@),
{
    if ks.len() == 0 {
        return Action::Fail(KeyLayoutError::WaylandError);
    }
    let mut i: usize = 0;
    while i < ks.len()
        invariant
            i <= ks@.len(),
            forall|j: int| 0 <= j < i ==> (#[trigger] ks@[j]).format == KEYMAP_FORMAT_XKB_V1,
        decreases ks@.len() - i,
    {
        if ks[i].format != KEYMAP_FORMAT_XKB_V1 {
            return Action::Fail(KeyLayoutError::WaylandError);
        }
        i += 1;
    }
    let last = ks[ks.len() - 1];
    if last.size == 0 {
        Action::Fail(KeyLayoutError::WaylandError)
    } else {
        Action::CompileKeymap {
            fd: last.fd,
            map_len: last.size as usize,
            text_len: (last.size - 1) as usize,
        }
    }
}

/// Advances the handshake by what one round trip delivered.
pub fn step(phase: Phase, event: &Event) -> (r: (Phase, Action))
    ensures
        r == next(phase, *event),
        r.1 matches Action::BindSeat { .. } ==> phase == Phase::AwaitGlobals,
        r.1 matches Action::RequestKeyboard ==> phase == Phase::AwaitCapabilities,
        r.1 matches Action::CompileKeymap { .. } ==> phase == Phase::AwaitKeymap,
        r.0 == Phase::Failed <==> r.1 matches Action::Fail(_),
        r.1 matches Action::Fail(e) ==> e == KeyLayoutError::WaylandError,
{
    match event {
        Event::GlobalsListed(gs) => {
            if phase == Phase::AwaitGlobals {
                match find_seat(gs) {
                    Some(i) => (
                        Phase::AwaitCapabilities,
                        Action::BindSeat { name: gs[i].name, version: gs[i].version },
                    ),
                    None => (Phase::Failed, Action::Fail(KeyLayoutError::WaylandError)),
                }
            } else {
                (Phase::Failed, Action::Fail(KeyLayoutError::WaylandError))
            }
        },
        Event::CapabilitiesAnnounced(caps) => {
            if phase == Phase::AwaitCapabilities && has_keyboard(caps) {
                (Phase::AwaitKeymap, Action::RequestKeyboard)
            } else {
                (Phase::Failed, Action::Fail(KeyLayoutError::WaylandError))
            }
        },
        Event::KeymapsDelivered(ks) => {
            if phase == Phase::AwaitKeymap {
                match keymap_step(ks) {
                    Action::Fail(_) => (Phase::Failed, Action::Fail(KeyLayoutError::WaylandError)),
                    a => (Phase::Done, a),
                }
            } else {
                (Phase::Failed, Action::Fail(KeyLayoutError::WaylandError))
            }
        },
        Event::RoundtripFailed => (Phase::Failed, Action::Fail(KeyLayoutError::WaylandError)),
    }
}

/// A keymap is compiled only at the end of the three round trips, taken in
/// their order: the registry's globals, then the seat's capabilities, then the
/// keyboard's keymap.
pub proof fn lemma_keymap_needs_ordered_roundtrips(first: Event, second: Event, third: Event)
    requires
        next(next(next(Phase::AwaitGlobals, first).0, second).0, third).1 matches Action::CompileKeymap { .. },
    ensures
        first is GlobalsListed,
        second is CapabilitiesAnnounced,
        third is KeymapsDelivered,
{
}

} // verus!
