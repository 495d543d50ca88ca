//! Decisions of the presentations-folder watcher: when connected pages are
//! told to reload, and when the folder is scanned again.

use vstd::prelude::*;

use std::collections::hash_map::DefaultHasher;
use std::hash::Hasher;
use vstd::std_specs::hash::DefaultHasherAdditionalSpecFns;
use vstd::utf8::encode_utf8;

use crate::text::{push_char, str_eq};

verus! {

/// What the watcher remembers between events.
#[derive(Debug, Clone, Copy, PartialEq, Eq, Structural)]
pub struct WatcherState {
    /// A file change was seen and has not been acted on yet.
    pub pending_reload: bool,
    /// Whether the folder was last seen readable (or mounted).
    pub folder_accessible: bool,
}

/// What happened.
#[derive(Debug, Clone, Copy, PartialEq, Eq, Structural)]
pub enum WatchEvent {
    /// A file of the folder was created, removed or modified.
    FilesChanged,
    /// The periodic mount check ran.
    MountPolled { is_mounted: bool, converting: bool },
    /// The debounce delay after a file change ran out.
    DebounceElapsed { accessible_now: bool, converting: bool },
}

/// What the watcher asks for.
#[derive(Debug, Clone, Copy, PartialEq, Eq, Structural)]
pub struct WatchActions {
    /// Tell connected pages to reload.
    pub broadcast_reload: bool,
    /// Forget the version of the files last served.
    pub clear_version: bool,
    /// Scan the folder again and compare versions.
    pub rescan: bool,
}

/// No action.
pub open spec fn no_actions() -> WatchActions {
    WatchActions { broadcast_reload: false, clear_version: false, rescan: false }
}

/// The watcher's next state and actions after `e` in state `s`.
pub open spec fn watch_transition(s: WatcherState, e: WatchEvent) -> (WatcherState, WatchActions) {
    match e {
        WatchEvent::FilesChanged => (WatcherState { pending_reload: true, ..s }, no_actions()),
        WatchEvent::MountPolled { is_mounted, converting } => if is_mounted != s.folder_accessible {
            (
                WatcherState { folder_accessible: is_mounted, ..s },
                WatchActions { broadcast_reload: !converting, ..no_actions() },
            )
        } else {
            (s, no_actions())
        },
        WatchEvent::DebounceElapsed { accessible_now, converting } => {
            let s1 = WatcherState { pending_reload: false, folder_accessible: accessible_now };
            if accessible_now && !s.folder_accessible {
                (s1, WatchActions { broadcast_reload: !converting, ..no_actions() })
            } else if !accessible_now && s.folder_accessible {
                (
                    s1,
                    WatchActions {
                        broadcast_reload: !converting,
                        clear_version: !converting,
                        rescan: false,
                    },
                )
            } else {
                (s1, WatchActions { rescan: accessible_now, ..no_actions() })
            }
        },
    }
}

impl WatcherState {
    /// The state the watcher starts in: the folder readable, nothing pending.
    pub fn new() -> (s: WatcherState)
        ensures
            s == (WatcherState { pending_reload: false, folder_accessible: true }),
    {
        WatcherState { pending_reload: false, folder_accessible: true }
    }

    /// Whether the debounce delay is running (a change is pending).
    pub fn debounce_armed(&self) -> (r: bool)
        ensures
            r == self.pending_reload,
    {
        self.pending_reload
    }

    /// Applies an event. The debounce delay only runs out while a change is
    /// pending.
    pub fn step(&mut self, event: WatchEvent) -> (a: WatchActions)
        requires
            event matches WatchEvent::DebounceElapsed { .. } ==> old(self).pending_reload,
        ensures
            (*final(self), a) == watch_transition(*old(self), event),
            match event {
                WatchEvent::FilesChanged => final(self).pending_reload && a == no_actions(),
                WatchEvent::MountPolled { is_mounted, converting } => final(self).folder_accessible
                    == is_mounted && (converting ==> !a.broadcast_reload),
                WatchEvent::DebounceElapsed { accessible_now, converting } => final(self).pending_reload == false
                    && final(self).folder_accessible == accessible_now && (converting
                    ==> !a.broadcast_reload && !a.clear_version),
            },
    {
        match event {
            WatchEvent::FilesChanged => {
                self.pending_reload = true;
                WatchActions { broadcast_reload: false, clear_version: false, rescan: false }
            },
            WatchEvent::MountPolled { is_mounted, converting } => {
                if is_mounted != self.folder_accessible {
                    self.folder_accessible = is_mounted;
                    WatchActions { broadcast_reload: !converting, clear_version: false, rescan: false }
                } else {
                    WatchActions { broadcast_reload: false, clear_version: false, rescan: false }
                }
            },
            WatchEvent::DebounceElapsed { accessible_now, converting } => {
                self.pending_reload = false;
                if accessible_now && !self.folder_accessible {
                    self.folder_accessible = true;
                    WatchActions { broadcast_reload: !converting, clear_version: false, rescan: false }
                } else if !accessible_now && self.folder_accessible {
                    self.folder_accessible = false;
                    WatchActions {
                        broadcast_reload: !converting,
                        clear_version: !converting,
                        rescan: false,
                    }
                } else {
                    self.folder_accessible = accessible_now;
                    WatchActions {
                        broadcast_reload: false,
                        clear_version: false,
                        rescan: accessible_now,
                    }
                }
            },
        }
    }
}

/// After a rescan: pages reload when the version of the files changed.
pub fn reload_after_rescan(stored: &str, new_version: &str) -> (r: bool)
    ensures
        r == (stored@ != new_version@),
{
    !str_eq(stored, new_version)
}

/// After a rescan: the version to keep from now on (the new one), and
/// whether pages reload (the version changed).
pub fn after_rescan(stored: &str, new_version: String) -> (r: (String, bool))
    ensures
        r.0@ == new_version@,
        r.1 == (stored@ != new_version@),
{
    let reload = reload_after_rescan(stored, new_version.as_str());
    (new_version, reload)
}

/// When the page is requested: pages reload when a version was served
/// before and the files' version differs from it.
pub fn reload_on_request(stored: &str, new_version: &str) -> (r: bool)
    ensures
        r == (stored@.len() > 0 && stored@ != new_version@),
{
    let empty = stored.is_empty();
    !empty && !str_eq(stored, new_version)
}

/// When the page is served: the version to keep from now on (the new one),
/// and whether pages reload (a version was served before and differs).
pub fn after_request(stored: &str, new_version: String) -> (r: (String, bool))
    ensures
        r.0@ == new_version@,
        r.1 == (stored@.len() > 0 && stored@ != new_version@),
{
    let reload = reload_on_request(stored, new_version.as_str());
    (new_version, reload)
}

// ---------------------------------------------------------------------
// Version of the served files
// ---------------------------------------------------------------------

/// The lower-case hexadecimal digit for `d` (`d < 16`).
pub open spec fn hex_digit(d: nat) -> char {
    if d < 10 {
        crate::text::digit_char(d)
    } else if d == 10 {
        'a'
    } else if d == 11 {
        'b'
    } else if d == 12 {
        'c'
    } else if d == 13 {
        'd'
    } else if d == 14 {
        'e'
    } else {
        'f'
    }
}

/// Lower-case hexadecimal notation of `n`, as `{:x}` prints it.
pub open spec fn hex(n: nat) -> Seq<char>
    decreases n,
{
    if n < 16 {
        seq![hex_digit(n)]
    } else {
        hex(n / 16).push(hex_digit(n % 16))
    }
}

fn hex_digit_of(d: u64) -> (c: char)
    requires
        d < 16,
    ensures
        c == hex_digit(d as nat),
{
    if d < 10 {
        if d == 0 {
            '0'
        } else if d == 1 {
            '1'
        } else if d == 2 {
            '2'
        } else if d == 3 {
            '3'
        } else if d == 4 {
            '4'
        } else if d == 5 {
            '5'
        } else if d == 6 {
            '6'
        } else if d == 7 {
            '7'
        } else if d == 8 {
            '8'
        } else {
            '9'
        }
    } else if d == 10 {
        'a'
    } else if d == 11 {
        'b'
    } else if d == 12 {
        'c'
    } else if d == 13 {
        'd'
    } else if d == 14 {
        'e'
    } else {
        'f'
    }
}

/// Hexadecimal notation of `n`.
pub fn hex_string(n: u64) -> (s: String)
    ensures
        s@ == hex(n as nat),
    decreases n,
{
    if n < 16 {
        let mut s = String::new();
        push_char(&mut s, hex_digit_of(n));
        assert(s@ =~= seq![hex_digit(n as nat)]);
        s
    } else {
        let mut s = hex_string(n / 16);
        push_char(&mut s, hex_digit_of(n % 16));
        s
    }
}

/// The writes that hashing the served files makes: for each entry its key
/// then its file name, each as `str`'s `Hash` writes it (its UTF-8 bytes,
/// then `0xff`).
pub open spec fn version_writes(entries: Seq<(Seq<char>, Seq<char>)>) -> Seq<Seq<u8>>
    decreases entries.len(),
{
    if entries.len() == 0 {
        Seq::empty()
    } else {
        version_writes(entries.drop_last()) + seq![
            encode_utf8(entries.last().0),
            seq![0xffu8],
            encode_utf8(entries.last().1),
            seq![0xffu8],
        ]
    }
}

/// The version of the served files: their `DefaultHasher` hash in
/// hexadecimal.
pub open spec fn version_of(entries: Seq<(Seq<char>, Seq<char>)>) -> Seq<char> {
    hex(DefaultHasher::spec_finish(version_writes(entries)) as nat)
}

/// The version of the served files, from their keys and file names in
/// serving order.
pub fn compute_version(entries: &Vec<(String, String)>) -> (r: String)
    ensures
        r@ == version_of(entries@.map_values(|e: (String, String)| (e.0@, e.1@))),
{
    let ghost ev = entries@.map_values(|e: (String, String)| (e.0@, e.1@));
    let mut hasher = DefaultHasher::new();
    let sep: [u8; 1] = [0xffu8];
    let mut i: usize = 0;
    assert(hasher@ =~= version_writes(ev.take(0)));
    while i < entries.len()
        invariant
            i <= entries.len(),
            ev == entries@.map_values(|e: (String, String)| (e.0@, e.1@)),
            sep@ == seq![0xffu8],
            hasher@ == version_writes(ev.take(i as int)),
        decreases entries.len() - i,
    {
        let (key, name) = &entries[i];
        hasher.write(key.as_str().as_bytes());
        hasher.write(sep.as_slice());
        hasher.write(name.as_str().as_bytes());
        hasher.write(sep.as_slice());
        assert(ev.take(i + 1).drop_last() =~= ev.take(i as int));
        assert(hasher@ =~= version_writes(ev.take(i + 1)));
        i = i + 1;
    }
    assert(ev.take(entries.len() as int) =~= ev);
    hex_string(hasher.finish())
}

} // verus!
