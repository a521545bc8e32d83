//! Quit-key detection.
//!
//! The input watcher polls the terminal without blocking beyond its
//! timeout and hands back at most one key per tick. Only the quit keys
//! (`q` and Escape) carry meaning; every other key is consumed and
//! ignored, reserved for future commands.

use vstd::prelude::*;

verus! {

/// A keyboard event as the render loop sees it.
#[derive(Clone, Copy, Debug, PartialEq, Eq, Structural)]
pub enum Key {
    /// A printable character key.
    Char(char),
    /// The Escape key.
    Esc,
    /// Any other key; inert by design.
    Other,
}

/// The quit predicate: `q` or Escape request shutdown.
pub open spec fn is_quit_spec(k: Key) -> bool {
    k == Key::Char('q') || k == Key::Esc
}

/// Whether one polled tick requested shutdown: a key arrived and it was
/// a quit key. A timeout (no key) never quits.
pub open spec fn quit_requested_spec(ev: Option<Key>) -> bool {
    match ev {
        Some(k) => is_quit_spec(k),
        None => false,
    }
}

/// Decides whether a key is a quit key.
pub fn is_quit_key(k: &Key) -> (r: bool)
    ensures
        r == is_quit_spec(*k),
{
    match k {
        Key::Char(c) => *c == 'q',
        Key::Esc => true,
        Key::Other => false,
    }
}

/// Decides whether the key (if any) delivered by one poll requests
/// shutdown.
pub fn quit_requested(ev: &Option<Key>) -> (r: bool)
    ensures
        r == quit_requested_spec(*ev),
{
    match ev {
        Some(k) => is_quit_key(k),
        None => false,
    }
}

} // verus!
