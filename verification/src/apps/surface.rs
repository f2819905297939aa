//! The surface protocol: window geometry and the events the desktop
//! shell delivers to a registered application. Reading and writing the
//! socket is done by the caller; the decisions are made here.
use vstd::prelude::*;

use crate::text::{str_chars, str_eq};

verus! {

/// A window's position and size.
#[derive(Debug, Clone, Copy, PartialEq, Eq, Structural)]
pub struct Rect {
    /// The left edge.
    pub x: i32,
    /// The top edge.
    pub y: i32,
    /// The width, at least 1 when it comes from the shell.
    pub width: u32,
    /// The height, at least 1 when it comes from the shell.
    pub height: u32,
}

/// An event delivered to a registered application.
#[derive(Debug, Clone, Copy, PartialEq, Eq, Structural)]
pub enum SurfaceEvent {
    /// A printable character typed while focused.
    Key(char),
    /// The Enter key.
    Enter,
    /// The Backspace key.
    Backspace,
    /// The shell asked the window to close.
    CloseRequested,
}

/// The rectangle of a registration reply from its four numbers (x, y,
/// width, height): positions are truncated to 32 bits, sizes are at
/// least 1 and truncated to 32 bits.
pub open spec fn spec_rect_from_reply(x: i64, y: i64, w: i64, h: i64) -> Rect {
    Rect {
        x: x as i32,
        y: y as i32,
        width: (if w < 1 { 1 } else { w }) as u32,
        height: (if h < 1 { 1 } else { h }) as u32,
    }
}

/// The rectangle of a registration reply.
pub fn rect_from_reply(x: i64, y: i64, w: i64, h: i64) -> (r: Rect)
    ensures
        r == spec_rect_from_reply(x, y, w, h),
{
    let w1: i64 = if w < 1 { 1 } else { w };
    let h1: i64 = if h < 1 { 1 } else { h };
    Rect { x: x as i32, y: y as i32, width: w1 as u32, height: h1 as u32 }
}

/// The event a shell message names: `close` is a close request; `key`
/// with a newline is Enter, with a backspace character is Backspace, and
/// with any other non-empty text is that text's first character; any
/// other message is no event.
pub open spec fn spec_surface_event(event: Option<Seq<char>>, key: Seq<char>) -> Option<SurfaceEvent> {
    match event {
        Some(e) => if e == "close"@ {
            Some(SurfaceEvent::CloseRequested)
        } else if e == "key"@ {
            if key == "\n"@ {
                Some(SurfaceEvent::Enter)
            } else if key == "\u{8}"@ {
                Some(SurfaceEvent::Backspace)
            } else if key.len() > 0 {
                Some(SurfaceEvent::Key(key[0]))
            } else {
                None
            }
        } else {
            None
        },
        None => None,
    }
}

/// Decodes a shell message from its `event` and `key` fields.
pub fn decode_surface_event(event: Option<&str>, key: &str) -> (r: Option<SurfaceEvent>)
    ensures
        r == spec_surface_event(
            match event {
                Some(e) => Some(e@),
                None => None,
            },
            key@,
        ),
{
    match event {
        Some(e) => {
            if str_eq(e, "close") {
                Some(SurfaceEvent::CloseRequested)
            } else if str_eq(e, "key") {
                if str_eq(key, "\n") {
                    Some(SurfaceEvent::Enter)
                } else if str_eq(key, "\u{8}") {
                    Some(SurfaceEvent::Backspace)
                } else {
                    let cs = str_chars(key);
                    if cs.len() > 0 {
                        Some(SurfaceEvent::Key(cs[0]))
                    } else {
                        None
                    }
                }
            } else {
                None
            }
        },
        None => None,
    }
}

} // verus!
