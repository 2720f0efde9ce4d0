//! What the window primitives decide and compute around their native call.
//!
//! Each function takes what was read from the windowing system, or gives
//! what is to be written to it, as plain values.

use vstd::prelude::*;
use vstd::wrapping::i32_specs::wrapping_sub;
use crate::controls::image_frame::Message;
use crate::controls::NULL_HANDLE;
use crate::low::defs::{SW_HIDE, SW_SHOW, WM_SETFONT, WS_DISABLED};

verus! {

/// A rectangle in pixels.
#[derive(Clone, Copy, Debug, PartialEq, Eq, Structural)]
pub struct Rect {
    pub left: i32,
    pub top: i32,
    pub right: i32,
    pub bottom: i32,
}

/// The message that gives the window `handle` the font `font`, or the
/// system's font for `None`, and has it redrawn at once where `redraw` is
/// set.
pub fn set_window_font(handle: usize, font: Option<usize>, redraw: bool) -> (r: Message)
    ensures
        r == (Message {
            hwnd: handle,
            msg: WM_SETFONT,
            w: match font {
                Some(f) => f,
                None => NULL_HANDLE,
            },
            l: if redraw {
                1usize
            } else {
                0usize
            },
        }),
{
    let w: usize = match font {
        Some(f) => f,
        None => NULL_HANDLE,
    };
    let l: usize = if redraw {
        1
    } else {
        0
    };
    Message { hwnd: handle, msg: WM_SETFONT, w, l }
}

/// The number of units that the buffer for a window text needs, after the
/// window reported a text of `reported` units: one more than the text, for
/// the terminator. It is 0 where there is no text: then nothing is read.
pub fn text_buffer_size(reported: i32) -> (r: usize)
    ensures
        r == if reported <= 0 {
            0
        } else {
            reported + 1
        },
{
    if reported <= 0 {
        0
    } else {
        let n: u32 = reported as u32;
        let m: usize = n as usize;
        m + 1
    }
}

/// `n` is where the text in `s` ends: at the first zero unit, or at the end
/// of `s` where it holds none.
pub open spec fn text_ends_at(s: Seq<u16>, n: int) -> bool {
    &&& 0 <= n <= s.len()
    &&& forall|j: int| 0 <= j < n ==> s[j] != 0
    &&& n == s.len() || s[n] == 0
}

/// The text in `s`: its units before the first zero unit.
pub open spec fn text_in(s: Seq<u16>) -> Seq<u16> {
    s.take(choose|n: int| text_ends_at(s, n))
}

/// A text ends at one place only.
pub proof fn lemma_text_end_unique(s: Seq<u16>, n: int, m: int)
    requires
        text_ends_at(s, n),
        text_ends_at(s, m),
    ensures
        n == m,
        text_in(s) == s.take(n),
{
    if n < m {
        assert(s[n] != 0);
    } else if m < n {
        assert(s[m] != 0);
    }
    let k = choose|k: int| text_ends_at(s, k);
    if n < k {
        assert(s[n] != 0);
    } else if k < n {
        assert(s[k] != 0);
    }
}

/// The text that the units `units` encode in UTF-16, with the replacement
/// character in place of each unit that is no part of a well-formed pair.
pub uninterp spec fn utf16_text(units: Seq<u16>) -> Seq<char>;

/// The units that encode the text `text` in UTF-16.
pub uninterp spec fn utf16_units(text: Seq<char>) -> Seq<u16>;

/// Calls `String::from_utf16_lossy`. Believed of it: what it returns depends
/// on the units alone.
#[verifier::external_body]
fn decode_utf16(units: &[u16]) -> (r: String)
    ensures
        r@ == utf16_text(units@),
{
    String::from_utf16_lossy(units)
}

/// Calls `str::encode_utf16` and collects the units. Believed of it: what it
/// gives depends on the text alone.
#[verifier::external_body]
fn encode_utf16(text: &str) -> (r: Vec<u16>)
    ensures
        r@ == utf16_units(text@),
{
    text.encode_utf16().collect()
}

/// The units of the text in the buffer: those before its first zero unit.
pub fn text_units(buffer: &[u16]) -> (r: Vec<u16>)
    ensures
        r@ == text_in(buffer@),
        text_ends_at(buffer@, r@.len() as int),
{
    let mut text: Vec<u16> = Vec::new();
    let mut i: usize = 0;
    while i < buffer.len() && buffer[i] != 0
        invariant
            0 <= i <= buffer@.len(),
            text@ == buffer@.take(i as int),
            forall|j: int| 0 <= j < i ==> buffer@[j] != 0,
        decreases buffer@.len() - i,
    {
        text.push(buffer[i]);
        proof {
            assert(buffer@.take(i + 1) =~= buffer@.take(i as int).push(buffer@[i as int]));
        }
        i += 1;
    }
    proof {
        lemma_text_end_unique(buffer@, i as int, i as int);
    }
    text
}

/// The text of a window, after the window copied `copied` units of it into
/// the buffer: the empty text where it copied none, else the text that the
/// buffer holds before its first zero unit.
pub fn get_window_text(copied: i32, buffer: &[u16]) -> (r: String)
    ensures
        r@ == if copied == 0 {
            Seq::<char>::empty()
        } else {
            utf16_text(text_in(buffer@))
        },
{
    if copied == 0 {
        String::new()
    } else {
        let units = text_units(buffer);
        decode_utf16(units.as_slice())
    }
}

/// The units to hand to a window as its text: the text in UTF-16, and a zero
/// unit that ends it.
pub fn set_window_text(text: &str) -> (r: Vec<u16>)
    ensures
        r@ == utf16_units(text@).push(0),
{
    terminated(encode_utf16(text))
}

/// The units with a zero unit after them.
pub fn terminated(units: Vec<u16>) -> (r: Vec<u16>)
    ensures
        r@ == units@.push(0),
{
    let mut units = units;
    units.push(0);
    units
}

/// The position of a window: its corner on the screen where it has no
/// parent, else `in_parent`, the same corner as the windowing system gave it
/// in the parent's own coordinates.
pub fn get_window_position(corner: (i32, i32), in_parent: Option<(i32, i32)>) -> (r: (i32, i32))
    ensures
        r == match in_parent {
            Some(p) => p,
            None => corner,
        },
{
    match in_parent {
        Some(p) => p,
        None => corner,
    }
}

/// The width and height to ask for when a window is resized to `w` by `h`.
///
/// Without `adjusted` these are the two numbers themselves. Where the size
/// is meant for the client area, `adjusted` is the rectangle from the origin
/// to `(w, h)` as the windowing system widened it by the window's
/// decoration, and its extent is asked for. Numbers beyond the range wrap
/// around, as the windowing system's own do.
pub fn set_window_size(w: u32, h: u32, adjusted: Option<Rect>) -> (r: (i32, i32))
    ensures
        r == match adjusted {
            Some(rect) => (
                wrapping_sub(rect.right, rect.left),
                wrapping_sub(rect.bottom, rect.top),
            ),
            None => (w as i32, h as i32),
        },
{
    match adjusted {
        Some(rect) => (rect.right.wrapping_sub(rect.left), rect.bottom.wrapping_sub(rect.top)),
        None => (#[verifier::truncate] (w as i32), #[verifier::truncate] (h as i32)),
    }
}

/// The rectangle from the origin to `(w, h)`, which the windowing system
/// widens by a window's decoration.
pub fn client_rect(w: u32, h: u32) -> (r: Rect)
    ensures
        r == (Rect { left: 0, top: 0, right: w as i32, bottom: h as i32 }),
{
    Rect {
        left: 0,
        top: 0,
        right: #[verifier::truncate] (w as i32),
        bottom: #[verifier::truncate] (h as i32),
    }
}

/// The size of a window from the far corner of its client rectangle.
pub fn get_window_size(right: i32, bottom: i32) -> (r: (u32, u32))
    ensures
        r == (right as u32, bottom as u32),
{
    (#[verifier::truncate] (right as u32), #[verifier::truncate] (bottom as u32))
}

/// The show command that makes a window visible or hides it.
pub fn set_window_visibility(visible: bool) -> (r: i32)
    ensures
        r == if visible {
            SW_SHOW
        } else {
            SW_HIDE
        },
{
    if visible {
        SW_SHOW
    } else {
        SW_HIDE
    }
}

/// Whether a window is visible, from what the windowing system answered:
/// any number but 0 says that it is.
pub fn get_window_visibility(answer: i32) -> (r: bool)
    ensures
        r == (answer != 0),
{
    answer != 0
}

/// A window with the style bits `style` takes input.
pub open spec fn style_enabled(style: u32) -> bool {
    style & WS_DISABLED != WS_DISABLED
}

/// The style bits `style` with the disabled bit cleared, for an enabled
/// window, or set, for a disabled one.
pub open spec fn style_with_enabled(style: u32, enabled: bool) -> u32 {
    if enabled {
        style & !WS_DISABLED
    } else {
        style | WS_DISABLED
    }
}

/// Whether a window with the style bits `style` takes input.
pub fn get_window_enabled(style: u32) -> (r: bool)
    ensures
        r == style_enabled(style),
{
    (style & WS_DISABLED) != WS_DISABLED
}

/// The style bits to write so that a window with the style bits `style`
/// takes input, or takes none.
pub fn set_window_enabled(style: u32, enabled: bool) -> (r: u32)
    ensures
        r == style_with_enabled(style, enabled),
{
    if enabled {
        style & !WS_DISABLED
    } else {
        style | WS_DISABLED
    }
}

/// A style that was written for an enabled window reads as enabled, one
/// written for a disabled window as disabled; no other bit is touched, and
/// writing the state that a style has already changes nothing.
pub proof fn law_enabled_round_trip(style: u32, enabled: bool)
    ensures
        style_enabled(style_with_enabled(style, enabled)) == enabled,
        style_with_enabled(style, enabled) & !WS_DISABLED == style & !WS_DISABLED,
        style_enabled(style) == enabled ==> style_with_enabled(style, enabled) == style,
{
    assert((style & !0x0800_0000u32) & 0x0800_0000u32 != 0x0800_0000u32) by (bit_vector);
    assert((style | 0x0800_0000u32) & 0x0800_0000u32 == 0x0800_0000u32) by (bit_vector);
    assert((style & !0x0800_0000u32) & !0x0800_0000u32 == style & !0x0800_0000u32)
        by (bit_vector);
    assert((style | 0x0800_0000u32) & !0x0800_0000u32 == style & !0x0800_0000u32)
        by (bit_vector);
    assert(style & 0x0800_0000u32 != 0x0800_0000u32 ==> style & !0x0800_0000u32 == style)
        by (bit_vector);
    assert(style & 0x0800_0000u32 == 0x0800_0000u32 ==> style | 0x0800_0000u32 == style)
        by (bit_vector);
}

} // verus!
