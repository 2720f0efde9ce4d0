//! Numbers of the windowing system that the library's rules speak of.

use vstd::prelude::*;

verus! {

/// Window style: the window is a child of its parent.
pub const WS_CHILD: u32 = 0x4000_0000;

/// Window style: the window is shown.
pub const WS_VISIBLE: u32 = 0x1000_0000;

/// Window style: the window takes no input.
pub const WS_DISABLED: u32 = 0x0800_0000;

/// Static-control style: the control shows a bitmap.
pub const SS_BITMAP: u32 = 0x0000_000E;

/// Static-control style: the control tells its parent of clicks.
pub const SS_NOTIFY: u32 = 0x0000_0100;

/// Message: give a static control its image.
pub const STM_SETIMAGE: u32 = 0x0172;

/// Message: ask a static control for its image.
pub const STM_GETIMAGE: u32 = 0x0173;

/// Message argument: the image is a bitmap.
pub const IMAGE_BITMAP: usize = 0;

/// Show command: hide the window.
pub const SW_HIDE: i32 = 0;

/// Show command: show the window.
pub const SW_SHOW: i32 = 5;

/// Message: give a window its font.
pub const WM_SETFONT: u32 = 0x0030;

} // verus!
