//! Native constants, and the helpers that pack and unpack native words.
//!
//! The values are fixed by the platform's headers; only their names and the
//! word helpers carry meaning here.

use vstd::prelude::*;

verus! {

/// Low 16 bits of a native 32-bit word.
pub fn loword(w: u32) -> (r: u16)
    ensures
        r == (w & 0xFFFFu32) as u16,
{
    proof {
        assert(w as u16 == (w & 0xFFFFu32) as u16) by (bit_vector);
    }
    w as u16
}

/// High 16 bits of a native 32-bit word.
pub fn hiword(w: u32) -> (r: u16)
    ensures
        r == (w >> 16u32) as u16,
{
    (w >> 16) as u16
}

/// Widens a small integer resource identifier to the pointer-sized value the
/// platform reads it as.
#[allow(non_snake_case)]
pub fn MAKEINTRESOURCEW(i: u16) -> (r: usize)
    ensures
        r == i as usize,
{
    i as usize
}

/// Resource identifier of the arrow cursor.
pub const IDC_ARROW: usize = 32512;

/// Redraw the full window if the client area's height changes.
pub const CS_VREDRAW: u32 = 0x0001;

/// Redraw the full window if the client area's width changes.
pub const CS_HREDRAW: u32 = 0x0002;

/// Each window of this class gets a unique device context.
pub const CS_OWNDC: u32 = 0x0020;

/// Forces a top-level window onto the taskbar when the window is visible.
pub const WS_EX_APPWINDOW: u32 = 0x00040000;

/// The window has a border with a raised edge.
pub const WS_EX_WINDOWEDGE: u32 = 0x00000100;

/// The window has a border with a sunken edge.
pub const WS_EX_CLIENTEDGE: u32 = 0x00000200;

/// The window is an overlapped window.
pub const WS_EX_OVERLAPPEDWINDOW: u32 = WS_EX_WINDOWEDGE | WS_EX_CLIENTEDGE;

/// The window is an overlapped window.
pub const WS_OVERLAPPED: u32 = 0x00000000;

/// The window has a title bar.
pub const WS_CAPTION: u32 = 0x00C00000;

/// The window has a window menu on its title bar.
pub const WS_SYSMENU: u32 = 0x00080000;

/// The window has a sizing border.
pub const WS_THICKFRAME: u32 = 0x00040000;

/// The window has a minimize button.
pub const WS_MINIMIZEBOX: u32 = 0x00020000;

/// The window has a maximize button.
pub const WS_MAXIMIZEBOX: u32 = 0x00010000;

/// The window is an overlapped window with the full decoration set.
pub const WS_OVERLAPPEDWINDOW: u32 = WS_OVERLAPPED | WS_CAPTION | WS_SYSMENU | WS_THICKFRAME
    | WS_MINIMIZEBOX | WS_MAXIMIZEBOX;

/// Excludes the area occupied by child windows when drawing.
pub const WS_CLIPCHILDREN: u32 = 0x02000000;

/// Clips child windows relative to each other.
pub const WS_CLIPSIBLINGS: u32 = 0x04000000;

/// The window is initially visible.
pub const WS_VISIBLE: u32 = 0x10000000;

/// Activates the window and displays it in its current size and position.
pub const SW_SHOW: i32 = 5;

/// Sent as a signal that a window or an application should terminate.
pub const WM_CLOSE: u32 = 0x0010;

/// Sent when a window is being destroyed.
pub const WM_DESTROY: u32 = 0x0002;

/// Sent when part of a window should be repainted.
pub const WM_PAINT: u32 = 0x000F;

/// Indicates a request to terminate the application.
pub const WM_QUIT: u32 = 0x0012;

/// Non-client create: first message a new window receives.
pub const WM_NCCREATE: u32 = 0x0081;

/// Window-procedure result that lets non-client creation go on.
pub const WM_NCCREATE_CONTINUE_CREATION: isize = 1;

/// Window-procedure result that halts non-client creation.
pub const WM_NCCREATE_HALT_CREATION: isize = 0;

/// Sent while a window is being created.
pub const WM_CREATE: u32 = 0x0001;

/// Window-procedure result that lets creation go on.
pub const WM_CREATE_CONTINUE_CREATION: isize = 0;

/// Window-procedure result that halts creation.
pub const WM_CREATE_HALT_CREATION: isize = -1;

/// Pixel data is RGBA.
pub const PFD_TYPE_RGBA: u8 = 0;

/// Pixel data is palette-indexed.
pub const PFD_TYPE_COLORINDEX: u8 = 1;

/// The main drawing plane.
pub const PFD_MAIN_PLANE: u8 = 0;

/// The overlay plane.
pub const PFD_OVERLAY_PLANE: u8 = 1;

/// The underlay plane.
pub const PFD_UNDERLAY_PLANE: u8 = 0xFF;

/// The buffer is double-buffered.
pub const PFD_DOUBLEBUFFER: u32 = 0x00000001;

/// The buffer is stereoscopic.
pub const PFD_STEREO: u32 = 0x00000002;

/// The buffer can draw to a window.
pub const PFD_DRAW_TO_WINDOW: u32 = 0x00000004;

/// The buffer can draw to a memory bitmap.
pub const PFD_DRAW_TO_BITMAP: u32 = 0x00000008;

/// The buffer supports GDI drawing.
pub const PFD_SUPPORT_GDI: u32 = 0x00000010;

/// The buffer supports OpenGL drawing.
pub const PFD_SUPPORT_OPENGL: u32 = 0x00000020;

/// The pixel format is a generic (software) one.
pub const PFD_GENERIC_FORMAT: u32 = 0x00000040;

/// The buffer uses RGBA pixels on a palette-managed device.
pub const PFD_NEED_PALETTE: u32 = 0x00000080;

/// The hardware palette must match the logical palette.
pub const PFD_NEED_SYSTEM_PALETTE: u32 = 0x00000100;

/// Buffer swaps exchange front and back.
pub const PFD_SWAP_EXCHANGE: u32 = 0x00000200;

/// Buffer swaps copy back to front.
pub const PFD_SWAP_COPY: u32 = 0x00000400;

/// Each layer swaps independently.
pub const PFD_SWAP_LAYER_BUFFERS: u32 = 0x00000800;

/// A generic format with hardware acceleration.
pub const PFD_GENERIC_ACCELERATED: u32 = 0x00001000;

/// The buffer supports DirectDraw.
pub const PFD_SUPPORT_DIRECTDRAW: u32 = 0x00002000;

/// The buffer is Direct3D accelerated.
pub const PFD_DIRECT3D_ACCELERATED: u32 = 0x00004000;

/// The buffer supports composition.
pub const PFD_SUPPORT_COMPOSITION: u32 = 0x00008000;

/// Depth-buffer choice is left to the driver (format choice only).
pub const PFD_DEPTH_DONTCARE: u32 = 0x20000000;

/// Double-buffering choice is left to the driver (format choice only).
pub const PFD_DOUBLEBUFFER_DONTCARE: u32 = 0x40000000;

/// Stereo choice is left to the driver (format choice only).
pub const PFD_STEREO_DONTCARE: u32 = 0x80000000;

/// Index of the user-data slot of a window.
pub const GWLP_USERDATA: i32 = -21;

/// Peeked messages stay in the queue.
pub const PM_NOREMOVE: u32 = 0x0000;

/// Peeked messages are removed from the queue.
pub const PM_REMOVE: u32 = 0x0001;

/// The peek does not release threads waiting on this thread's idleness.
pub const PM_NOYIELD: u32 = 0x0002;

} // verus!
