//! Models of the native windowing structures.
//!
//! Each struct mirrors the fields of its native counterpart, with handles
//! and pointers carried as opaque machine words. The native structs also
//! carry their own byte size in a leading field; the sizes here are the
//! fixed 64-bit layouts from the platform headers, named as constants.

use vstd::prelude::*;

use crate::handles::HBRUSH;
use crate::handles::HCURSOR;
use crate::handles::HICON;
use crate::handles::HINSTANCE;
use crate::handles::HMENU;
use crate::handles::HWND;

verus! {

/// Byte size of the native window-class structure on a 64-bit build.
pub const WNDCLASSEXW_NATIVE_SIZE: u32 = 80;

/// Byte size of the native pixel-format descriptor.
pub const PIXELFORMATDESCRIPTOR_NATIVE_SIZE: u16 = 40;

/// A window class registration request.
///
/// `cbSize` must hold the native struct's byte size; the `Default` value
/// takes care of that. Pointer-valued fields (the window procedure and the
/// two name pointers) are opaque words, zero meaning "none".
#[allow(non_snake_case)]
#[derive(Debug, Clone, Copy)]
pub struct WNDCLASSEXW {
    pub cbSize: u32,
    pub style: u32,
    pub lpfnWndProc: usize,
    pub cbClsExtra: i32,
    pub cbWndExtra: i32,
    pub hInstance: HINSTANCE,
    pub hIcon: HICON,
    pub hCursor: HCURSOR,
    pub hbrBackground: HBRUSH,
    pub lpszMenuName: usize,
    pub lpszClassName: usize,
    pub hIconSm: HICON,
}

impl Default for WNDCLASSEXW {
    /// Everything zeroed but the mandatory size field.
    fn default() -> (r: Self)
        ensures
            r.cbSize == WNDCLASSEXW_NATIVE_SIZE,
            r.style == 0,
            r.lpfnWndProc == 0,
            r.cbClsExtra == 0,
            r.cbWndExtra == 0,
            r.hInstance.0 == 0,
            r.hIcon.0 == 0,
            r.hCursor.0 == 0,
            r.hbrBackground.0 == 0,
            r.lpszMenuName == 0,
            r.lpszClassName == 0,
            r.hIconSm.0 == 0,
    {
        WNDCLASSEXW {
            cbSize: WNDCLASSEXW_NATIVE_SIZE,
            style: 0,
            lpfnWndProc: 0,
            cbClsExtra: 0,
            cbWndExtra: 0,
            hInstance: HINSTANCE(0),
            hIcon: HICON(0),
            hCursor: HCURSOR(0),
            hbrBackground: HBRUSH(0),
            lpszMenuName: 0,
            lpszClassName: 0,
            hIconSm: HICON(0),
        }
    }
}

/// A point in window coordinates.
#[derive(Debug, Clone, Copy)]
pub struct POINT {
    pub x: i32,
    pub y: i32,
}

/// A rectangle in window coordinates.
#[derive(Debug, Clone, Copy)]
pub struct RECT {
    pub left: i32,
    pub top: i32,
    pub right: i32,
    pub bottom: i32,
}

/// Message information from a thread's message queue.
#[allow(non_snake_case)]
#[derive(Debug, Clone, Copy)]
pub struct MSG {
    pub hwnd: HWND,
    pub message: u32,
    pub wParam: usize,
    pub lParam: isize,
    pub time: u32,
    pub pt: POINT,
    pub lPrivate: u32,
}

impl Default for MSG {
    /// Everything zeroed, ready to receive a message.
    fn default() -> (r: Self)
        ensures
            r.hwnd.0 == 0,
            r.message == 0,
            r.wParam == 0,
            r.lParam == 0,
            r.time == 0,
            r.pt.x == 0,
            r.pt.y == 0,
            r.lPrivate == 0,
    {
        MSG {
            hwnd: HWND(0),
            message: 0,
            wParam: 0,
            lParam: 0,
            time: 0,
            pt: POINT { x: 0, y: 0 },
            lPrivate: 0,
        }
    }
}

/// Describes the pixel format of a drawing surface.
///
/// All fields are plain integers; `nSize` and `nVersion` are fixed by the
/// platform and the `Default` value fills them in.
#[allow(non_snake_case)]
#[derive(Debug, Clone, Copy)]
pub struct PIXELFORMATDESCRIPTOR {
    pub nSize: u16,
    pub nVersion: u16,
    pub dwFlags: u32,
    pub iPixelType: u8,
    pub cColorBits: u8,
    pub cRedBits: u8,
    pub cRedShift: u8,
    pub cGreenBits: u8,
    pub cGreenShift: u8,
    pub cBlueBits: u8,
    pub cBlueShift: u8,
    pub cAlphaBits: u8,
    pub cAlphaShift: u8,
    pub cAccumBits: u8,
    pub cAccumRedBits: u8,
    pub cAccumGreenBits: u8,
    pub cAccumBlueBits: u8,
    pub cAccumAlphaBits: u8,
    pub cDepthBits: u8,
    pub cStencilBits: u8,
    pub cAuxBuffers: u8,
    pub iLayerType: u8,
    pub bReserved: u8,
    pub dwLayerMask: u32,
    pub dwVisibleMask: u32,
    pub dwDamageMask: u32,
}

impl PIXELFORMATDESCRIPTOR {
    /// Whether only the mandatory size and version fields are set.
    pub open spec fn is_blank(self) -> bool {
        &&& self.nSize == PIXELFORMATDESCRIPTOR_NATIVE_SIZE
        &&& self.nVersion == 1
        &&& self.dwFlags == 0
        &&& self.iPixelType == 0
        &&& self.cColorBits == 0
        &&& self.cRedBits == 0
        &&& self.cRedShift == 0
        &&& self.cGreenBits == 0
        &&& self.cGreenShift == 0
        &&& self.cBlueBits == 0
        &&& self.cBlueShift == 0
        &&& self.cAlphaBits == 0
        &&& self.cAlphaShift == 0
        &&& self.cAccumBits == 0
        &&& self.cAccumRedBits == 0
        &&& self.cAccumGreenBits == 0
        &&& self.cAccumBlueBits == 0
        &&& self.cAccumAlphaBits == 0
        &&& self.cDepthBits == 0
        &&& self.cStencilBits == 0
        &&& self.cAuxBuffers == 0
        &&& self.iLayerType == 0
        &&& self.bReserved == 0
        &&& self.dwLayerMask == 0
        &&& self.dwVisibleMask == 0
        &&& self.dwDamageMask == 0
    }
}

impl Default for PIXELFORMATDESCRIPTOR {
    /// Everything zeroed but the mandatory size and version fields.
    fn default() -> (r: Self)
        ensures
            r.is_blank(),
    {
        PIXELFORMATDESCRIPTOR {
            nSize: PIXELFORMATDESCRIPTOR_NATIVE_SIZE,
            nVersion: 1,
            dwFlags: 0,
            iPixelType: 0,
            cColorBits: 0,
            cRedBits: 0,
            cRedShift: 0,
            cGreenBits: 0,
            cGreenShift: 0,
            cBlueBits: 0,
            cBlueShift: 0,
            cAlphaBits: 0,
            cAlphaShift: 0,
            cAccumBits: 0,
            cAccumRedBits: 0,
            cAccumGreenBits: 0,
            cAccumBlueBits: 0,
            cAccumAlphaBits: 0,
            cDepthBits: 0,
            cStencilBits: 0,
            cAuxBuffers: 0,
            iLayerType: 0,
            bReserved: 0,
            dwLayerMask: 0,
            dwVisibleMask: 0,
            dwDamageMask: 0,
        }
    }
}

/// The initialization parameters handed to a window procedure during
/// window creation.
#[allow(non_snake_case)]
#[derive(Debug, Clone, Copy)]
pub struct CREATESTRUCTW {
    pub lpCreateParams: usize,
    pub hInstance: HINSTANCE,
    pub hMenu: HMENU,
    pub hwndParent: HWND,
    pub cy: i32,
    pub cx: i32,
    pub y: i32,
    pub x: i32,
    pub style: i32,
    pub lpszName: usize,
    pub lpszClass: usize,
    pub dwExStyle: u32,
}

} // verus!
