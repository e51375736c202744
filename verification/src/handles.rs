//! Opaque native handles.
//!
//! A handle is a machine word naming a native resource. Copying the word is
//! cheap and safe; exactly one owner is responsible for the matching destroy
//! call. Zero is the null value of every handle kind.

use vstd::prelude::*;

verus! {

/// An opaque native handle to a generic native resource.
#[derive(Debug, Clone, Copy, PartialEq, Eq, Structural)]
pub struct HANDLE(pub usize);

impl HANDLE {
    /// The null handle.
    pub fn null() -> (r: Self)
        ensures
            r.0 == 0,
    {
        HANDLE(0)
    }

    /// Whether this is the null handle.
    pub fn is_null(self) -> (r: bool)
        ensures
            r == (self.0 == 0),
    {
        self.0 == 0
    }

    /// Whether this handle names a resource.
    pub fn is_not_null(self) -> (r: bool)
        ensures
            r == (self.0 != 0),
    {
        self.0 != 0
    }
}

impl Default for HANDLE {
    fn default() -> (r: Self)
        ensures
            r.0 == 0,
    {
        HANDLE(0)
    }
}

/// An opaque native handle to a paint brush.
#[derive(Debug, Clone, Copy, PartialEq, Eq, Structural)]
pub struct HBRUSH(pub usize);

impl HBRUSH {
    /// The null handle.
    pub fn null() -> (r: Self)
        ensures
            r.0 == 0,
    {
        HBRUSH(0)
    }

    /// Whether this is the null handle.
    pub fn is_null(self) -> (r: bool)
        ensures
            r == (self.0 == 0),
    {
        self.0 == 0
    }

    /// Whether this handle names a resource.
    pub fn is_not_null(self) -> (r: bool)
        ensures
            r == (self.0 != 0),
    {
        self.0 != 0
    }
}

impl Default for HBRUSH {
    fn default() -> (r: Self)
        ensures
            r.0 == 0,
    {
        HBRUSH(0)
    }
}

/// An opaque native handle to a cursor.
#[derive(Debug, Clone, Copy, PartialEq, Eq, Structural)]
pub struct HCURSOR(pub usize);

impl HCURSOR {
    /// The null handle.
    pub fn null() -> (r: Self)
        ensures
            r.0 == 0,
    {
        HCURSOR(0)
    }

    /// Whether this is the null handle.
    pub fn is_null(self) -> (r: bool)
        ensures
            r == (self.0 == 0),
    {
        self.0 == 0
    }

    /// Whether this handle names a resource.
    pub fn is_not_null(self) -> (r: bool)
        ensures
            r == (self.0 != 0),
    {
        self.0 != 0
    }
}

impl Default for HCURSOR {
    fn default() -> (r: Self)
        ensures
            r.0 == 0,
    {
        HCURSOR(0)
    }
}

/// An opaque native handle to a icon.
#[derive(Debug, Clone, Copy, PartialEq, Eq, Structural)]
pub struct HICON(pub usize);

impl HICON {
    /// The null handle.
    pub fn null() -> (r: Self)
        ensures
            r.0 == 0,
    {
        HICON(0)
    }

    /// Whether this is the null handle.
    pub fn is_null(self) -> (r: bool)
        ensures
            r == (self.0 == 0),
    {
        self.0 == 0
    }

    /// Whether this handle names a resource.
    pub fn is_not_null(self) -> (r: bool)
        ensures
            r == (self.0 != 0),
    {
        self.0 != 0
    }
}

impl Default for HICON {
    fn default() -> (r: Self)
        ensures
            r.0 == 0,
    {
        HICON(0)
    }
}

/// An opaque native handle to a module instance.
#[derive(Debug, Clone, Copy, PartialEq, Eq, Structural)]
pub struct HINSTANCE(pub usize);

impl HINSTANCE {
    /// The null handle.
    pub fn null() -> (r: Self)
        ensures
            r.0 == 0,
    {
        HINSTANCE(0)
    }

    /// Whether this is the null handle.
    pub fn is_null(self) -> (r: bool)
        ensures
            r == (self.0 == 0),
    {
        self.0 == 0
    }

    /// Whether this handle names a resource.
    pub fn is_not_null(self) -> (r: bool)
        ensures
            r == (self.0 != 0),
    {
        self.0 != 0
    }
}

impl Default for HINSTANCE {
    fn default() -> (r: Self)
        ensures
            r.0 == 0,
    {
        HINSTANCE(0)
    }
}

/// An opaque native handle to a loaded module.
#[derive(Debug, Clone, Copy, PartialEq, Eq, Structural)]
pub struct HMODULE(pub usize);

impl HMODULE {
    /// The null handle.
    pub fn null() -> (r: Self)
        ensures
            r.0 == 0,
    {
        HMODULE(0)
    }

    /// Whether this is the null handle.
    pub fn is_null(self) -> (r: bool)
        ensures
            r == (self.0 == 0),
    {
        self.0 == 0
    }

    /// Whether this handle names a resource.
    pub fn is_not_null(self) -> (r: bool)
        ensures
            r == (self.0 != 0),
    {
        self.0 != 0
    }
}

impl Default for HMODULE {
    fn default() -> (r: Self)
        ensures
            r.0 == 0,
    {
        HMODULE(0)
    }
}

/// An opaque native handle to a menu.
#[derive(Debug, Clone, Copy, PartialEq, Eq, Structural)]
pub struct HMENU(pub usize);

impl HMENU {
    /// The null handle.
    pub fn null() -> (r: Self)
        ensures
            r.0 == 0,
    {
        HMENU(0)
    }

    /// Whether this is the null handle.
    pub fn is_null(self) -> (r: bool)
        ensures
            r == (self.0 == 0),
    {
        self.0 == 0
    }

    /// Whether this handle names a resource.
    pub fn is_not_null(self) -> (r: bool)
        ensures
            r == (self.0 != 0),
    {
        self.0 != 0
    }
}

impl Default for HMENU {
    fn default() -> (r: Self)
        ensures
            r.0 == 0,
    {
        HMENU(0)
    }
}

/// An opaque native handle to a local memory allocation.
#[derive(Debug, Clone, Copy, PartialEq, Eq, Structural)]
pub struct HLOCAL(pub usize);

impl HLOCAL {
    /// The null handle.
    pub fn null() -> (r: Self)
        ensures
            r.0 == 0,
    {
        HLOCAL(0)
    }

    /// Whether this is the null handle.
    pub fn is_null(self) -> (r: bool)
        ensures
            r == (self.0 == 0),
    {
        self.0 == 0
    }

    /// Whether this handle names a resource.
    pub fn is_not_null(self) -> (r: bool)
        ensures
            r == (self.0 != 0),
    {
        self.0 != 0
    }
}

impl Default for HLOCAL {
    fn default() -> (r: Self)
        ensures
            r.0 == 0,
    {
        HLOCAL(0)
    }
}

/// An opaque native handle to a window.
#[derive(Debug, Clone, Copy, PartialEq, Eq, Structural)]
pub struct HWND(pub usize);

impl HWND {
    /// The null handle.
    pub fn null() -> (r: Self)
        ensures
            r.0 == 0,
    {
        HWND(0)
    }

    /// Whether this is the null handle.
    pub fn is_null(self) -> (r: bool)
        ensures
            r == (self.0 == 0),
    {
        self.0 == 0
    }

    /// Whether this handle names a resource.
    pub fn is_not_null(self) -> (r: bool)
        ensures
            r == (self.0 != 0),
    {
        self.0 != 0
    }
}

impl Default for HWND {
    fn default() -> (r: Self)
        ensures
            r.0 == 0,
    {
        HWND(0)
    }
}

/// An opaque native handle to a device context.
#[derive(Debug, Clone, Copy, PartialEq, Eq, Structural)]
pub struct HDC(pub usize);

impl HDC {
    /// The null handle.
    pub fn null() -> (r: Self)
        ensures
            r.0 == 0,
    {
        HDC(0)
    }

    /// Whether this is the null handle.
    pub fn is_null(self) -> (r: bool)
        ensures
            r == (self.0 == 0),
    {
        self.0 == 0
    }

    /// Whether this handle names a resource.
    pub fn is_not_null(self) -> (r: bool)
        ensures
            r == (self.0 != 0),
    {
        self.0 != 0
    }
}

impl Default for HDC {
    fn default() -> (r: Self)
        ensures
            r.0 == 0,
    {
        HDC(0)
    }
}

/// An opaque native handle to a rendering context.
#[derive(Debug, Clone, Copy, PartialEq, Eq, Structural)]
pub struct HGLRC(pub usize);

impl HGLRC {
    /// The null handle.
    pub fn null() -> (r: Self)
        ensures
            r.0 == 0,
    {
        HGLRC(0)
    }

    /// Whether this is the null handle.
    pub fn is_null(self) -> (r: bool)
        ensures
            r == (self.0 == 0),
    {
        self.0 == 0
    }

    /// Whether this handle names a resource.
    pub fn is_not_null(self) -> (r: bool)
        ensures
            r == (self.0 != 0),
    {
        self.0 != 0
    }
}

impl Default for HGLRC {
    fn default() -> (r: Self)
        ensures
            r.0 == 0,
    {
        HGLRC(0)
    }
}

} // verus!
