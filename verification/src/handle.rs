//! Raw handle types and the capability traits they implement.
//!
//! A raw handle is a copyable, comparable wrapper around a machine-word
//! identifier with a distinguished null sentinel.  It carries no ownership
//! semantics: it is a typed identifier, never itself a resource.  The
//! capability traits group handle types so that guards and shared helpers can
//! be written once per release discipline instead of once per handle type.

use vstd::prelude::*;

verus! {

/// A typed wrapper around a native machine-word handle value.
///
/// `raw() == 0` is the null sentinel: no method of a handle may cause a
/// release, and a guard over a null handle performs no release action.
pub trait Handle: Sized + Copy {
    /// The wrapped machine word, in specifications.
    spec fn id(self) -> u64;

    /// Wraps a machine word.  The caller asserts that the value came from a
    /// legitimate acquisition or is null.
    fn from_raw(raw: u64) -> (h: Self)
        ensures
            h.id() == raw,
    ;

    /// The null handle of this type.
    fn null() -> (h: Self)
        ensures
            h.id() == 0,
    ;

    /// Exposes the wrapped machine word, for passing into native calls.
    fn as_raw(self) -> (raw: u64)
        ensures
            raw == self.id(),
    ;

    /// Whether this is the null sentinel.
    fn is_null(self) -> (b: bool)
        ensures
            b == (self.id() == 0),
    ;
}

/// Capability: the handle refers to a kernel object, released by closing it.
pub trait KernelObject: Handle {
}

/// Capability: the handle refers to a GDI object, released by deleting it,
/// and selectable into a device context.
pub trait GdiObject: Handle {
}

/// Handle to an open file.
#[derive(Clone, Copy, PartialEq, Eq, Structural, Debug, Default)]
pub struct HFILE {
    pub raw: u64,
}

/// Handle to a pen GDI object.
#[derive(Clone, Copy, PartialEq, Eq, Structural, Debug, Default)]
pub struct HPEN {
    pub raw: u64,
}

/// Handle to a brush GDI object.
#[derive(Clone, Copy, PartialEq, Eq, Structural, Debug, Default)]
pub struct HBRUSH {
    pub raw: u64,
}

/// Handle to a device context.
#[derive(Clone, Copy, PartialEq, Eq, Structural, Debug, Default)]
pub struct HDC {
    pub raw: u64,
}

/// Handle to a window.
#[derive(Clone, Copy, PartialEq, Eq, Structural, Debug, Default)]
pub struct HWND {
    pub raw: u64,
}

/// Handle to an image list.
#[derive(Clone, Copy, PartialEq, Eq, Structural, Debug, Default)]
pub struct HIMAGELIST {
    pub raw: u64,
}

/// Handle to a tree view item.
#[derive(Clone, Copy, PartialEq, Eq, Structural, Debug, Default)]
pub struct HTREEITEM {
    pub raw: u64,
}

/// Handle to a native heap allocator.
#[derive(Clone, Copy, PartialEq, Eq, Structural, Debug, Default)]
pub struct HHEAP {
    pub raw: u64,
}

/// Handle to a block allocated from a native heap.
#[derive(Clone, Copy, PartialEq, Eq, Structural, Debug, Default)]
pub struct HHEAPMEM {
    pub raw: u64,
}

/// Handle to a mapped view of a file mapping.
#[derive(Clone, Copy, PartialEq, Eq, Structural, Debug, Default)]
pub struct HMAPVIEW {
    pub raw: u64,
}

/// A COM interface pointer, identified by the object it refers to.
#[derive(Clone, Copy, PartialEq, Eq, Structural, Debug, Default)]
pub struct COMPTR {
    pub raw: u64,
}

impl Handle for HFILE {
    open spec fn id(self) -> u64 {
        self.raw
    }

    fn from_raw(raw: u64) -> Self {
        HFILE { raw }
    }

    fn null() -> Self {
        HFILE { raw: 0 }
    }

    fn as_raw(self) -> u64 {
        self.raw
    }

    fn is_null(self) -> bool {
        self.raw == 0
    }
}

impl KernelObject for HFILE {
}

impl Handle for HPEN {
    open spec fn id(self) -> u64 {
        self.raw
    }

    fn from_raw(raw: u64) -> Self {
        HPEN { raw }
    }

    fn null() -> Self {
        HPEN { raw: 0 }
    }

    fn as_raw(self) -> u64 {
        self.raw
    }

    fn is_null(self) -> bool {
        self.raw == 0
    }
}

impl GdiObject for HPEN {
}

impl Handle for HBRUSH {
    open spec fn id(self) -> u64 {
        self.raw
    }

    fn from_raw(raw: u64) -> Self {
        HBRUSH { raw }
    }

    fn null() -> Self {
        HBRUSH { raw: 0 }
    }

    fn as_raw(self) -> u64 {
        self.raw
    }

    fn is_null(self) -> bool {
        self.raw == 0
    }
}

impl GdiObject for HBRUSH {
}

impl Handle for HDC {
    open spec fn id(self) -> u64 {
        self.raw
    }

    fn from_raw(raw: u64) -> Self {
        HDC { raw }
    }

    fn null() -> Self {
        HDC { raw: 0 }
    }

    fn as_raw(self) -> u64 {
        self.raw
    }

    fn is_null(self) -> bool {
        self.raw == 0
    }
}

impl Handle for HWND {
    open spec fn id(self) -> u64 {
        self.raw
    }

    fn from_raw(raw: u64) -> Self {
        HWND { raw }
    }

    fn null() -> Self {
        HWND { raw: 0 }
    }

    fn as_raw(self) -> u64 {
        self.raw
    }

    fn is_null(self) -> bool {
        self.raw == 0
    }
}

impl Handle for HIMAGELIST {
    open spec fn id(self) -> u64 {
        self.raw
    }

    fn from_raw(raw: u64) -> Self {
        HIMAGELIST { raw }
    }

    fn null() -> Self {
        HIMAGELIST { raw: 0 }
    }

    fn as_raw(self) -> u64 {
        self.raw
    }

    fn is_null(self) -> bool {
        self.raw == 0
    }
}

impl Handle for HTREEITEM {
    open spec fn id(self) -> u64 {
        self.raw
    }

    fn from_raw(raw: u64) -> Self {
        HTREEITEM { raw }
    }

    fn null() -> Self {
        HTREEITEM { raw: 0 }
    }

    fn as_raw(self) -> u64 {
        self.raw
    }

    fn is_null(self) -> bool {
        self.raw == 0
    }
}

impl Handle for HHEAP {
    open spec fn id(self) -> u64 {
        self.raw
    }

    fn from_raw(raw: u64) -> Self {
        HHEAP { raw }
    }

    fn null() -> Self {
        HHEAP { raw: 0 }
    }

    fn as_raw(self) -> u64 {
        self.raw
    }

    fn is_null(self) -> bool {
        self.raw == 0
    }
}

impl Handle for HHEAPMEM {
    open spec fn id(self) -> u64 {
        self.raw
    }

    fn from_raw(raw: u64) -> Self {
        HHEAPMEM { raw }
    }

    fn null() -> Self {
        HHEAPMEM { raw: 0 }
    }

    fn as_raw(self) -> u64 {
        self.raw
    }

    fn is_null(self) -> bool {
        self.raw == 0
    }
}

impl Handle for HMAPVIEW {
    open spec fn id(self) -> u64 {
        self.raw
    }

    fn from_raw(raw: u64) -> Self {
        HMAPVIEW { raw }
    }

    fn null() -> Self {
        HMAPVIEW { raw: 0 }
    }

    fn as_raw(self) -> u64 {
        self.raw
    }

    fn is_null(self) -> bool {
        self.raw == 0
    }
}

impl Handle for COMPTR {
    open spec fn id(self) -> u64 {
        self.raw
    }

    fn from_raw(raw: u64) -> Self {
        COMPTR { raw }
    }

    fn null() -> Self {
        COMPTR { raw: 0 }
    }

    fn as_raw(self) -> u64 {
        self.raw
    }

    fn is_null(self) -> bool {
        self.raw == 0
    }
}

} // verus!
