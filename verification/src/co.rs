//! Typed constants, one wrapper type per semantic domain.
//!
//! Flags and status codes are strongly-typed wrapper integers so that a value
//! from one domain cannot be passed where another domain is expected, at zero
//! representation cost.  Combination and test operations are defined on the
//! wrapper types that the library combines or tests.

#![allow(non_camel_case_types)]

use vstd::prelude::*;

verus! {

/// A native status code, as returned by the "get last error" query.
#[derive(Clone, Copy, PartialEq, Eq, Structural, Debug, Default)]
pub struct ERROR(pub u32);

/// The result type of the native call boundary: `Ok` on success, or the
/// native status code that the failed call reported.
pub type SysResult<T> = Result<T, ERROR>;

/// A COM operation status code.
#[derive(Clone, Copy, PartialEq, Eq, Structural, Debug, Default)]
pub struct HRESULT(pub u32);

/// The result type of COM operations.
pub type HrResult<T> = Result<T, HRESULT>;

impl ERROR {
    /// The operation completed successfully.
    pub fn success() -> (e: ERROR)
        ensures
            e.0 == 0,
    {
        ERROR(0)
    }

    /// The system cannot find the file specified.
    pub fn file_not_found() -> (e: ERROR)
        ensures
            e.0 == 2,
    {
        ERROR(2)
    }

    /// Access is denied.
    pub fn access_denied() -> (e: ERROR)
        ensures
            e.0 == 5,
    {
        ERROR(5)
    }

    /// The handle is invalid.
    pub fn invalid_handle() -> (e: ERROR)
        ensures
            e.0 == 6,
    {
        ERROR(6)
    }

    /// Not enough resources are available to complete the acquisition.
    pub fn not_enough_memory() -> (e: ERROR)
        ensures
            e.0 == 8,
    {
        ERROR(8)
    }

    /// One of the parameters is invalid.
    pub fn invalid_parameter() -> (e: ERROR)
        ensures
            e.0 == 87,
    {
        ERROR(87)
    }

    /// There is not enough space on the disk.
    pub fn disk_full() -> (e: ERROR)
        ensures
            e.0 == 112,
    {
        ERROR(112)
    }

    /// An attempt was made to move the file pointer before the beginning of
    /// the file.
    pub fn negative_seek() -> (e: ERROR)
        ensures
            e.0 == 131,
    {
        ERROR(131)
    }

    /// Cannot create a file when that file already exists.
    pub fn already_exists() -> (e: ERROR)
        ensures
            e.0 == 183,
    {
        ERROR(183)
    }
}

impl HRESULT {
    /// The COM call succeeded.
    pub fn s_ok() -> (h: HRESULT)
        ensures
            h.0 == 0,
    {
        HRESULT(0)
    }

    /// The COM call succeeded and reports a false condition.
    pub fn s_false() -> (h: HRESULT)
        ensures
            h.0 == 1,
    {
        HRESULT(1)
    }

    /// The COM call failed: invalid pointer.
    pub fn e_pointer() -> (h: HRESULT)
        ensures
            h.0 == 0x80004003,
    {
        HRESULT(0x80004003)
    }
}

/// Generic access rights for acquisition calls.
#[derive(Clone, Copy, PartialEq, Eq, Structural, Debug, Default)]
pub struct GENERIC(pub u32);

impl GENERIC {
    /// Read access.
    pub fn read() -> (g: GENERIC)
        ensures
            g.0 == 0x8000_0000u32,
    {
        GENERIC(0x8000_0000)
    }

    /// Write access.
    pub fn write() -> (g: GENERIC)
        ensures
            g.0 == 0x4000_0000u32,
    {
        GENERIC(0x4000_0000)
    }

    /// Bitwise combination with another access right of the same domain.
    pub fn or(self, other: GENERIC) -> (g: GENERIC)
        ensures
            g.0 == (self.0 | other.0),
    {
        GENERIC(self.0 | other.0)
    }

    /// Whether every bit of `other` is set in `self`.
    pub fn has(self, other: GENERIC) -> (b: bool)
        ensures
            b == ((self.0 & other.0) == other.0),
    {
        (self.0 & other.0) == other.0
    }
}

/// Sharing mode for file acquisition.
#[derive(Clone, Copy, PartialEq, Eq, Structural, Debug, Default)]
pub struct FILE_SHARE(pub u32);

impl FILE_SHARE {
    /// Other openers may read.
    pub fn read() -> (s: FILE_SHARE)
        ensures
            s.0 == 1,
    {
        FILE_SHARE(1)
    }

    /// Other openers may write.
    pub fn write() -> (s: FILE_SHARE)
        ensures
            s.0 == 2,
    {
        FILE_SHARE(2)
    }
}

/// Creation disposition for file acquisition.
#[derive(Clone, Copy, PartialEq, Eq, Structural, Debug, Default)]
pub struct DISPOSITION(pub u32);

impl DISPOSITION {
    /// Create a new file; fail if it exists.
    pub fn create_new() -> (d: DISPOSITION)
        ensures
            d.0 == 1,
    {
        DISPOSITION(1)
    }

    /// Open an existing file; fail if it does not exist.
    pub fn open_existing() -> (d: DISPOSITION)
        ensures
            d.0 == 3,
    {
        DISPOSITION(3)
    }

    /// Open an existing file, or create it if it does not exist.
    pub fn open_always() -> (d: DISPOSITION)
        ensures
            d.0 == 4,
    {
        DISPOSITION(4)
    }
}

/// File attribute flags.
#[derive(Clone, Copy, PartialEq, Eq, Structural, Debug, Default)]
pub struct FILE_ATTRIBUTE(pub u32);

impl FILE_ATTRIBUTE {
    /// No special attributes.
    pub fn normal() -> (a: FILE_ATTRIBUTE)
        ensures
            a.0 == 0x80,
    {
        FILE_ATTRIBUTE(0x80)
    }
}

/// Origin for moving a file pointer.
#[derive(Clone, Copy, PartialEq, Eq, Structural, Debug)]
pub enum FILE_STARTING_POINT {
    /// From the beginning of the file.
    BEGIN,
    /// From the current pointer position.
    CURRENT,
    /// From the end of the file.
    END,
}

/// Button image list alignment.
#[derive(Clone, Copy, PartialEq, Eq, Structural, Debug, Default)]
pub struct BIA(pub u32);

/// Split button info mask.
#[derive(Clone, Copy, PartialEq, Eq, Structural, Debug, Default)]
pub struct BCSIF(pub u32);

/// Split button style.
#[derive(Clone, Copy, PartialEq, Eq, Structural, Debug, Default)]
pub struct BCSS(pub u32);

/// Image list drawing style.
#[derive(Clone, Copy, PartialEq, Eq, Structural, Debug, Default)]
pub struct ILD(pub u32);

/// Raster operation code.
#[derive(Clone, Copy, PartialEq, Eq, Structural, Debug, Default)]
pub struct ROP(pub u32);

/// Image list state.
#[derive(Clone, Copy, PartialEq, Eq, Structural, Debug, Default)]
pub struct ILS(pub u32);

/// Link item mask.
#[derive(Clone, Copy, PartialEq, Eq, Structural, Debug, Default)]
pub struct LIF(pub u32);

/// Link item state.
#[derive(Clone, Copy, PartialEq, Eq, Structural, Debug, Default)]
pub struct LIS(pub u32);

/// Button hot item change flags.
#[derive(Clone, Copy, PartialEq, Eq, Structural, Debug, Default)]
pub struct HICF(pub u32);

/// Custom draw stage.
#[derive(Clone, Copy, PartialEq, Eq, Structural, Debug, Default)]
pub struct CDDS(pub u32);

/// Custom draw item state.
#[derive(Clone, Copy, PartialEq, Eq, Structural, Debug, Default)]
pub struct CDIS(pub u32);

/// Date-time picker change flags.
#[derive(Clone, Copy, PartialEq, Eq, Structural, Debug, Default)]
pub struct GDT(pub u32);

/// List view item state flags.
#[derive(Clone, Copy, PartialEq, Eq, Structural, Debug, Default)]
pub struct LVIS(pub u32);

impl LVIS {
    /// The item has the focus.
    pub fn focused() -> (s: LVIS)
        ensures
            s.0 == 1,
    {
        LVIS(1)
    }

    /// The item is selected.
    pub fn selected() -> (s: LVIS)
        ensures
            s.0 == 2,
    {
        LVIS(2)
    }

    /// Bitwise combination with another state flag of the same domain.
    pub fn or(self, other: LVIS) -> (s: LVIS)
        ensures
            s.0 == (self.0 | other.0),
    {
        LVIS(self.0 | other.0)
    }

    /// Whether every bit of `other` is set in `self`.
    pub fn has(self, other: LVIS) -> (b: bool)
        ensures
            b == ((self.0 & other.0) == other.0),
    {
        (self.0 & other.0) == other.0
    }
}

/// List view item mask flags.
#[derive(Clone, Copy, PartialEq, Eq, Structural, Debug, Default)]
pub struct LVIF(pub u32);

/// List view key event flags.
#[derive(Clone, Copy, PartialEq, Eq, Structural, Debug, Default)]
pub struct LVKF(pub u32);

/// Empty markup flags.
#[derive(Clone, Copy, PartialEq, Eq, Structural, Debug, Default)]
pub struct EMF(pub u32);

/// Virtual key code.
#[derive(Clone, Copy, PartialEq, Eq, Structural, Debug, Default)]
pub struct VK(pub u16);

/// Async draw retry flags.
#[derive(Clone, Copy, PartialEq, Eq, Structural, Debug, Default)]
pub struct ADRF(pub u32);

/// List view column mask flags.
#[derive(Clone, Copy, PartialEq, Eq, Structural, Debug, Default)]
pub struct LVCF(pub u32);

/// List view column format, column variant.
#[derive(Clone, Copy, PartialEq, Eq, Structural, Debug, Default)]
pub struct LVCFMT_C(pub i32);

/// List view column format, item variant.
#[derive(Clone, Copy, PartialEq, Eq, Structural, Debug, Default)]
pub struct LVCFMT_I(pub i32);

/// List view find flags.
#[derive(Clone, Copy, PartialEq, Eq, Structural, Debug, Default)]
pub struct LVFI(pub u32);

/// Search direction for list view key navigation.
#[derive(Clone, Copy, PartialEq, Eq, Structural, Debug, Default)]
pub struct VK_DIR(pub u16);

/// List view info tip flags.
#[derive(Clone, Copy, PartialEq, Eq, Structural, Debug, Default)]
pub struct LVGIT(pub u32);

/// List view group identifier.
#[derive(Clone, Copy, PartialEq, Eq, Structural, Debug, Default)]
pub struct LVI_GROUPID(pub i32);

/// Item rectangle portion selector for list view queries.
#[derive(Clone, Copy, PartialEq, Eq, Structural, Debug, Default)]
pub struct LVIR(pub u32);

} // verus!
