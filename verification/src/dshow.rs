//! Media-type enumeration over a reference-counted interface.
//!
//! [`IEnumMediaTypes`] owns one reference to its underlying object through
//! a [`ComGuard`], so releasing it decrements the native count exactly
//! once.  The enumeration itself is the one-at-a-time protocol: each `Next`
//! hands out the element under the cursor and advances it, `Skip` jumps,
//! `Reset` restarts, and the end is reported as a plain false, never as an
//! error.

#![allow(non_camel_case_types)]
#![allow(non_snake_case)]

use vstd::prelude::*;

use crate::co::ERROR;
use crate::co::HrResult;
use crate::co::SysResult;
use crate::guard::ComGuard;
use crate::sys::Host;
use crate::sys::HostView;

verus! {

/// The method slots every reference-counted interface starts with, as
/// entry-point addresses.
#[derive(Clone, Copy, PartialEq, Eq, Structural, Debug)]
pub struct IUnknownVT {
    /// Entry point of the interface query slot.
    pub QueryInterface: u64,
    /// Entry point of the reference increment slot.
    pub AddRef: u64,
    /// Entry point of the reference decrement slot.
    pub Release: u64,
}

/// The method slot layout of the media-type enumerator interface, as
/// entry-point addresses.
#[derive(Clone, Copy, PartialEq, Eq, Structural, Debug)]
pub struct IEnumMediaTypesVT {
    /// The slots shared with every reference-counted interface.
    pub IUnknownVT: IUnknownVT,
    /// Entry point of the element retrieval slot.
    pub Next: u64,
    /// Entry point of the skip slot.
    pub Skip: u64,
    /// Entry point of the restart slot.
    pub Reset: u64,
    /// Entry point of the duplication slot.
    pub Clone: u64,
}

/// A media type description, as an enumerator hands it out.
#[derive(Clone, Copy, PartialEq, Eq, Structural, Debug)]
pub struct AM_MEDIA_TYPE {
    /// The major type identifier.
    pub majortype: u64,
    /// The subtype identifier.
    pub subtype: u64,
    /// Size of a sample, in bytes.
    pub lSampleSize: u32,
    /// Whether all samples have that same size.
    pub bFixedSizeSamples: bool,
}

impl AM_MEDIA_TYPE {
    /// An all-zero media type, for receiving an element.
    pub fn zeroed() -> (mt: AM_MEDIA_TYPE)
        ensures
            mt == (AM_MEDIA_TYPE {
                majortype: 0,
                subtype: 0,
                lSampleSize: 0,
                bFixedSizeSamples: false,
            }),
    {
        AM_MEDIA_TYPE { majortype: 0, subtype: 0, lSampleSize: 0, bFixedSizeSamples: false }
    }
}

/// The one-at-a-time enumeration protocol over media types: a cursor over
/// a fixed sequence, with restart.
pub trait dshow_IEnumMediaTypes {
    /// The elements the enumerator walks, in specifications.
    spec fn types_spec(&self) -> Seq<AM_MEDIA_TYPE>;

    /// How many elements were already handed out or skipped.
    spec fn cursor_spec(&self) -> int;

    /// Retrieves the element under the cursor into `mt` and advances;
    /// reports a plain false, with `mt` untouched, once the end is
    /// reached.
    fn Next(&mut self, mt: &mut AM_MEDIA_TYPE) -> (r: HrResult<bool>)
        requires
            0 <= old(self).cursor_spec() <= old(self).types_spec().len(),
        ensures
            final(self).types_spec() == old(self).types_spec(),
            old(self).cursor_spec() < old(self).types_spec().len() ==> r == Ok::<bool, crate::co::HRESULT>(true)
                && *final(mt) == old(self).types_spec()[old(self).cursor_spec()] && final(self).cursor_spec() == old(self).cursor_spec() + 1,
            old(self).cursor_spec() == old(self).types_spec().len() ==> r == Ok::<
                bool,
                crate::co::HRESULT,
            >(false) && *final(mt) == *old(mt) && final(self).cursor_spec() == old(self).cursor_spec(),
    ;

    /// Skips `count` elements; reports a plain false when fewer than
    /// `count` were left, the cursor then resting at the end.
    fn Skip(&mut self, count: u32) -> (r: HrResult<bool>)
        requires
            0 <= old(self).cursor_spec() <= old(self).types_spec().len(),
        ensures
            final(self).types_spec() == old(self).types_spec(),
            final(self).cursor_spec() == (if old(self).cursor_spec() + count <= old(self).types_spec().len() {
                old(self).cursor_spec() + count
            } else {
                old(self).types_spec().len() as int
            }),
            r == Ok::<bool, crate::co::HRESULT>(
                old(self).cursor_spec() + count <= old(self).types_spec().len(),
            ),
    ;

    /// Moves the cursor back to the first element.
    fn Reset(&mut self) -> (r: HrResult<()>)
        ensures
            final(self).types_spec() == old(self).types_spec(),
            final(self).cursor_spec() == 0,
            r == Ok::<(), crate::co::HRESULT>(()),
    ;
}

/// An enumerator over media types, owning one reference to its underlying
/// object.
pub struct IEnumMediaTypes {
    com: ComGuard,
    types: Vec<AM_MEDIA_TYPE>,
    cursor: usize,
}

impl IEnumMediaTypes {
    /// The owned interface pointer value, in specifications.
    pub closed spec fn id(self) -> u64 {
        self.com.id()
    }

    /// Whether this owner's reference is gone.
    pub open spec fn is_released(self) -> bool {
        self.id() == 0
    }

    /// What must hold against the platform: the underlying object is
    /// alive, and the cursor is inside the element range.
    pub open spec fn valid(self, host: HostView) -> bool {
        &&& !self.is_released()
        &&& host.live_com(self.id())
        &&& 0 <= self.cursor_spec() <= self.types_spec().len()
    }

    /// Creates an enumerator over `types`, holding one reference to a
    /// fresh underlying object; on failure no enumerator exists.
    pub fn create(host: &mut Host, types: Vec<AM_MEDIA_TYPE>) -> (r: SysResult<IEnumMediaTypes>)
        requires
            old(host)@.inv(),
        ensures
            final(host)@.inv(),
            old(host)@.refuses() ==> r == Err::<IEnumMediaTypes, ERROR>(ERROR(8)) && final(host)@
                == old(host)@.denied(),
            !old(host)@.refuses() ==> (r matches Ok(e) && e.id() == old(host)@.fresh()
                && e.types_spec() == types@ && e.cursor_spec() == 0 && final(host)@ == old(host)@.allocated(crate::sys::SlotV::Com { refs: 1 }) && e.valid(final(host)@)),
    {
        match ComGuard::create(host) {
            Ok(com) => Ok(IEnumMediaTypes { com, types, cursor: 0 }),
            Err(e) => Err(e),
        }
    }

    /// Drops this owner's reference exactly once; a second call is a
    /// no-op.  The underlying object is destroyed exactly when this was
    /// the last reference.
    pub fn release(&mut self, host: &mut Host) -> (r: SysResult<()>)
        requires
            old(host)@.inv(),
            old(self).is_released() || old(host)@.live_com(old(self).id()),
        ensures
            final(host)@.inv(),
            final(self).is_released(),
            r == Ok::<(), ERROR>(()),
            old(self).is_released() ==> final(host)@ == old(host)@,
            !old(self).is_released() ==> final(host)@ == old(host)@.com_released_at(
                old(self).id(),
            ),
    {
        self.com.release(host)
    }
}

impl dshow_IEnumMediaTypes for IEnumMediaTypes {
    /// The elements the enumerator walks.
    closed spec fn types_spec(&self) -> Seq<AM_MEDIA_TYPE> {
        self.types@
    }

    /// How many elements were already handed out or skipped.
    closed spec fn cursor_spec(&self) -> int {
        self.cursor as int
    }

    fn Next(&mut self, mt: &mut AM_MEDIA_TYPE) -> (r: HrResult<bool>) {
        if self.cursor < self.types.len() {
            *mt = self.types[self.cursor];
            self.cursor = self.cursor + 1;
            Ok(true)
        } else {
            Ok(false)
        }
    }

    fn Skip(&mut self, count: u32) -> (r: HrResult<bool>) {
        let left = self.types.len() - self.cursor;
        if count as usize <= left {
            self.cursor = self.cursor + count as usize;
            Ok(true)
        } else {
            self.cursor = self.types.len();
            Ok(false)
        }
    }

    fn Reset(&mut self) -> (r: HrResult<()>) {
        self.cursor = 0;
        Ok(())
    }
}

} // verus!
