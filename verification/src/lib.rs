//! Ownership-tracked wrappers for native-style resource handles.
//!
//! Every resource handle (file, device context, GDI object, window, memory
//! view, heap block, COM interface pointer) is wrapped in a typed, move-only
//! owning guard that invokes the correct release operation exactly once,
//! exposes the raw handle for read operations, and composes when handles are
//! derived from other handles.  The native platform itself is modelled by
//! [`sys::Host`], an in-process resource table that instruments every release
//! call with a counter, so that the ownership discipline is both verified and
//! observable.

use vstd::prelude::*;

pub mod co;
pub mod dshow;
pub mod file;
pub mod guard;
pub mod handle;
pub mod laws;
pub mod list_view;
pub mod structs;
pub mod sys;
pub mod time;

pub use crate::dshow::dshow_IEnumMediaTypes;
pub use crate::dshow::AM_MEDIA_TYPE;
pub use crate::dshow::IEnumMediaTypes;
pub use crate::file::File;
pub use crate::file::FileAccess;
pub use crate::guard::CloseHandleGuard;
pub use crate::guard::ComGuard;
pub use crate::guard::DeleteDCGuard;
pub use crate::guard::DeleteObjectGuard;
pub use crate::guard::DestroyWindowGuard;
pub use crate::guard::HeapFreeGuard;
pub use crate::guard::ReleaseDCGuard;
pub use crate::guard::SelectObjectGuard;
pub use crate::guard::UnmapViewOfFileGuard;
pub use crate::list_view::ListViewItem;
pub use crate::sys::Host;

verus! {

} // verus!
