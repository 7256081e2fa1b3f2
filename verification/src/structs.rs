//! Notification and control structs.
//!
//! Plain typed records exchanged with the common controls.  Fixed-size
//! native text buffers are modelled as bounded text fields: a setter clips
//! its argument to the buffer's character capacity, exactly as a copy into
//! the fixed buffer would, and the matching getter returns what is stored.

#![allow(non_snake_case)]
#![allow(non_camel_case_types)]

use vstd::prelude::*;
use vstd::string::StrSliceExecFns;

use crate::co;
use crate::handle::HDC;
use crate::handle::HIMAGELIST;
use crate::handle::HTREEITEM;
use crate::handle::HWND;

verus! {

/// Character capacity of a link identifier buffer, terminator included.
pub const MAX_LINKID_TEXT: usize = 48;

/// Character capacity of a URL buffer, terminator included.
pub const L_MAX_URL_LENGTH: usize = 2084;

/// Character capacity of a date-time display buffer, terminator included.
pub const MAX_DATETIME_DISPLAY: usize = 64;

/// A text clipped to a buffer of `cap` characters plus the terminator: a
/// shorter text is kept whole, a longer one loses its tail.
pub open spec fn clipped(text: Seq<char>, cap: int) -> Seq<char> {
    if text.len() <= cap {
        text
    } else {
        text.take(cap)
    }
}

/// Copies a text into a buffer of `cap + 1` characters: at most `cap`
/// characters are kept.
fn clip_chars(text: &str, cap: usize) -> (s: String)
    ensures
        s@ == clipped(text@, cap as int),
{
    let n = text.unicode_len();
    if n <= cap {
        text.to_owned()
    } else {
        let cut = text.substring_char(0, cap);
        proof {
            assert(cut@ =~= text@.take(cap as int));
        }
        cut.to_owned()
    }
}

/// An RGB color value.
#[derive(Clone, Copy, PartialEq, Eq, Structural, Debug)]
pub struct COLORREF(pub u32);

/// Common header of every notification struct.
#[derive(Default, Clone, Copy, PartialEq, Eq, Structural, Debug)]
pub struct NMHDR {
    /// The window that sends the notification.
    pub hwndFrom: HWND,
    /// Identifier of the control that sends the notification.
    pub idFrom: usize,
    /// The notification code.
    pub code: u32,
}

/// A point, in pixels.
#[derive(Default, Clone, Copy, PartialEq, Eq, Structural, Debug)]
pub struct POINT {
    /// Horizontal coordinate.
    pub x: i32,
    /// Vertical coordinate.
    pub y: i32,
}

/// A size, in pixels.
#[derive(Default, Clone, Copy, PartialEq, Eq, Structural, Debug)]
pub struct SIZE {
    /// Width.
    pub cx: i32,
    /// Height.
    pub cy: i32,
}

/// A rectangle, in pixels.
#[derive(Default, Clone, Copy, PartialEq, Eq, Structural, Debug)]
pub struct RECT {
    /// Left edge.
    pub left: i64,
    /// Top edge.
    pub top: i64,
    /// Right edge.
    pub right: i64,
    /// Bottom edge.
    pub bottom: i64,
}

/// A calendar date and time of day.
#[derive(Default, Clone, Copy, PartialEq, Eq, Structural, Debug)]
pub struct SYSTEMTIME {
    /// Calendar year.
    pub wYear: u16,
    /// Calendar month, 1 through 12.
    pub wMonth: u16,
    /// Day of the week, 0 for Sunday.
    pub wDayOfWeek: u16,
    /// Day of the month, 1 through 31.
    pub wDay: u16,
    /// Hour, 0 through 23.
    pub wHour: u16,
    /// Minute, 0 through 59.
    pub wMinute: u16,
    /// Second, 0 through 59.
    pub wSecond: u16,
    /// Millisecond, 0 through 999.
    pub wMilliseconds: u16,
}

/// Image list pairing for a button.
#[derive(Clone, PartialEq, Eq)]
pub struct BUTTON_IMAGELIST {
    /// The image list.
    pub himl: HIMAGELIST,
    /// Margin around the icon.
    pub margin: RECT,
    /// Icon alignment.
    pub uAlign: co::BIA,
}

impl Default for BUTTON_IMAGELIST {
    /// All fields zeroed.
    fn default() -> (d: Self)
        ensures
            d == (BUTTON_IMAGELIST {
                himl: HIMAGELIST { raw: 0 },
                margin: RECT { left: 0, top: 0, right: 0, bottom: 0 },
                uAlign: co::BIA(0),
            }),
    {
        BUTTON_IMAGELIST {
            himl: HIMAGELIST { raw: 0 },
            margin: RECT { left: 0, top: 0, right: 0, bottom: 0 },
            uAlign: co::BIA(0),
        }
    }
}

/// Split button information.
#[derive(Clone, PartialEq, Eq)]
pub struct BUTTON_SPLITINFO {
    /// Which members carry data.
    pub mask: co::BCSIF,
    /// The glyph image list.
    pub himlGlyph: HIMAGELIST,
    /// Split button style.
    pub uSplitStyle: co::BCSS,
    /// Size of the glyph.
    pub size: SIZE,
}

impl Default for BUTTON_SPLITINFO {
    /// All fields zeroed.
    fn default() -> (d: Self)
        ensures
            d == (BUTTON_SPLITINFO {
                mask: co::BCSIF(0),
                himlGlyph: HIMAGELIST { raw: 0 },
                uSplitStyle: co::BCSS(0),
                size: SIZE { cx: 0, cy: 0 },
            }),
    {
        BUTTON_SPLITINFO {
            mask: co::BCSIF(0),
            himlGlyph: HIMAGELIST { raw: 0 },
            uSplitStyle: co::BCSS(0),
            size: SIZE { cx: 0, cy: 0 },
        }
    }
}

/// Parameters for drawing an image list entry.
#[derive(Clone, PartialEq, Eq)]
pub struct IMAGELISTDRAWPARAMS {
    /// The image list.
    pub himl: HIMAGELIST,
    /// Index of the image.
    pub i: i32,
    /// Destination device context.
    pub hdcDst: HDC,
    /// Destination horizontal position.
    pub x: i32,
    /// Destination vertical position.
    pub y: i32,
    /// Width to draw.
    pub cx: i32,
    /// Height to draw.
    pub cy: i32,
    /// Source horizontal offset.
    pub xBitmap: i32,
    /// Source vertical offset.
    pub yBitmap: i32,
    /// Background color.
    pub rgbBk: COLORREF,
    /// Foreground color.
    pub rgbFg: COLORREF,
    /// Drawing style.
    pub fStyle: co::ILD,
    /// Raster operation.
    pub dwRop: co::ROP,
    /// Drawing state.
    pub fState: co::ILS,
    /// Saturation frame.
    pub Frame: u32,
    /// Glow or shadow color.
    pub crEffect: COLORREF,
}

impl Default for IMAGELISTDRAWPARAMS {
    /// All fields zeroed.
    fn default() -> (d: Self)
        ensures
            d == (IMAGELISTDRAWPARAMS {
                himl: HIMAGELIST { raw: 0 },
                i: 0,
                hdcDst: HDC { raw: 0 },
                x: 0,
                y: 0,
                cx: 0,
                cy: 0,
                xBitmap: 0,
                yBitmap: 0,
                rgbBk: COLORREF(0),
                rgbFg: COLORREF(0),
                fStyle: co::ILD(0),
                dwRop: co::ROP(0),
                fState: co::ILS(0),
                Frame: 0,
                crEffect: COLORREF(0),
            }),
    {
        IMAGELISTDRAWPARAMS {
            himl: HIMAGELIST { raw: 0 },
            i: 0,
            hdcDst: HDC { raw: 0 },
            x: 0,
            y: 0,
            cx: 0,
            cy: 0,
            xBitmap: 0,
            yBitmap: 0,
            rgbBk: COLORREF(0),
            rgbFg: COLORREF(0),
            fStyle: co::ILD(0),
            dwRop: co::ROP(0),
            fState: co::ILS(0),
            Frame: 0,
            crEffect: COLORREF(0),
        }
    }
}

/// A link item of a link control, with bounded identifier and URL texts.
#[derive(Clone, PartialEq, Eq)]
pub struct LITEM {
    /// Which members carry data.
    pub mask: co::LIF,
    /// Index of the link in the control's text.
    pub iLink: i32,
    /// Link state.
    pub state: co::LIS,
    /// Which state bits are meant.
    pub stateMask: co::LIS,
    /// Bounded link identifier text.
    pub szID: String,
    /// Bounded URL text.
    pub szUrl: String,
}

impl LITEM {
    /// Returns the link identifier.
    pub fn szID(&self) -> (s: String)
        ensures
            s@ == self.szID@,
    {
        self.szID.clone()
    }

    /// Sets the link identifier, clipped to the buffer.
    pub fn get_szID(&mut self, text: &str)
        ensures
            final(self).szID@ == clipped(text@, MAX_LINKID_TEXT - 1),
            final(self).szUrl@ == old(self).szUrl@,
            final(self).mask == old(self).mask,
            final(self).iLink == old(self).iLink,
            final(self).state == old(self).state,
            final(self).stateMask == old(self).stateMask,
    {
        self.szID = clip_chars(text, MAX_LINKID_TEXT - 1);
    }

    /// Returns the URL.
    pub fn szUrl(&self) -> (s: String)
        ensures
            s@ == self.szUrl@,
    {
        self.szUrl.clone()
    }

    /// Sets the URL, clipped to the buffer.
    pub fn set_szUrl(&mut self, text: &str)
        ensures
            final(self).szUrl@ == clipped(text@, L_MAX_URL_LENGTH - 1),
            final(self).szID@ == old(self).szID@,
            final(self).mask == old(self).mask,
            final(self).iLink == old(self).iLink,
            final(self).state == old(self).state,
            final(self).stateMask == old(self).stateMask,
    {
        self.szUrl = clip_chars(text, L_MAX_URL_LENGTH - 1);
    }
}

impl Default for LITEM {
    /// All fields zeroed, both texts empty.
    fn default() -> (d: Self)
        ensures
            d.mask == (co::LIF(0)),
            d.iLink == 0,
            d.state == (co::LIS(0)),
            d.stateMask == (co::LIS(0)),
            d.szID@ == Seq::<char>::empty(),
            d.szUrl@ == Seq::<char>::empty(),
    {
        let d = LITEM {
            mask: co::LIF(0),
            iLink: 0,
            state: co::LIS(0),
            stateMask: co::LIS(0),
            szID: String::new(),
            szUrl: String::new(),
        };
        proof {
            assert(d.szID@ =~= Seq::<char>::empty());
            assert(d.szUrl@ =~= Seq::<char>::empty());
        }
        d
    }
}

/// A column of a list view control.
#[derive(Clone, PartialEq, Eq)]
pub struct LVCOLUMN {
    /// Which members carry data.
    pub mask: co::LVCF,
    /// Column format.
    pub fmt: co::LVCFMT_C,
    /// Column width.
    pub cx: i32,
    /// Column subitem index.
    pub iSubItem: i32,
    /// Column image index.
    pub iImage: i32,
    /// Column order.
    pub iOrder: i32,
    /// Minimum width.
    pub cxMin: i32,
    /// Default width.
    pub cxDefault: i32,
    /// Ideal width.
    pub cxIdeal: i32,
    /// The text.
    pub pszText: String,
}

impl LVCOLUMN {
    /// Returns the column text.
    pub fn pszText(&self) -> (s: String)
        ensures
            s@ == self.pszText@,
    {
        self.pszText.clone()
    }

    /// Sets the column text.
    pub fn set_pszText(&mut self, text: &str)
        ensures
            final(self).pszText@ == text@,
            final(self).mask == old(self).mask,
            final(self).fmt == old(self).fmt,
            final(self).cx == old(self).cx,
            final(self).iSubItem == old(self).iSubItem,
            final(self).iImage == old(self).iImage,
            final(self).iOrder == old(self).iOrder,
            final(self).cxMin == old(self).cxMin,
            final(self).cxDefault == old(self).cxDefault,
            final(self).cxIdeal == old(self).cxIdeal,
    {
        self.pszText = text.to_owned();
    }
}

impl Default for LVCOLUMN {
    /// All fields zeroed, the text empty.
    fn default() -> (d: Self)
        ensures
            d.mask == (co::LVCF(0)),
            d.fmt == (co::LVCFMT_C(0)),
            d.cx == 0,
            d.iSubItem == 0,
            d.iImage == 0,
            d.iOrder == 0,
            d.cxMin == 0,
            d.cxDefault == 0,
            d.cxIdeal == 0,
            d.pszText@ == Seq::<char>::empty(),
    {
        let d = LVCOLUMN {
            mask: co::LVCF(0),
            fmt: co::LVCFMT_C(0),
            cx: 0,
            iSubItem: 0,
            iImage: 0,
            iOrder: 0,
            cxMin: 0,
            cxDefault: 0,
            cxIdeal: 0,
            pszText: String::new(),
        };
        proof {
            assert(d.pszText@ =~= Seq::<char>::empty());
        }
        d
    }
}

/// Search description for finding a list view item.
#[derive(Clone, PartialEq, Eq)]
pub struct LVFINDINFO {
    /// How to search.
    pub flags: co::LVFI,
    /// Application datum to search for.
    pub lParam: isize,
    /// Starting point for a position search.
    pub pt: POINT,
    /// Direction for a key-driven search.
    pub vkDirection: co::VK_DIR,
    /// The search text.
    pub psz: String,
}

impl LVFINDINFO {
    /// Returns the search text.
    pub fn psz(&self) -> (s: String)
        ensures
            s@ == self.psz@,
    {
        self.psz.clone()
    }

    /// Sets the search text.
    pub fn set_psz(&mut self, text: &str)
        ensures
            final(self).psz@ == text@,
            final(self).flags == old(self).flags,
            final(self).lParam == old(self).lParam,
            final(self).pt == old(self).pt,
            final(self).vkDirection == old(self).vkDirection,
    {
        self.psz = text.to_owned();
    }
}

impl Default for LVFINDINFO {
    /// All fields zeroed, the text empty.
    fn default() -> (d: Self)
        ensures
            d.flags == (co::LVFI(0)),
            d.lParam == 0,
            d.pt == (POINT { x: 0, y: 0 }),
            d.vkDirection == (co::VK_DIR(0)),
            d.psz@ == Seq::<char>::empty(),
    {
        let d = LVFINDINFO {
            flags: co::LVFI(0),
            lParam: 0,
            pt: POINT { x: 0, y: 0 },
            vkDirection: co::VK_DIR(0),
            psz: String::new(),
        };
        proof {
            assert(d.psz@ =~= Seq::<char>::empty());
        }
        d
    }
}

/// An item of a list view control.
#[derive(Clone, PartialEq, Eq)]
pub struct LVITEM {
    /// Which members carry data.
    pub mask: co::LVIF,
    /// Item index.
    pub iItem: i32,
    /// Subitem (column) index.
    pub iSubItem: i32,
    /// Item state.
    pub state: co::LVIS,
    /// Which state bits are meant.
    pub stateMask: co::LVIS,
    /// Item image index.
    pub iImage: i32,
    /// Application datum.
    pub lParam: isize,
    /// Indentation.
    pub iIndent: i32,
    /// Group identifier.
    pub iGroupId: co::LVI_GROUPID,
    /// Number of columns.
    pub cColumns: u32,
    /// Group index.
    pub iGroup: i32,
    /// The text.
    pub pszText: String,
}

impl LVITEM {
    /// Returns the item text.
    pub fn pszText(&self) -> (s: String)
        ensures
            s@ == self.pszText@,
    {
        self.pszText.clone()
    }

    /// Sets the item text.
    pub fn set_pszText(&mut self, text: &str)
        ensures
            final(self).pszText@ == text@,
            final(self).mask == old(self).mask,
            final(self).iItem == old(self).iItem,
            final(self).iSubItem == old(self).iSubItem,
            final(self).state == old(self).state,
            final(self).stateMask == old(self).stateMask,
            final(self).iImage == old(self).iImage,
            final(self).lParam == old(self).lParam,
            final(self).iIndent == old(self).iIndent,
            final(self).iGroupId == old(self).iGroupId,
            final(self).cColumns == old(self).cColumns,
            final(self).iGroup == old(self).iGroup,
    {
        self.pszText = text.to_owned();
    }
}

impl Default for LVITEM {
    /// All fields zeroed, the text empty.
    fn default() -> (d: Self)
        ensures
            d.mask == (co::LVIF(0)),
            d.iItem == 0,
            d.iSubItem == 0,
            d.state == (co::LVIS(0)),
            d.stateMask == (co::LVIS(0)),
            d.iImage == 0,
            d.lParam == 0,
            d.iIndent == 0,
            d.iGroupId == (co::LVI_GROUPID(0)),
            d.cColumns == 0,
            d.iGroup == 0,
            d.pszText@ == Seq::<char>::empty(),
    {
        let d = LVITEM {
            mask: co::LVIF(0),
            iItem: 0,
            iSubItem: 0,
            state: co::LVIS(0),
            stateMask: co::LVIS(0),
            iImage: 0,
            lParam: 0,
            iIndent: 0,
            iGroupId: co::LVI_GROUPID(0),
            cColumns: 0,
            iGroup: 0,
            pszText: String::new(),
        };
        proof {
            assert(d.pszText@ =~= Seq::<char>::empty());
        }
        d
    }
}

/// Notification: a split button dropdown was pressed.
#[derive(Default, Clone, Copy, PartialEq, Eq, Structural, Debug)]
pub struct NMBCDROPDOWN {
    /// Common notification header.
    pub hdr: NMHDR,
    /// The button's client rectangle.
    pub rcButton: RECT,
}

/// Notification: the hot state of a button changed.
#[derive(Default, Clone, Copy, PartialEq, Eq, Structural, Debug)]
pub struct NMBCHOTITEM {
    /// Common notification header.
    pub hdr: NMHDR,
    /// What changed.
    pub dwFlags: co::HICF,
}

/// Notification: a control received a character.
#[derive(Default, Clone, Copy, PartialEq, Eq, Structural, Debug)]
pub struct NMCHAR {
    /// Common notification header.
    pub hdr: NMHDR,
    /// The character.
    pub ch: u32,
    /// Item before the character was handled.
    pub dwItemPrev: u32,
    /// Item after the character was handled.
    pub dwItemNext: u32,
}

/// Notification: custom draw.
#[derive(Clone, Copy, PartialEq, Eq, Structural)]
pub struct NMCUSTOMDRAW {
    /// Common notification header.
    pub hdr: NMHDR,
    /// Current drawing stage.
    pub dwDrawStage: co::CDDS,
    /// Device context to draw into.
    pub hdc: HDC,
    /// Bounds to draw within.
    pub rc: RECT,
    /// The item being drawn.
    pub dwItemSpec: usize,
    /// State of the item.
    pub uItemState: co::CDIS,
    /// Application datum of the item.
    pub lItemlParam: isize,
}

impl Default for NMCUSTOMDRAW {
    /// All fields zeroed.
    fn default() -> (d: Self)
        ensures
            d == (NMCUSTOMDRAW {
                hdr: NMHDR { hwndFrom: HWND { raw: 0 }, idFrom: 0, code: 0 },
                dwDrawStage: co::CDDS(0),
                hdc: HDC { raw: 0 },
                rc: RECT { left: 0, top: 0, right: 0, bottom: 0 },
                dwItemSpec: 0,
                uItemState: co::CDIS(0),
                lItemlParam: 0,
            }),
    {
        NMCUSTOMDRAW {
            hdr: NMHDR { hwndFrom: HWND { raw: 0 }, idFrom: 0, code: 0 },
            dwDrawStage: co::CDDS(0),
            hdc: HDC { raw: 0 },
            rc: RECT { left: 0, top: 0, right: 0, bottom: 0 },
            dwItemSpec: 0,
            uItemState: co::CDIS(0),
            lItemlParam: 0,
        }
    }
}

/// Notification: the date-time picker's value changed.
#[derive(Default, Clone, Copy, PartialEq, Eq, Structural, Debug)]
pub struct NMDATETIMECHANGE {
    /// Common notification header.
    pub nmhdr: NMHDR,
    /// Whether a value is present.
    pub dwFlags: co::GDT,
    /// The new value.
    pub st: SYSTEMTIME,
}

/// Notification: a date-time picker asks for the text of a callback field.
#[derive(Clone, PartialEq, Eq)]
pub struct NMDATETIMEFORMAT {
    /// Common notification header.
    pub nmhdr: NMHDR,
    /// The value to format.
    pub st: SYSTEMTIME,
    /// The format text.
    pub pszFormat: String,
    /// Bounded display text.
    pub szDisplay: String,
}

impl NMDATETIMEFORMAT {
    /// Returns the format of the callback field.
    pub fn pszFormat(&self) -> (s: String)
        ensures
            s@ == self.pszFormat@,
    {
        self.pszFormat.clone()
    }

    /// Sets the format of the callback field.
    pub fn set_pszFormat(&mut self, text: &str)
        ensures
            final(self).pszFormat@ == text@,
            final(self).szDisplay@ == old(self).szDisplay@,
            final(self).nmhdr == old(self).nmhdr,
            final(self).st == old(self).st,
    {
        self.pszFormat = text.to_owned();
    }

    /// Returns the display text.
    pub fn pszDisplay(&self) -> (s: String)
        ensures
            s@ == self.szDisplay@,
    {
        self.szDisplay.clone()
    }

    /// Sets the display text, clipped to the buffer.
    pub fn set_pszDisplay(&mut self, text: &str)
        ensures
            final(self).szDisplay@ == clipped(text@, MAX_DATETIME_DISPLAY - 1),
            final(self).pszFormat@ == old(self).pszFormat@,
            final(self).nmhdr == old(self).nmhdr,
            final(self).st == old(self).st,
    {
        self.szDisplay = clip_chars(text, MAX_DATETIME_DISPLAY - 1);
    }
}

impl Default for NMDATETIMEFORMAT {
    /// All fields zeroed, both texts empty.
    fn default() -> (d: Self)
        ensures
            d.nmhdr == (NMHDR { hwndFrom: HWND { raw: 0 }, idFrom: 0, code: 0 }),
            d.st == SYSTEMTIME::spec_zeroed(),
            d.pszFormat@ == Seq::<char>::empty(),
            d.szDisplay@ == Seq::<char>::empty(),
    {
        let d = NMDATETIMEFORMAT {
            nmhdr: NMHDR { hwndFrom: HWND { raw: 0 }, idFrom: 0, code: 0 },
            st: SYSTEMTIME::zeroed(),
            pszFormat: String::new(),
            szDisplay: String::new(),
        };
        proof {
            assert(d.pszFormat@ =~= Seq::<char>::empty());
            assert(d.szDisplay@ =~= Seq::<char>::empty());
        }
        d
    }
}

impl SYSTEMTIME {
    /// The all-zero time, in specifications.
    pub open spec fn spec_zeroed() -> SYSTEMTIME {
        SYSTEMTIME {
            wYear: 0,
            wMonth: 0,
            wDayOfWeek: 0,
            wDay: 0,
            wHour: 0,
            wMinute: 0,
            wSecond: 0,
            wMilliseconds: 0,
        }
    }

    /// The all-zero time.
    pub fn zeroed() -> (st: SYSTEMTIME)
        ensures
            st == Self::spec_zeroed(),
    {
        SYSTEMTIME {
            wYear: 0,
            wMonth: 0,
            wDayOfWeek: 0,
            wDay: 0,
            wHour: 0,
            wMinute: 0,
            wSecond: 0,
            wMilliseconds: 0,
        }
    }
}

/// Notification: a date-time picker asks how wide a callback field is.
#[derive(Clone, PartialEq, Eq)]
pub struct NMDATETIMEFORMATQUERY {
    /// Common notification header.
    pub nmhdr: NMHDR,
    /// Receives the maximum size of the field.
    pub szMax: SIZE,
    /// The format text.
    pub pszFormat: String,
}

impl NMDATETIMEFORMATQUERY {
    /// Returns the format of the callback field.
    pub fn pszFormat(&self) -> (s: String)
        ensures
            s@ == self.pszFormat@,
    {
        self.pszFormat.clone()
    }

    /// Sets the format of the callback field.
    pub fn set_pszFormat(&mut self, text: &str)
        ensures
            final(self).pszFormat@ == text@,
            final(self).nmhdr == old(self).nmhdr,
            final(self).szMax == old(self).szMax,
    {
        self.pszFormat = text.to_owned();
    }
}

impl Default for NMDATETIMEFORMATQUERY {
    /// All fields zeroed, the text empty.
    fn default() -> (d: Self)
        ensures
            d.nmhdr == (NMHDR { hwndFrom: HWND { raw: 0 }, idFrom: 0, code: 0 }),
            d.szMax == (SIZE { cx: 0, cy: 0 }),
            d.pszFormat@ == Seq::<char>::empty(),
    {
        let d = NMDATETIMEFORMATQUERY {
            nmhdr: NMHDR { hwndFrom: HWND { raw: 0 }, idFrom: 0, code: 0 },
            szMax: SIZE { cx: 0, cy: 0 },
            pszFormat: String::new(),
        };
        proof {
            assert(d.pszFormat@ =~= Seq::<char>::empty());
        }
        d
    }
}

/// Notification: a date-time picker reports user-entered text.
#[derive(Clone, PartialEq, Eq)]
pub struct NMDATETIMESTRING {
    /// Common notification header.
    pub nmhdr: NMHDR,
    /// Receives the parsed value.
    pub st: SYSTEMTIME,
    /// Whether a value is present.
    pub dwFlags: co::GDT,
    /// The user-entered text.
    pub pszUserString: String,
}

impl NMDATETIMESTRING {
    /// Returns the user-entered text.
    pub fn pszUserString(&self) -> (s: String)
        ensures
            s@ == self.pszUserString@,
    {
        self.pszUserString.clone()
    }

    /// Sets the user-entered text.
    pub fn set_pszUserString(&mut self, text: &str)
        ensures
            final(self).pszUserString@ == text@,
            final(self).nmhdr == old(self).nmhdr,
            final(self).st == old(self).st,
            final(self).dwFlags == old(self).dwFlags,
    {
        self.pszUserString = text.to_owned();
    }
}

impl Default for NMDATETIMESTRING {
    /// All fields zeroed, the text empty.
    fn default() -> (d: Self)
        ensures
            d.nmhdr == (NMHDR { hwndFrom: HWND { raw: 0 }, idFrom: 0, code: 0 }),
            d.st == SYSTEMTIME::spec_zeroed(),
            d.dwFlags == (co::GDT(0)),
            d.pszUserString@ == Seq::<char>::empty(),
    {
        let d = NMDATETIMESTRING {
            nmhdr: NMHDR { hwndFrom: HWND { raw: 0 }, idFrom: 0, code: 0 },
            st: SYSTEMTIME::zeroed(),
            dwFlags: co::GDT(0),
            pszUserString: String::new(),
        };
        proof {
            assert(d.pszUserString@ =~= Seq::<char>::empty());
        }
        d
    }
}

/// Notification: a date-time picker received a key in a callback field.
#[derive(Clone, PartialEq, Eq)]
pub struct NMDATETIMEWMKEYDOWN {
    /// Common notification header.
    pub nmhdr: NMHDR,
    /// The virtual key.
    pub nVirtKey: i32,
    /// The value being edited.
    pub st: SYSTEMTIME,
    /// The format text.
    pub pszFormat: String,
}

impl NMDATETIMEWMKEYDOWN {
    /// Returns the format of the callback field.
    pub fn pszFormat(&self) -> (s: String)
        ensures
            s@ == self.pszFormat@,
    {
        self.pszFormat.clone()
    }

    /// Sets the format of the callback field.
    pub fn set_pszFormat(&mut self, text: &str)
        ensures
            final(self).pszFormat@ == text@,
            final(self).nmhdr == old(self).nmhdr,
            final(self).nVirtKey == old(self).nVirtKey,
            final(self).st == old(self).st,
    {
        self.pszFormat = text.to_owned();
    }
}

impl Default for NMDATETIMEWMKEYDOWN {
    /// All fields zeroed, the text empty.
    fn default() -> (d: Self)
        ensures
            d.nmhdr == (NMHDR { hwndFrom: HWND { raw: 0 }, idFrom: 0, code: 0 }),
            d.nVirtKey == 0,
            d.st == SYSTEMTIME::spec_zeroed(),
            d.pszFormat@ == Seq::<char>::empty(),
    {
        let d = NMDATETIMEWMKEYDOWN {
            nmhdr: NMHDR { hwndFrom: HWND { raw: 0 }, idFrom: 0, code: 0 },
            nVirtKey: 0,
            st: SYSTEMTIME::zeroed(),
            pszFormat: String::new(),
        };
        proof {
            assert(d.pszFormat@ =~= Seq::<char>::empty());
        }
        d
    }
}

/// Notification: a list view item was activated.
#[derive(Default, Clone, Copy, PartialEq, Eq, Structural, Debug)]
pub struct NMITEMACTIVATE {
    /// Common notification header.
    pub hdr: NMHDR,
    /// The item.
    pub iItem: i32,
    /// The subitem.
    pub iSubItem: i32,
    /// New item state.
    pub uNewState: co::LVIS,
    /// Old item state.
    pub uOldState: co::LVIS,
    /// What changed.
    pub uChanged: co::LVIF,
    /// Where the activation happened.
    pub ptAction: POINT,
    /// Application datum.
    pub lParam: isize,
    /// Modifier keys held.
    pub uKeyFlags: co::LVKF,
}

/// Notification: a field of an IP address control changed.
#[derive(Default, Clone, Copy, PartialEq, Eq, Structural, Debug)]
pub struct NMIPADDRESS {
    /// Common notification header.
    pub hdr: NMHDR,
    /// The field.
    pub iField: i32,
    /// The new value.
    pub iValue: i32,
}

/// Notification: a link was clicked.
#[derive(Clone, PartialEq, Eq)]
pub struct NMLINK {
    /// Common notification header.
    pub hdr: NMHDR,
    /// The link.
    pub item: LITEM,
}

impl Default for NMLINK {
    /// All fields zeroed.
    fn default() -> (d: Self)
        ensures
            d.hdr == (NMHDR { hwndFrom: HWND { raw: 0 }, idFrom: 0, code: 0 }),
            d.item.szID@ == Seq::<char>::empty(),
            d.item.szUrl@ == Seq::<char>::empty(),
    {
        NMLINK { hdr: NMHDR { hwndFrom: HWND { raw: 0 }, idFrom: 0, code: 0 }, item: LITEM::default() }
    }
}

/// Notification: something happened in a list view control.
#[derive(Default, Clone, Copy, PartialEq, Eq, Structural, Debug)]
pub struct NMLISTVIEW {
    /// Common notification header.
    pub hdr: NMHDR,
    /// The item.
    pub iItem: i32,
    /// The subitem.
    pub iSubItem: i32,
    /// New item state.
    pub uNewState: co::LVIS,
    /// Old item state.
    pub uOldState: co::LVIS,
    /// What changed.
    pub uChanged: co::LVIF,
    /// Where the action happened.
    pub ptAction: POINT,
    /// Application datum.
    pub lParam: isize,
}

/// Notification: a virtual list view wants a range cached.
#[derive(Default, Clone, Copy, PartialEq, Eq, Structural, Debug)]
pub struct NMLVCACHEHINT {
    /// Common notification header.
    pub hdr: NMHDR,
    /// First item of the range.
    pub iFrom: i32,
    /// Last item of the range.
    pub iTo: i32,
}

/// Notification: a list view asks for or reports item data.
#[derive(Clone, PartialEq, Eq)]
pub struct NMLVDISPINFO {
    /// Common notification header.
    pub hdr: NMHDR,
    /// The item in question.
    pub item: LVITEM,
}

impl Default for NMLVDISPINFO {
    /// All fields zeroed.
    fn default() -> (d: Self)
        ensures
            d.hdr == (NMHDR { hwndFrom: HWND { raw: 0 }, idFrom: 0, code: 0 }),
            d.item.pszText@ == Seq::<char>::empty(),
    {
        NMLVDISPINFO { hdr: NMHDR { hwndFrom: HWND { raw: 0 }, idFrom: 0, code: 0 }, item: LVITEM::default() }
    }
}

/// Notification: an empty list view asks for its markup text.
#[derive(Clone, PartialEq, Eq)]
pub struct NMLVEMPTYMARKUP {
    /// Common notification header.
    pub hdr: NMHDR,
    /// How to display the markup.
    pub dwFlags: co::EMF,
    /// Bounded markup text.
    pub szMarkup: String,
}

impl NMLVEMPTYMARKUP {
    /// Returns the markup text.
    pub fn szMarkup(&self) -> (s: String)
        ensures
            s@ == self.szMarkup@,
    {
        self.szMarkup.clone()
    }

    /// Sets the markup text, clipped to the buffer.
    pub fn get_szID(&mut self, text: &str)
        ensures
            final(self).szMarkup@ == clipped(text@, L_MAX_URL_LENGTH - 1),
            final(self).hdr == old(self).hdr,
            final(self).dwFlags == old(self).dwFlags,
    {
        self.szMarkup = clip_chars(text, L_MAX_URL_LENGTH - 1);
    }
}

impl Default for NMLVEMPTYMARKUP {
    /// All fields zeroed, the markup empty.
    fn default() -> (d: Self)
        ensures
            d.hdr == (NMHDR { hwndFrom: HWND { raw: 0 }, idFrom: 0, code: 0 }),
            d.dwFlags == (co::EMF(0)),
            d.szMarkup@ == Seq::<char>::empty(),
    {
        let d = NMLVEMPTYMARKUP {
            hdr: NMHDR { hwndFrom: HWND { raw: 0 }, idFrom: 0, code: 0 },
            dwFlags: co::EMF(0),
            szMarkup: String::new(),
        };
        proof {
            assert(d.szMarkup@ =~= Seq::<char>::empty());
        }
        d
    }
}

/// Notification: a list view reports an incremental search.
#[derive(Clone, PartialEq, Eq)]
pub struct NMLVFINDITEM {
    /// Common notification header.
    pub hdr: NMHDR,
    /// Where the search starts.
    pub iStart: i32,
    /// What is searched for.
    pub lvfi: LVFINDINFO,
}

/// Notification: a list view asks for an info tip.
#[derive(Clone, PartialEq, Eq)]
pub struct NMLVGETINFOTIP {
    /// Common notification header.
    pub hdr: NMHDR,
    /// How the text is to be handled.
    pub dwFlags: co::LVGIT,
    /// The item.
    pub iItem: i32,
    /// The subitem.
    pub iSubItem: i32,
    /// Application datum.
    pub lParam: isize,
    /// The text.
    pub pszText: String,
}

impl NMLVGETINFOTIP {
    /// Returns the tip text.
    pub fn pszText(&self) -> (s: String)
        ensures
            s@ == self.pszText@,
    {
        self.pszText.clone()
    }

    /// Sets the tip text.
    pub fn set_pszText(&mut self, text: &str)
        ensures
            final(self).pszText@ == text@,
            final(self).hdr == old(self).hdr,
            final(self).dwFlags == old(self).dwFlags,
            final(self).iItem == old(self).iItem,
            final(self).iSubItem == old(self).iSubItem,
            final(self).lParam == old(self).lParam,
    {
        self.pszText = text.to_owned();
    }
}

impl Default for NMLVGETINFOTIP {
    /// All fields zeroed, the text empty.
    fn default() -> (d: Self)
        ensures
            d.hdr == (NMHDR { hwndFrom: HWND { raw: 0 }, idFrom: 0, code: 0 }),
            d.dwFlags == (co::LVGIT(0)),
            d.iItem == 0,
            d.iSubItem == 0,
            d.lParam == 0,
            d.pszText@ == Seq::<char>::empty(),
    {
        let d = NMLVGETINFOTIP {
            hdr: NMHDR { hwndFrom: HWND { raw: 0 }, idFrom: 0, code: 0 },
            dwFlags: co::LVGIT(0),
            iItem: 0,
            iSubItem: 0,
            lParam: 0,
            pszText: String::new(),
        };
        proof {
            assert(d.pszText@ =~= Seq::<char>::empty());
        }
        d
    }
}

/// Notification: a key went down in a list view.
#[derive(Default, Clone, Copy, PartialEq, Eq, Structural, Debug)]
pub struct NMLVKEYDOWN {
    /// Common notification header.
    pub hdr: NMHDR,
    /// The virtual key.
    pub wVKey: co::VK,
}

/// Notification: a link inside a list view group was clicked.
#[derive(Clone, PartialEq, Eq)]
pub struct NMLVLINK {
    /// Common notification header.
    pub hdr: NMHDR,
    /// The link.
    pub link: LITEM,
    /// The item.
    pub iItem: i32,
    /// The subitem.
    pub iSubItem: i32,
}

/// Notification: the state of a range of owner-data items changed.
#[derive(Default, Clone, Copy, PartialEq, Eq, Structural, Debug)]
pub struct NMLVODSTATECHANGE {
    /// Common notification header.
    pub hdr: NMHDR,
    /// First item of the range.
    pub iFrom: i32,
    /// Last item of the range.
    pub iTo: i32,
    /// New state.
    pub uNewState: co::LVIS,
    /// Old state.
    pub uOldState: co::LVIS,
}

/// Notification: a list view scrolled.
#[derive(Default, Clone, Copy, PartialEq, Eq, Structural, Debug)]
pub struct NMLVSCROLL {
    /// Common notification header.
    pub hdr: NMHDR,
    /// Horizontal scroll amount.
    pub dx: i32,
    /// Vertical scroll amount.
    pub dy: i32,
}

/// Notification: a mouse event reached a control.
#[derive(Default, Clone, Copy, PartialEq, Eq, Structural, Debug)]
pub struct NMMOUSE {
    /// Common notification header.
    pub hdr: NMHDR,
    /// The item hit.
    pub dwItemSpec: usize,
    /// Application datum of the item.
    pub dwItemData: usize,
    /// Where the event happened.
    pub pt: POINT,
    /// Hit-test information.
    pub dwHitInfo: isize,
}

/// Notification: a tree view finished drawing an image asynchronously.
#[derive(Clone, PartialEq, Eq)]
pub struct NMTVASYNCDRAW {
    /// Common notification header.
    pub hdr: NMHDR,
    /// Why the draw failed.
    pub hr: co::ERROR,
    /// The item being drawn.
    pub hItem: HTREEITEM,
    /// Application datum of the item.
    pub lParam: isize,
    /// How to proceed.
    pub dwRetFlags: co::ADRF,
    /// Image index to retry with.
    pub iRetImageIndex: i32,
    /// The draw parameters.
    pub imldp: IMAGELISTDRAWPARAMS,
}

impl NMTVASYNCDRAW {
    /// Returns the draw parameters.
    pub fn pimldp(&self) -> (p: &IMAGELISTDRAWPARAMS)
        ensures
            *p == self.imldp,
    {
        &self.imldp
    }

    /// Sets the draw parameters.
    pub fn set_pimldp(&mut self, p: IMAGELISTDRAWPARAMS)
        ensures
            final(self).imldp == p,
            final(self).hdr == old(self).hdr,
            final(self).hr == old(self).hr,
            final(self).hItem == old(self).hItem,
            final(self).lParam == old(self).lParam,
            final(self).dwRetFlags == old(self).dwRetFlags,
            final(self).iRetImageIndex == old(self).iRetImageIndex,
    {
        self.imldp = p;
    }
}

impl Default for NMTVASYNCDRAW {
    /// All fields zeroed.
    fn default() -> (d: Self)
        ensures
            d.hdr == (NMHDR { hwndFrom: HWND { raw: 0 }, idFrom: 0, code: 0 }),
            d.hr == (co::ERROR(0)),
            d.hItem == (HTREEITEM { raw: 0 }),
            d.lParam == 0,
            d.dwRetFlags == (co::ADRF(0)),
            d.iRetImageIndex == 0,
    {
        NMTVASYNCDRAW {
            hdr: NMHDR { hwndFrom: HWND { raw: 0 }, idFrom: 0, code: 0 },
            hr: co::ERROR(0),
            hItem: HTREEITEM { raw: 0 },
            lParam: 0,
            dwRetFlags: co::ADRF(0),
            iRetImageIndex: 0,
            imldp: IMAGELISTDRAWPARAMS::default(),
        }
    }
}

} // verus!
