//! Display state and the display capability calls.

use vstd::prelude::*;

verus! {

/// Bit pattern of the single-precision value one, the DPI scale a fresh
/// display record reports.
pub const UNIT_DPI_SCALE: u32 = 0x3F80_0000u32;

/// Cursor shapes a caller may ask for. None of them has any effect on a
/// touch display.
#[derive(Clone, Copy, Debug, PartialEq, Eq, Structural)]
pub enum CursorIcon {
    Default,
    Help,
    Pointer,
    Wait,
    Crosshair,
    Text,
    Move,
    NotAllowed,
    EWResize,
    NSResize,
    NESWResize,
    NWSEResize,
}

/// What every display backend records about its screen.
///
/// `dpi_scale` is the bit pattern of a single-precision scale factor.
#[derive(Clone, Copy, Debug, PartialEq, Eq, Structural)]
pub struct NativeDisplayData {
    pub screen_width: i32,
    pub screen_height: i32,
    pub dpi_scale: u32,
    pub high_dpi: bool,
    pub quit_requested: bool,
    pub quit_ordered: bool,
}

impl NativeDisplayData {
    /// The record of a display about which nothing is known yet.
    pub open spec fn initial() -> NativeDisplayData {
        NativeDisplayData {
            screen_width: 1,
            screen_height: 1,
            dpi_scale: UNIT_DPI_SCALE,
            high_dpi: false,
            quit_requested: false,
            quit_ordered: false,
        }
    }
}

impl Default for NativeDisplayData {
    fn default() -> (data: NativeDisplayData)
        ensures
            data == NativeDisplayData::initial(),
    {
        NativeDisplayData {
            screen_width: 1,
            screen_height: 1,
            dpi_scale: UNIT_DPI_SCALE,
            high_dpi: false,
            quit_requested: false,
            quit_ordered: false,
        }
    }
}

/// The display of the one window.
///
/// `scale` is the bit pattern of the double-precision factor between view
/// points and pixels.
#[derive(Clone, Copy, Debug, PartialEq, Eq, Structural)]
pub struct IosDisplay {
    pub data: NativeDisplayData,
    pub scale: u64,
}

impl IosDisplay {
    /// The display as it stands when the application has launched: the
    /// given pixel size, high-DPI flag and scale, and no quit under way.
    pub open spec fn launched(
        screen_width: i32,
        screen_height: i32,
        high_dpi: bool,
        scale: u64,
    ) -> IosDisplay {
        IosDisplay {
            data: NativeDisplayData {
                screen_width,
                screen_height,
                high_dpi,
                ..NativeDisplayData::initial()
            },
            scale,
        }
    }

    /// The display of a window that has just launched.
    pub fn new(
        screen_width: i32,
        screen_height: i32,
        high_dpi: bool,
        scale: u64,
    ) -> (display: IosDisplay)
        ensures
            display == IosDisplay::launched(screen_width, screen_height, high_dpi, scale),
    {
        let initial = NativeDisplayData::default();
        IosDisplay {
            data: NativeDisplayData {
                screen_width,
                screen_height,
                dpi_scale: initial.dpi_scale,
                high_dpi,
                quit_requested: initial.quit_requested,
                quit_ordered: initial.quit_ordered,
            },
            scale,
        }
    }

    /// Width and height of the screen in pixels.
    pub fn screen_size(&self) -> (size: (i32, i32))
        ensures
            size == (self.data.screen_width, self.data.screen_height),
    {
        (self.data.screen_width, self.data.screen_height)
    }

    /// Bit pattern of the DPI scale.
    pub fn dpi_scale(&self) -> (bits: u32)
        ensures
            bits == self.data.dpi_scale,
    {
        self.data.dpi_scale
    }

    pub fn high_dpi(&self) -> (flag: bool)
        ensures
            flag == self.data.high_dpi,
    {
        self.data.high_dpi
    }

    /// Orders the run loop to quit.
    pub fn order_quit(&mut self)
        ensures
            *final(self) == (IosDisplay {
                data: NativeDisplayData { quit_ordered: true, ..old(self).data },
                ..*old(self)
            }),
    {
        self.data.quit_ordered = true;
    }

    /// Asks for a quit that `cancel_quit` can still withdraw.
    pub fn request_quit(&mut self)
        ensures
            *final(self) == (IosDisplay {
                data: NativeDisplayData { quit_requested: true, ..old(self).data },
                ..*old(self)
            }),
    {
        self.data.quit_requested = true;
    }

    /// Withdraws a quit request. An ordered quit stays ordered.
    pub fn cancel_quit(&mut self)
        ensures
            *final(self) == (IosDisplay {
                data: NativeDisplayData { quit_requested: false, ..old(self).data },
                ..*old(self)
            }),
    {
        self.data.quit_requested = false;
    }

    /// Not supported on a touch display: nothing changes.
    pub fn set_cursor_grab(&mut self, _grab: bool)
        ensures
            *final(self) == *old(self),
    {
    }

    /// Not supported on a touch display: nothing changes.
    pub fn show_mouse(&mut self, _show: bool)
        ensures
            *final(self) == *old(self),
    {
    }

    /// Not supported on a touch display: nothing changes.
    pub fn set_mouse_cursor(&mut self, _cursor: CursorIcon)
        ensures
            *final(self) == *old(self),
    {
    }

    /// The window always fills the screen: nothing changes.
    pub fn set_window_size(&mut self, _new_width: u32, _new_height: u32)
        ensures
            *final(self) == *old(self),
    {
    }

    /// The window always fills the screen: nothing changes.
    pub fn set_fullscreen(&mut self, _fullscreen: bool)
        ensures
            *final(self) == *old(self),
    {
    }

    /// There is no clipboard to read: always `None`, and nothing changes.
    pub fn clipboard_get(&mut self) -> (text: Option<String>)
        ensures
            text.is_none(),
            *final(self) == *old(self),
    {
        None
    }

    /// There is no clipboard to write: nothing changes.
    pub fn clipboard_set(&mut self, _data: &str)
        ensures
            *final(self) == *old(self),
    {
    }
}

} // verus!
