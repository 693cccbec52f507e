use vstd::prelude::*;

verus! {

/// A size in whole pixels.
#[derive(Debug, Clone, Copy, PartialEq, Eq, Structural)]
pub struct PixelSize {
    pub width: u32,
    pub height: u32,
}

/// The drawable surface: bound to one window, at the pixel size that the
/// window's client area had when the surface was made. It does not follow
/// the window when the window is resized later.
#[derive(Debug, Clone, Copy, PartialEq, Eq, Structural)]
pub struct RenderTarget {
    pub window: isize,
    pub size: PixelSize,
}

/// The graphics side of the overlay. The two factories, the text format and
/// the render target exist together or not at all, so one value stands for
/// all four.
#[derive(Debug, Clone, Copy, PartialEq, Eq, Structural)]
pub enum Graphics {
    /// Nothing has been created.
    Uninitialized,
    /// Everything has been created; `frame_open` tells whether a drawing
    /// bracket is open on the target.
    Ready { target: RenderTarget, frame_open: bool },
}

/// The overlay: the window it draws on, the state of its graphics, and the
/// font it writes with.
#[derive(Debug, PartialEq, Eq)]
pub struct Overlay {
    /// The handle of the overlay window; zero until a window has been found.
    pub window: isize,
    pub graphics: Graphics,
    /// The font family.
    pub font: String,
    /// The font size, a single-precision number given by its bit pattern.
    pub font_size: u32,
}

impl Overlay {
    /// An overlay that has no window and no graphics yet.
    pub fn new(font: &str, size: u32) -> (overlay: Overlay)
        ensures
            overlay.window == 0,
            overlay.graphics == Graphics::Uninitialized,
            overlay.font@ == font@,
            overlay.font_size == size,
    {
        Overlay {
            window: 0,
            graphics: Graphics::Uninitialized,
            font: font.to_owned(),
            font_size: size,
        }
    }

    /// Whether the render target exists.
    pub open spec fn ready(&self) -> bool {
        self.graphics is Ready
    }

    /// Whether a drawing bracket is open on the render target.
    pub open spec fn frame_open(&self) -> bool {
        self.graphics matches Graphics::Ready { frame_open, .. } && frame_open
    }

    /// Whether the render target exists.
    pub fn is_ready(&self) -> (ready: bool)
        ensures
            ready == self.ready(),
    {
        match self.graphics {
            Graphics::Uninitialized => false,
            Graphics::Ready { .. } => true,
        }
    }

    /// Whether a drawing bracket is open on the render target.
    pub fn is_frame_open(&self) -> (open: bool)
        ensures
            open == self.frame_open(),
    {
        match self.graphics {
            Graphics::Uninitialized => false,
            Graphics::Ready { frame_open, .. } => frame_open,
        }
    }
}

} // verus!
