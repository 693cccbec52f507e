use vstd::prelude::*;

verus! {

/// Everything that can go wrong while the overlay is set up or drawn on.
#[derive(Debug, Clone, Copy, PartialEq, Eq, Structural)]
pub enum OverlayError {
    /// No top-level window carries the overlay's class and title.
    WindowNotFound,
    /// The window's extended style could not be read.
    FailedToGetWindowLong,
    /// The window's extended style could not be written.
    FailedToSetWindowLong,
    /// The compositor refused to extend the frame into the client area.
    FailedToExtendFrame,
    /// The layered-window attributes could not be set.
    FailedSetLayeredWindowAttributes,
    /// The window could not be moved to the topmost band.
    FailedToSetWindowPos,
    /// The window could not be shown.
    ShowWindowFailed,
    /// The drawing factory could not be created.
    ID2D1FactoryFailed,
    /// The render target could not be created.
    StartupD2DFailed,
    /// The text factory could not be created.
    IDWriteFactoryFailed,
    /// The text format could not be created.
    IDWriteTextFormatFailed,
    /// A drawing was asked for before the render target existed.
    NoRenderTarget,
    /// A drawing failed for a reason that carries no status.
    DrawFailed,
    /// The window's client rectangle could not be read.
    GetWindowRectFailed,
    /// The text format was missing when a text was laid out.
    GetWriteTextFormatFailed,
    /// A drawing failed; the payload is the status that the platform gave.
    DrawTextFailed(i32),
    /// The brush could not be created; the payload is the platform's status.
    CreateBrushFailed(i32),
    /// The brush could not be created and no status is known.
    CreateSolidColorBrushFailed,
    /// The brush could not be used as a general brush.
    ID2D1BrushCastFailed,
}

/// The part of the overlay's life in which an error arises.
#[derive(Debug, Clone, Copy, PartialEq, Eq, Structural)]
pub enum ErrorKind {
    /// The window was not found or could not be styled.
    WindowLookup,
    /// The graphics could not be set up.
    GraphicsInit,
    /// A primitive could not be drawn.
    Draw,
}

impl OverlayError {
    /// The part of the overlay's life in which this error arises.
    pub open spec fn kind_of(self) -> ErrorKind {
        match self {
            OverlayError::WindowNotFound
            | OverlayError::FailedToGetWindowLong
            | OverlayError::FailedToSetWindowLong
            | OverlayError::FailedToExtendFrame
            | OverlayError::FailedSetLayeredWindowAttributes
            | OverlayError::FailedToSetWindowPos
            | OverlayError::ShowWindowFailed => ErrorKind::WindowLookup,
            OverlayError::ID2D1FactoryFailed
            | OverlayError::StartupD2DFailed
            | OverlayError::IDWriteFactoryFailed
            | OverlayError::IDWriteTextFormatFailed
            | OverlayError::GetWindowRectFailed => ErrorKind::GraphicsInit,
            OverlayError::NoRenderTarget
            | OverlayError::DrawFailed
            | OverlayError::GetWriteTextFormatFailed
            | OverlayError::DrawTextFailed(_)
            | OverlayError::CreateBrushFailed(_)
            | OverlayError::CreateSolidColorBrushFailed
            | OverlayError::ID2D1BrushCastFailed => ErrorKind::Draw,
        }
    }

    /// Computes [`OverlayError::kind_of`].
    pub fn kind(&self) -> (kind: ErrorKind)
        ensures
            kind == self.kind_of(),
    {
        match self {
            OverlayError::WindowNotFound
            | OverlayError::FailedToGetWindowLong
            | OverlayError::FailedToSetWindowLong
            | OverlayError::FailedToExtendFrame
            | OverlayError::FailedSetLayeredWindowAttributes
            | OverlayError::FailedToSetWindowPos
            | OverlayError::ShowWindowFailed => ErrorKind::WindowLookup,
            OverlayError::ID2D1FactoryFailed
            | OverlayError::StartupD2DFailed
            | OverlayError::IDWriteFactoryFailed
            | OverlayError::IDWriteTextFormatFailed
            | OverlayError::GetWindowRectFailed => ErrorKind::GraphicsInit,
            OverlayError::NoRenderTarget
            | OverlayError::DrawFailed
            | OverlayError::GetWriteTextFormatFailed
            | OverlayError::DrawTextFailed(_)
            | OverlayError::CreateBrushFailed(_)
            | OverlayError::CreateSolidColorBrushFailed
            | OverlayError::ID2D1BrushCastFailed => ErrorKind::Draw,
        }
    }
}

} // verus!
