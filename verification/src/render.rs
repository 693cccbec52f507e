use vstd::prelude::*;

use crate::error::{ErrorKind, OverlayError};
use crate::overlay::{Graphics, Overlay, PixelSize, RenderTarget};
use crate::wide::{encode_wide_z, wide_z};
use crate::window::{init_run, lemma_init_keeps_graphics, Desktop, WindowEvent};

verus! {

/// The locale of the text format.
pub const LOCALE: &'static str = "en-us";

/// The mode of the drawing factory: for use from a single thread.
pub const SINGLE_THREADED: i32 = 0;

/// The mode of the text factory: shared with the rest of the process.
pub const SHARED: i32 = 0;

/// The weight of the text format: regular.
pub const WEIGHT_REGULAR: i32 = 400;

/// The style of the text format: upright.
pub const STYLE_NORMAL: i32 = 0;

/// The stretch of the text format: normal.
pub const STRETCH_NORMAL: i32 = 5;

/// The kind of render target that is asked for: whichever the platform
/// prefers, hardware or software.
pub const KIND_DEFAULT: i32 = 0;

/// The pixel format of the render target: left to the platform.
pub const FORMAT_UNKNOWN: i32 = 0;

/// The alpha mode of the render target: colour values are already
/// multiplied by their alpha.
pub const ALPHA_PREMULTIPLIED: i32 = 1;

/// The resolution of the render target in either direction: the bit pattern
/// of the single-precision zero, which stands for the platform's default.
pub const DPI_DEFAULT: u32 = 0;

/// The usage of the render target: nothing special.
pub const USAGE_NONE: i32 = 0;

/// The least feature level that the render target must have: the default.
pub const LEVEL_DEFAULT: i32 = 0;

/// How the render target presents its frames: nothing special.
pub const PRESENT_NONE: i32 = 0;

/// What a render target is asked for with, beside its window and its size.
#[derive(Debug, Clone, Copy, PartialEq, Eq, Structural)]
pub struct TargetProperties {
    pub kind: i32,
    pub format: i32,
    pub alpha_mode: i32,
    /// The horizontal resolution, a single-precision number given by its
    /// bit pattern.
    pub dpi_x: u32,
    /// The vertical resolution, as `dpi_x`.
    pub dpi_y: u32,
    pub usage: i32,
    pub min_level: i32,
    pub present: i32,
}

/// The properties that the overlay's render target is asked for with: the
/// platform's choice of kind and pixel format, premultiplied alpha, the
/// default resolution and feature level, and nothing special in usage and
/// presentation.
pub open spec fn overlay_properties() -> TargetProperties {
    TargetProperties {
        kind: KIND_DEFAULT,
        format: FORMAT_UNKNOWN,
        alpha_mode: ALPHA_PREMULTIPLIED,
        dpi_x: DPI_DEFAULT,
        dpi_y: DPI_DEFAULT,
        usage: USAGE_NONE,
        min_level: LEVEL_DEFAULT,
        present: PRESENT_NONE,
    }
}

/// A window's client rectangle, in the platform's signed coordinates.
#[derive(Debug, Clone, Copy, PartialEq, Eq, Structural)]
pub struct ClientRect {
    pub left: i32,
    pub top: i32,
    pub right: i32,
    pub bottom: i32,
}

/// What has happened while the graphics were being set up.
#[derive(Debug, Clone, Copy, PartialEq, Eq, Structural)]
pub enum RenderEvent {
    /// Nothing yet: the caller wants the graphics set up.
    Start,
    /// The drawing factory was asked for; `true` if it was created.
    FactoryCreated(bool),
    /// The text factory was asked for; `true` if it was created.
    TextFactoryCreated(bool),
    /// The text format was asked for; `true` if it was created.
    TextFormatCreated(bool),
    /// The client rectangle was asked for; `None` if the query failed.
    ClientRectRead(Option<ClientRect>),
    /// The render target was asked for; `None` if it was not created, else
    /// the pixel size that it was made with.
    TargetCreated(Option<PixelSize>),
}

/// What the caller has to do next while the graphics are being set up.
#[derive(Debug, PartialEq, Eq)]
pub enum RenderAction {
    /// Create the drawing factory in the mode `threading`.
    CreateFactory { threading: i32 },
    /// Create the text factory in the mode `sharing`.
    CreateTextFactory { sharing: i32 },
    /// Create the text format for the font `family` (UTF-16, closed by a
    /// zero unit) from the system's fonts, of this `weight`, `style` and
    /// `stretch`, at `size` (a single-precision number given by its bit
    /// pattern) and `locale` (as `family`).
    CreateTextFormat {
        family: Vec<u16>,
        weight: i32,
        style: i32,
        stretch: i32,
        size: u32,
        locale: Vec<u16>,
    },
    /// Read the client rectangle of `window`.
    ReadClientRect { window: isize },
    /// Create `target`: a render target on its window, at its pixel size,
    /// with these `properties`.
    CreateTarget { target: RenderTarget, properties: TargetProperties },
    /// Stop; the set-up has ended with this result.
    Finish(Result<(), OverlayError>),
}

/// A [`RenderAction`] with its strings as sequences.
pub enum RenderActionView {
    CreateFactory { threading: i32 },
    CreateTextFactory { sharing: i32 },
    CreateTextFormat {
        family: Seq<u16>,
        weight: i32,
        style: i32,
        stretch: i32,
        size: u32,
        locale: Seq<u16>,
    },
    ReadClientRect { window: isize },
    CreateTarget { target: RenderTarget, properties: TargetProperties },
    Finish(Result<(), OverlayError>),
}

impl View for RenderAction {
    type V = RenderActionView;

    open spec fn view(&self) -> RenderActionView {
        match *self {
            RenderAction::CreateFactory { threading } => RenderActionView::CreateFactory {
                threading,
            },
            RenderAction::CreateTextFactory { sharing } => RenderActionView::CreateTextFactory {
                sharing,
            },
            RenderAction::CreateTextFormat {
                family,
                weight,
                style,
                stretch,
                size,
                locale,
            } => RenderActionView::CreateTextFormat {
                family: family@,
                weight,
                style,
                stretch,
                size,
                locale: locale@,
            },
            RenderAction::ReadClientRect { window } => RenderActionView::ReadClientRect { window },
            RenderAction::CreateTarget { target, properties } => RenderActionView::CreateTarget {
                target,
                properties,
            },
            RenderAction::Finish(result) => RenderActionView::Finish(result),
        }
    }
}

impl RenderActionView {
    /// The window that this action is about, if it is about one.
    pub open spec fn window(self) -> Option<isize> {
        match self {
            RenderActionView::ReadClientRect { window } => Some(window),
            RenderActionView::CreateTarget { target, .. } => Some(target.window),
            _ => None,
        }
    }
}

/// The distance from `low` to `high` as an unsigned pixel count. Where `high`
/// lies below `low` the difference wraps round, as two's complement has it.
pub open spec fn extent(low: i32, high: i32) -> u32 {
    ((high - low) % 0x1_0000_0000) as u32
}

/// Computes [`extent`].
pub fn extent_of(low: i32, high: i32) -> (pixels: u32)
    ensures
        pixels == extent(low, high),
        low <= high ==> pixels == high - low,
{
    let difference: i64 = high as i64 - low as i64;
    if difference < 0 {
        (difference + 0x1_0000_0000) as u32
    } else {
        difference as u32
    }
}

/// The pixel size of the client rectangle `rect`.
pub open spec fn size_of(rect: ClientRect) -> PixelSize {
    PixelSize { width: extent(rect.left, rect.right), height: extent(rect.top, rect.bottom) }
}

/// The action that creates the drawing factory, for use from a single
/// thread.
pub open spec fn create_factory() -> RenderActionView {
    RenderActionView::CreateFactory { threading: SINGLE_THREADED }
}

/// The action that creates the text factory, shared with the rest of the
/// process.
pub open spec fn create_text_factory() -> RenderActionView {
    RenderActionView::CreateTextFactory { sharing: SHARED }
}

/// The text format that the overlay asks for: its own font family and size,
/// regular, upright and of normal stretch, in the fixed locale.
pub open spec fn text_format_of(overlay: Overlay) -> RenderActionView {
    RenderActionView::CreateTextFormat {
        family: wide_z(overlay.font@),
        weight: WEIGHT_REGULAR,
        style: STYLE_NORMAL,
        stretch: STRETCH_NORMAL,
        size: overlay.font_size,
        locale: wide_z(LOCALE@),
    }
}

/// The action that creates the overlay's render target on `window`, as large
/// as the client rectangle `rect`.
pub open spec fn create_target(window: isize, rect: ClientRect) -> RenderActionView {
    RenderActionView::CreateTarget {
        target: RenderTarget { window, size: size_of(rect) },
        properties: overlay_properties(),
    }
}

/// The action that ends the set-up with `error`.
pub open spec fn failed(error: OverlayError) -> RenderActionView {
    RenderActionView::Finish(Err(error))
}

/// The overlay after `event`, and what has to be done next.
///
/// The steps come in a fixed order: drawing factory, text factory, text
/// format, client rectangle, render target. A step that failed ends the
/// set-up with its own error and leaves the overlay as it was. Only the
/// created render target changes the overlay: its graphics are then ready,
/// on its own window, with no drawing bracket open.
///
/// The last two steps need the overlay's window. Without one they are not
/// asked for: the rectangle of no window cannot be read, and no target can
/// be made on it.
pub open spec fn startup_step(overlay: Overlay, event: RenderEvent) -> (Overlay, RenderActionView) {
    let window = overlay.window;
    match event {
        RenderEvent::Start => (overlay, create_factory()),
        RenderEvent::FactoryCreated(created) => (
            overlay,
            if created {
                create_text_factory()
            } else {
                failed(OverlayError::ID2D1FactoryFailed)
            },
        ),
        RenderEvent::TextFactoryCreated(created) => (
            overlay,
            if created {
                text_format_of(overlay)
            } else {
                failed(OverlayError::IDWriteFactoryFailed)
            },
        ),
        RenderEvent::TextFormatCreated(created) => (
            overlay,
            if !created {
                failed(OverlayError::IDWriteTextFormatFailed)
            } else if window == 0 {
                failed(OverlayError::GetWindowRectFailed)
            } else {
                RenderActionView::ReadClientRect { window }
            },
        ),
        RenderEvent::ClientRectRead(read) => (
            overlay,
            if read is Some && window != 0 {
                create_target(window, read.unwrap())
            } else {
                failed(OverlayError::GetWindowRectFailed)
            },
        ),
        RenderEvent::TargetCreated(created) => if created is Some && window != 0 {
            (
                Overlay {
                    graphics: Graphics::Ready {
                        target: RenderTarget { window, size: created.unwrap() },
                        frame_open: false,
                    },
                    ..overlay
                },
                RenderActionView::Finish(Ok(())),
            )
        } else {
            (overlay, failed(OverlayError::StartupD2DFailed))
        },
    }
}

impl Overlay {
    /// Takes what has happened while the graphics were being set up and says
    /// what to do next. The caller begins with [`RenderEvent::Start`], does
    /// what each action says, reports how it went, and stops at
    /// [`RenderAction::Finish`].
    ///
    /// Whatever the events, every action that is about a window is about the
    /// overlay's own, which is not the null handle, and the graphics change
    /// only by becoming ready on that window.
    pub fn startup_d2d(&mut self, event: RenderEvent) -> (action: RenderAction)
        ensures
            *final(self) == startup_step(*old(self), event).0,
            action@ == startup_step(*old(self), event).1,
            action@.window() matches Some(window) ==> window == old(self).window && window != 0,
            action@ == RenderActionView::Finish(Ok(())) ==> final(self).window != 0
                && final(self).ready() && !final(self).frame_open(),
            action@ != RenderActionView::Finish(Ok(())) ==> *final(self) == *old(self),
            action matches RenderAction::Finish(Err(error)) ==> error.kind_of()
                == ErrorKind::GraphicsInit,
    {
        match event {
            RenderEvent::Start => RenderAction::CreateFactory { threading: SINGLE_THREADED },
            RenderEvent::FactoryCreated(created) => {
                if created {
                    RenderAction::CreateTextFactory { sharing: SHARED }
                } else {
                    RenderAction::Finish(Err(OverlayError::ID2D1FactoryFailed))
                }
            },
            RenderEvent::TextFactoryCreated(created) => {
                if created {
                    RenderAction::CreateTextFormat {
                        family: encode_wide_z(self.font.as_str()),
                        weight: WEIGHT_REGULAR,
                        style: STYLE_NORMAL,
                        stretch: STRETCH_NORMAL,
                        size: self.font_size,
                        locale: encode_wide_z(LOCALE),
                    }
                } else {
                    RenderAction::Finish(Err(OverlayError::IDWriteFactoryFailed))
                }
            },
            RenderEvent::TextFormatCreated(created) => {
                if !created {
                    RenderAction::Finish(Err(OverlayError::IDWriteTextFormatFailed))
                } else if self.window == 0 {
                    RenderAction::Finish(Err(OverlayError::GetWindowRectFailed))
                } else {
                    RenderAction::ReadClientRect { window: self.window }
                }
            },
            RenderEvent::ClientRectRead(read) => {
                let window = self.window;
                match read {
                    Some(rect) => {
                        if window != 0 {
                            RenderAction::CreateTarget {
                                target: RenderTarget {
                                    window,
                                    size: PixelSize {
                                        width: extent_of(rect.left, rect.right),
                                        height: extent_of(rect.top, rect.bottom),
                                    },
                                },
                                properties: TargetProperties {
                                    kind: KIND_DEFAULT,
                                    format: FORMAT_UNKNOWN,
                                    alpha_mode: ALPHA_PREMULTIPLIED,
                                    dpi_x: DPI_DEFAULT,
                                    dpi_y: DPI_DEFAULT,
                                    usage: USAGE_NONE,
                                    min_level: LEVEL_DEFAULT,
                                    present: PRESENT_NONE,
                                },
                            }
                        } else {
                            RenderAction::Finish(Err(OverlayError::GetWindowRectFailed))
                        }
                    },
                    None => RenderAction::Finish(Err(OverlayError::GetWindowRectFailed)),
                }
            },
            RenderEvent::TargetCreated(created) => {
                let window = self.window;
                match created {
                    Some(size) => {
                        if window != 0 {
                            self.graphics = Graphics::Ready {
                                target: RenderTarget { window, size },
                                frame_open: false,
                            };
                            RenderAction::Finish(Ok(()))
                        } else {
                            RenderAction::Finish(Err(OverlayError::StartupD2DFailed))
                        }
                    },
                    None => RenderAction::Finish(Err(OverlayError::StartupD2DFailed)),
                }
            },
        }
    }
}

/// How the platform answers each request of the set-up: the model of the
/// outside world over which the laws of the whole set-up are stated.
pub struct Platform {
    /// Whether the drawing factory gets created.
    pub factory: bool,
    /// Whether the text factory gets created.
    pub text_factory: bool,
    /// Whether the text format gets created.
    pub text_format: bool,
    /// The client rectangle that the query gives; `None` if it fails.
    pub client_rect: Option<ClientRect>,
    /// Whether the render target gets created.
    pub target: bool,
}

impl Platform {
    /// The event with which this platform answers `action`. A render target,
    /// where it gets created, has the size that was asked for.
    pub open spec fn answer(self, action: RenderActionView) -> RenderEvent {
        match action {
            RenderActionView::CreateFactory { .. } => RenderEvent::FactoryCreated(self.factory),
            RenderActionView::CreateTextFactory { .. } => RenderEvent::TextFactoryCreated(
                self.text_factory,
            ),
            RenderActionView::CreateTextFormat { .. } => RenderEvent::TextFormatCreated(
                self.text_format,
            ),
            RenderActionView::ReadClientRect { .. } => RenderEvent::ClientRectRead(
                self.client_rect,
            ),
            RenderActionView::CreateTarget { target, .. } => RenderEvent::TargetCreated(
                if self.target {
                    Some(target.size)
                } else {
                    None
                },
            ),
            RenderActionView::Finish(_) => RenderEvent::Start,
        }
    }

    /// How many steps of the set-up get asked for on `window`: each step but
    /// the first is asked for only after the one before it has succeeded,
    /// and the last two only of an overlay that has a window.
    pub open spec fn steps_asked(self, window: isize) -> int {
        if !self.factory {
            1
        } else if !self.text_factory {
            2
        } else if !self.text_format || window == 0 {
            3
        } else if self.client_rect is None {
            4
        } else {
            5
        }
    }

    /// The result of the set-up on `window` on this platform: the error of
    /// the first step that fails, success if none does.
    pub open spec fn result(self, window: isize) -> Result<(), OverlayError> {
        if !self.factory {
            Err(OverlayError::ID2D1FactoryFailed)
        } else if !self.text_factory {
            Err(OverlayError::IDWriteFactoryFailed)
        } else if !self.text_format {
            Err(OverlayError::IDWriteTextFormatFailed)
        } else if window == 0 || self.client_rect is None {
            Err(OverlayError::GetWindowRectFailed)
        } else if !self.target {
            Err(OverlayError::StartupD2DFailed)
        } else {
            Ok(())
        }
    }
}

/// The five requests of a set-up that nothing stops, in their order.
pub open spec fn startup_plan(overlay: Overlay, platform: Platform) -> Seq<RenderActionView> {
    seq![
        create_factory(),
        create_text_factory(),
        text_format_of(overlay),
        RenderActionView::ReadClientRect { window: overlay.window },
        create_target(overlay.window, platform.client_rect.unwrap()),
    ]
}

/// The set-up as a whole: the overlay takes `event`, the platform answers
/// each action, and so on until the overlay says `Finish` or `rounds` answers
/// have been given. The result is the overlay at the end and the actions it
/// gave, in order.
pub open spec fn startup_run(
    overlay: Overlay,
    event: RenderEvent,
    platform: Platform,
    rounds: nat,
) -> (Overlay, Seq<RenderActionView>)
    decreases rounds,
{
    let (next, action) = startup_step(overlay, event);
    if action is Finish || rounds == 0 {
        (next, seq![action])
    } else {
        let (last, rest) = startup_run(
            next,
            platform.answer(action),
            platform,
            (rounds - 1) as nat,
        );
        (last, seq![action] + rest)
    }
}

/// The set-up asks for its five steps in their fixed order, stops at the
/// first that fails, and ends within five answers with the result of that
/// step; nothing is asked for after a failure, and nothing is tried twice.
pub proof fn lemma_startup_order(overlay: Overlay, platform: Platform)
    ensures
        startup_run(overlay, RenderEvent::Start, platform, 5).1 == startup_plan(
            overlay,
            platform,
        ).take(platform.steps_asked(overlay.window)).push(
            RenderActionView::Finish(platform.result(overlay.window)),
        ),
{
    reveal_with_fuel(startup_run, 6);
}

/// A set-up that nothing stops asks for the drawing factory for a single
/// thread, for the shared text factory, for the text format, for the client
/// rectangle, and for one render target and no more, with the overlay's
/// fixed properties.
pub proof fn lemma_startup_requests(overlay: Overlay, platform: Platform)
    requires
        platform.result(overlay.window) is Ok,
    ensures
        ({
            let asked = startup_run(overlay, RenderEvent::Start, platform, 5).1;
            &&& asked.len() == 6
            &&& asked[0] == RenderActionView::CreateFactory { threading: SINGLE_THREADED }
            &&& asked[1] == RenderActionView::CreateTextFactory { sharing: SHARED }
            &&& asked[2] == text_format_of(overlay)
            &&& asked[3] == RenderActionView::ReadClientRect { window: overlay.window }
            &&& asked[4] == RenderActionView::CreateTarget {
                target: RenderTarget {
                    window: overlay.window,
                    size: size_of(platform.client_rect.unwrap()),
                },
                properties: overlay_properties(),
            }
            &&& asked[5] == RenderActionView::Finish(Ok(()))
            &&& forall|i: int| 0 <= i < asked.len() && asked[i] is CreateTarget ==> i == 4
        }),
{
    lemma_startup_order(overlay, platform);
}

/// On a platform where every step succeeds, the set-up of an overlay that
/// has a window leaves the graphics ready, with a render target on that
/// window whose size is that of the client rectangle that was read, and with
/// no drawing bracket open. Nothing else of the overlay changes.
pub proof fn lemma_startup_success(overlay: Overlay, platform: Platform)
    requires
        platform.result(overlay.window) is Ok,
    ensures
        startup_run(overlay, RenderEvent::Start, platform, 5).0 == (Overlay {
            graphics: Graphics::Ready {
                target: RenderTarget {
                    window: overlay.window,
                    size: size_of(platform.client_rect.unwrap()),
                },
                frame_open: false,
            },
            ..overlay
        }),
        startup_run(overlay, RenderEvent::Start, platform, 5).0.ready(),
        startup_run(overlay, RenderEvent::Start, platform, 5).1.last()
            == RenderActionView::Finish(Ok(())),
{
    reveal_with_fuel(startup_run, 6);
}

/// Where a step fails, the set-up leaves the overlay exactly as it was:
/// nothing of a set-up that did not end well is kept.
pub proof fn lemma_startup_failure(overlay: Overlay, platform: Platform)
    requires
        platform.result(overlay.window) is Err,
    ensures
        startup_run(overlay, RenderEvent::Start, platform, 5).0 == overlay,
        startup_run(overlay, RenderEvent::Start, platform, 5).1.last()
            == RenderActionView::Finish(platform.result(overlay.window)),
{
    reveal_with_fuel(startup_run, 6);
}

/// A client rectangle whose right and bottom edges do not lie before its left
/// and top edges has exactly its width and height as its pixel size.
pub proof fn lemma_size_of(rect: ClientRect)
    requires
        rect.left <= rect.right,
        rect.top <= rect.bottom,
    ensures
        size_of(rect).width == rect.right - rect.left,
        size_of(rect).height == rect.bottom - rect.top,
{
}

/// Finding and styling the window and then setting up the graphics, where
/// every step of both succeeds, gives a render target on the window that was
/// found, whatever font the overlay was made with; its size is that of the
/// client rectangle read during the set-up.
pub proof fn lemma_ready_on_found_window(overlay: Overlay, desktop: Desktop, platform: Platform)
    requires
        desktop.result() is Ok,
        platform.result(desktop.window) is Ok,
    ensures
        ({
            let styled = init_run(overlay, WindowEvent::Start, desktop, 7).0;
            let started = startup_run(styled, RenderEvent::Start, platform, 5).0;
            &&& desktop.window != 0
            &&& started.window == desktop.window
            &&& started.graphics == Graphics::Ready {
                target: RenderTarget {
                    window: desktop.window,
                    size: size_of(platform.client_rect.unwrap()),
                },
                frame_open: false,
            }
            &&& started.font == overlay.font
            &&& started.font_size == overlay.font_size
        }),
{
    lemma_init_keeps_graphics(overlay, desktop);
    lemma_startup_success(init_run(overlay, WindowEvent::Start, desktop, 7).0, platform);
}

/// Until a set-up has succeeded there is no render target: neither finding
/// and styling the window nor a set-up that fails makes the overlay ready,
/// so nothing in such an overlay meets what the frame calls demand.
pub proof fn lemma_not_ready_without_startup(
    overlay: Overlay,
    desktop: Desktop,
    platform: Platform,
)
    requires
        !overlay.ready(),
        platform.result(desktop.window) is Err,
    ensures
        !init_run(overlay, WindowEvent::Start, desktop, 7).0.ready(),
        !startup_run(
            init_run(overlay, WindowEvent::Start, desktop, 7).0,
            RenderEvent::Start,
            platform,
            5,
        ).0.ready(),
{
    lemma_init_keeps_graphics(overlay, desktop);
    lemma_startup_failure(init_run(overlay, WindowEvent::Start, desktop, 7).0, platform);
}

} // verus!
