use vstd::prelude::*;

use crate::error::{ErrorKind, OverlayError};
use crate::overlay::Overlay;

verus! {

/// The class of the window that the overlay draws on, as a C string: the
/// zero character at its end belongs to it.
pub const WINDOW_CLASS: &'static str = "CEF-OSC-WIDGET\0";

/// The title of the window that the overlay draws on, as a C string.
pub const WINDOW_TITLE: &'static str = "NVIDIA GeForce Overlay\0";

/// The bit that is added to the window's extended style: the layered flag,
/// with which the compositor blends the window by the alpha of what is
/// drawn on it.
pub const STYLE_FLAG: i32 = 0x0008_0000;

/// The index under which a window keeps its extended style.
pub const STYLE_INDEX: i32 = -20;

/// The margin given for each edge when the frame is extended: minus one
/// stands for the whole client area.
pub const WHOLE_AREA: i32 = -1;

/// The colour key of the layered window: black.
pub const COLOR_KEY: u32 = 0;

/// The alpha of the layered window: opaque, so that what shows is decided by
/// the alpha of each pixel drawn.
pub const OPAQUE: u8 = 0xFF;

/// The flag that makes the alpha, not the colour key, take effect.
pub const USE_ALPHA: u32 = 2;

/// The place in the stacking order that a raised window is put behind: the
/// head of the topmost band.
pub const TOPMOST: isize = -1;

/// The flag that keeps a window's size when it is placed.
pub const NO_SIZE: u32 = 1;

/// The flag that keeps a window's position when it is placed.
pub const NO_MOVE: u32 = 2;

/// Both of [`NO_SIZE`] and [`NO_MOVE`]: the window is placed in the stacking
/// order and nowhere else.
pub const KEEP_PLACE: u32 = 3;

/// The command that shows a window where and as large as it is.
pub const SHOW: i32 = 5;

/// How far the frame reaches into the client area, edge by edge.
#[derive(Debug, Clone, Copy, PartialEq, Eq, Structural)]
pub struct Margins {
    pub left: i32,
    pub right: i32,
    pub top: i32,
    pub bottom: i32,
}

/// What has happened while the window was being found and styled.
#[derive(Debug, Clone, Copy, PartialEq, Eq, Structural)]
pub enum WindowEvent {
    /// Nothing yet: the caller wants the window found and styled.
    Start,
    /// The window was looked for; the payload is the handle that was found,
    /// zero if there is no such window.
    Found(isize),
    /// The extended style was read; the payload is what the read gave, zero
    /// if it failed.
    StyleRead(i32),
    /// The extended style was written; the payload is what the write gave,
    /// zero if it failed.
    StyleWritten(isize),
    /// The frame was to be extended; `true` if it was.
    FrameExtended(bool),
    /// The layered-window attributes were to be set; `true` if they were.
    AttributesSet(bool),
    /// The window was to be raised; `true` if it was.
    Raised(bool),
    /// The window was to be shown; `true` if the platform reports success.
    Shown(bool),
}

/// What the caller has to do next while the window is being found and
/// styled.
#[derive(Debug, Clone, Copy, PartialEq, Eq)]
pub enum WindowAction {
    /// Look for the top-level window of this class and title, each a C
    /// string.
    FindWindow { class: &'static str, title: &'static str },
    /// Read the long that `window` keeps under `index`.
    ReadStyle { window: isize, index: i32 },
    /// Write `style` as the long that `window` keeps under `index`.
    WriteStyle { window: isize, index: i32, style: isize },
    /// Have the compositor extend the frame of `window` by `margins`.
    ExtendFrame { window: isize, margins: Margins },
    /// Set the colour key and the alpha of the layered `window`; `flags`
    /// says which of the two takes effect.
    SetLayeredAttributes { window: isize, color_key: u32, alpha: u8, flags: u32 },
    /// Place `window` behind `insert_after` in the stacking order, at `x`,
    /// `y` and `width` by `height` large, as far as `flags` do not say to
    /// keep what it has.
    RaiseTopmost {
        window: isize,
        insert_after: isize,
        x: i32,
        y: i32,
        width: i32,
        height: i32,
        flags: u32,
    },
    /// Show `window` as `command` says.
    Show { window: isize, command: i32 },
    /// Stop; finding and styling have ended with this result.
    Finish(Result<(), OverlayError>),
}

/// The extended style `style` with [`STYLE_FLAG`] added, in the width in
/// which it is written back.
pub open spec fn with_flag(style: i32) -> isize {
    (style | STYLE_FLAG) as isize
}

/// The margins that extend the frame into the whole client area.
pub open spec fn whole_area() -> Margins {
    Margins { left: WHOLE_AREA, right: WHOLE_AREA, top: WHOLE_AREA, bottom: WHOLE_AREA }
}

/// The action that reads the extended style of `window`.
pub open spec fn read_style(window: isize) -> WindowAction {
    WindowAction::ReadStyle { window, index: STYLE_INDEX }
}

/// The action that writes the extended style `style`, which was read from
/// `window`, back with the flag added.
pub open spec fn write_style(window: isize, style: i32) -> WindowAction {
    WindowAction::WriteStyle { window, index: STYLE_INDEX, style: with_flag(style) }
}

/// The action that extends the frame of `window` into its whole client area,
/// on all four edges.
pub open spec fn extend_frame(window: isize) -> WindowAction {
    WindowAction::ExtendFrame { window, margins: whole_area() }
}

/// The action that gives the layered `window` a black colour key and an
/// opaque alpha, of which the alpha takes effect.
pub open spec fn set_attributes(window: isize) -> WindowAction {
    WindowAction::SetLayeredAttributes {
        window,
        color_key: COLOR_KEY,
        alpha: OPAQUE,
        flags: USE_ALPHA,
    }
}

/// The action that puts `window` at the head of the topmost band without
/// moving or resizing it.
pub open spec fn raise(window: isize) -> WindowAction {
    WindowAction::RaiseTopmost {
        window,
        insert_after: TOPMOST,
        x: 0,
        y: 0,
        width: 0,
        height: 0,
        flags: KEEP_PLACE,
    }
}

/// The action that makes `window` visible.
pub open spec fn show(window: isize) -> WindowAction {
    WindowAction::Show { window, command: SHOW }
}

/// What `event` leads to on an overlay whose window is `window`: a step that
/// went well leads to the step after it, the last one to success, and a step
/// that failed ends the sequence with its own error.
pub open spec fn styling(window: isize, event: WindowEvent) -> WindowAction {
    match event {
        WindowEvent::Start => WindowAction::FindWindow {
            class: WINDOW_CLASS,
            title: WINDOW_TITLE,
        },
        WindowEvent::Found(_) => read_style(window),
        WindowEvent::StyleRead(style) => if style == 0 {
            WindowAction::Finish(Err(OverlayError::FailedToGetWindowLong))
        } else {
            write_style(window, style)
        },
        WindowEvent::StyleWritten(previous) => if previous == 0 {
            WindowAction::Finish(Err(OverlayError::FailedToSetWindowLong))
        } else {
            extend_frame(window)
        },
        WindowEvent::FrameExtended(extended) => if extended {
            set_attributes(window)
        } else {
            WindowAction::Finish(Err(OverlayError::FailedToExtendFrame))
        },
        WindowEvent::AttributesSet(set) => if set {
            raise(window)
        } else {
            WindowAction::Finish(Err(OverlayError::FailedSetLayeredWindowAttributes))
        },
        WindowEvent::Raised(raised) => if raised {
            show(window)
        } else {
            WindowAction::Finish(Err(OverlayError::FailedToSetWindowPos))
        },
        WindowEvent::Shown(shown) => if shown {
            WindowAction::Finish(Ok(()))
        } else {
            WindowAction::Finish(Err(OverlayError::ShowWindowFailed))
        },
    }
}

/// The overlay after `event`, and what has to be done next.
///
/// The steps come in a fixed order: find the window, read its style, write
/// the style back with the flag added, extend the frame, set the layered
/// attributes, raise the window, show it. The handle that a look-up gave is
/// kept, whatever it is; nothing else of the overlay changes. Nothing is
/// done to a window before one was found: but for the look-up itself, an
/// overlay without a window answers every event with `WindowNotFound`.
pub open spec fn init_step(overlay: Overlay, event: WindowEvent) -> (Overlay, WindowAction) {
    let window = match event {
        WindowEvent::Found(found) => found,
        _ => overlay.window,
    };
    (
        Overlay { window, ..overlay },
        if window == 0 && event != WindowEvent::Start {
            WindowAction::Finish(Err(OverlayError::WindowNotFound))
        } else {
            styling(window, event)
        },
    )
}

/// The window that `action` is about, if it is about one.
pub open spec fn window_of(action: WindowAction) -> Option<isize> {
    match action {
        WindowAction::FindWindow { .. } => None,
        WindowAction::ReadStyle { window, .. } => Some(window),
        WindowAction::WriteStyle { window, .. } => Some(window),
        WindowAction::ExtendFrame { window, .. } => Some(window),
        WindowAction::SetLayeredAttributes { window, .. } => Some(window),
        WindowAction::RaiseTopmost { window, .. } => Some(window),
        WindowAction::Show { window, .. } => Some(window),
        WindowAction::Finish(_) => None,
    }
}

/// Computes [`styling`].
fn next_styling(window: isize, event: WindowEvent) -> (action: WindowAction)
    ensures
        action == styling(window, event),
{
    match event {
        WindowEvent::Start => WindowAction::FindWindow {
            class: WINDOW_CLASS,
            title: WINDOW_TITLE,
        },
        WindowEvent::Found(_) => WindowAction::ReadStyle { window, index: STYLE_INDEX },
        WindowEvent::StyleRead(style) => {
            if style == 0 {
                WindowAction::Finish(Err(OverlayError::FailedToGetWindowLong))
            } else {
                WindowAction::WriteStyle {
                    window,
                    index: STYLE_INDEX,
                    style: (style | STYLE_FLAG) as isize,
                }
            }
        },
        WindowEvent::StyleWritten(previous) => {
            if previous == 0 {
                WindowAction::Finish(Err(OverlayError::FailedToSetWindowLong))
            } else {
                WindowAction::ExtendFrame {
                    window,
                    margins: Margins {
                        left: WHOLE_AREA,
                        right: WHOLE_AREA,
                        top: WHOLE_AREA,
                        bottom: WHOLE_AREA,
                    },
                }
            }
        },
        WindowEvent::FrameExtended(extended) => {
            if extended {
                WindowAction::SetLayeredAttributes {
                    window,
                    color_key: COLOR_KEY,
                    alpha: OPAQUE,
                    flags: USE_ALPHA,
                }
            } else {
                WindowAction::Finish(Err(OverlayError::FailedToExtendFrame))
            }
        },
        WindowEvent::AttributesSet(set) => {
            if set {
                WindowAction::RaiseTopmost {
                    window,
                    insert_after: TOPMOST,
                    x: 0,
                    y: 0,
                    width: 0,
                    height: 0,
                    flags: KEEP_PLACE,
                }
            } else {
                WindowAction::Finish(Err(OverlayError::FailedSetLayeredWindowAttributes))
            }
        },
        WindowEvent::Raised(raised) => {
            if raised {
                WindowAction::Show { window, command: SHOW }
            } else {
                WindowAction::Finish(Err(OverlayError::FailedToSetWindowPos))
            }
        },
        WindowEvent::Shown(shown) => {
            if shown {
                WindowAction::Finish(Ok(()))
            } else {
                WindowAction::Finish(Err(OverlayError::ShowWindowFailed))
            }
        },
    }
}

impl Overlay {
    /// Takes what has happened while the window was being found and styled
    /// and says what to do next. The caller begins with
    /// [`WindowEvent::Start`], does what each action says, reports how it
    /// went, and stops at [`WindowAction::Finish`].
    ///
    /// Whatever the events, the graphics are left alone, every action that
    /// is about a window is about the overlay's own, which is not the null
    /// handle, and success is reported only of an overlay that has a window.
    pub fn init(&mut self, event: WindowEvent) -> (action: WindowAction)
        ensures
            *final(self) == init_step(*old(self), event).0,
            action == init_step(*old(self), event).1,
            final(self).graphics == old(self).graphics,
            window_of(action) matches Some(window) ==> window == final(self).window && window
                != 0,
            action == WindowAction::Finish(Ok(())) ==> final(self).window != 0,
            action matches WindowAction::Finish(Err(error)) ==> error.kind_of()
                == ErrorKind::WindowLookup,
    {
        match event {
            WindowEvent::Start => {
                return next_styling(self.window, event);
            },
            WindowEvent::Found(found) => {
                self.window = found;
            },
            _ => {},
        }
        if self.window == 0 {
            WindowAction::Finish(Err(OverlayError::WindowNotFound))
        } else {
            next_styling(self.window, event)
        }
    }
}

/// How the desktop answers each request made while the window is found and
/// styled: the model of the outside world over which the laws of the whole
/// sequence are stated.
pub struct Desktop {
    /// The handle that the lookup gives; zero if there is no such window.
    pub window: isize,
    /// What reading the extended style gives; zero if the read fails.
    pub style: i32,
    /// What writing the extended style gives; zero if the write fails.
    pub previous_style: isize,
    /// Whether the frame gets extended.
    pub frame_extended: bool,
    /// Whether the layered-window attributes get set.
    pub attributes_set: bool,
    /// Whether the window gets raised.
    pub raised: bool,
    /// Whether showing the window reports success.
    pub shown: bool,
}

impl Desktop {
    /// The event with which this desktop answers `action`.
    pub open spec fn answer(self, action: WindowAction) -> WindowEvent {
        match action {
            WindowAction::FindWindow { .. } => WindowEvent::Found(self.window),
            WindowAction::ReadStyle { .. } => WindowEvent::StyleRead(self.style),
            WindowAction::WriteStyle { .. } => WindowEvent::StyleWritten(self.previous_style),
            WindowAction::ExtendFrame { .. } => WindowEvent::FrameExtended(self.frame_extended),
            WindowAction::SetLayeredAttributes { .. } => WindowEvent::AttributesSet(
                self.attributes_set,
            ),
            WindowAction::RaiseTopmost { .. } => WindowEvent::Raised(self.raised),
            WindowAction::Show { .. } => WindowEvent::Shown(self.shown),
            WindowAction::Finish(_) => WindowEvent::Start,
        }
    }

    /// How many steps get asked for: each step but the first is asked for
    /// only after the one before it has succeeded.
    pub open spec fn steps_asked(self) -> int {
        if self.window == 0 {
            1
        } else if self.style == 0 {
            2
        } else if self.previous_style == 0 {
            3
        } else if !self.frame_extended {
            4
        } else if !self.attributes_set {
            5
        } else if !self.raised {
            6
        } else {
            7
        }
    }

    /// The result of finding and styling the window on this desktop: the
    /// error of the first step that fails, success if none does.
    pub open spec fn result(self) -> Result<(), OverlayError> {
        if self.window == 0 {
            Err(OverlayError::WindowNotFound)
        } else if self.style == 0 {
            Err(OverlayError::FailedToGetWindowLong)
        } else if self.previous_style == 0 {
            Err(OverlayError::FailedToSetWindowLong)
        } else if !self.frame_extended {
            Err(OverlayError::FailedToExtendFrame)
        } else if !self.attributes_set {
            Err(OverlayError::FailedSetLayeredWindowAttributes)
        } else if !self.raised {
            Err(OverlayError::FailedToSetWindowPos)
        } else if !self.shown {
            Err(OverlayError::ShowWindowFailed)
        } else {
            Ok(())
        }
    }
}

/// The seven requests of a sequence that nothing stops, in their order.
pub open spec fn init_plan(desktop: Desktop) -> Seq<WindowAction> {
    seq![
        WindowAction::FindWindow { class: WINDOW_CLASS, title: WINDOW_TITLE },
        read_style(desktop.window),
        write_style(desktop.window, desktop.style),
        extend_frame(desktop.window),
        set_attributes(desktop.window),
        raise(desktop.window),
        show(desktop.window),
    ]
}

/// Finding and styling as a whole: the overlay takes `event`, the desktop
/// answers each action, and so on until the overlay says `Finish` or `rounds`
/// answers have been given. The result is the overlay at the end and the
/// actions it gave, in order.
pub open spec fn init_run(
    overlay: Overlay,
    event: WindowEvent,
    desktop: Desktop,
    rounds: nat,
) -> (Overlay, Seq<WindowAction>)
    decreases rounds,
{
    let (next, action) = init_step(overlay, event);
    if action is Finish || rounds == 0 {
        (next, seq![action])
    } else {
        let (last, rest) = init_run(next, desktop.answer(action), desktop, (rounds - 1) as nat);
        (last, seq![action] + rest)
    }
}

/// The sequence asks for its seven steps in their fixed order, each on the
/// window that was found, stops at the first that fails, and ends within
/// seven answers with the result of that step; nothing is asked for after a
/// failure, and nothing is tried twice.
pub proof fn lemma_init_order(overlay: Overlay, desktop: Desktop)
    ensures
        init_run(overlay, WindowEvent::Start, desktop, 7).1 == init_plan(desktop).take(
            desktop.steps_asked(),
        ).push(WindowAction::Finish(desktop.result())),
{
    reveal_with_fuel(init_run, 8);
}

/// Whatever the desktop answers, the sequence leaves the overlay with the
/// handle that the lookup gave and changes nothing else: its graphics are
/// as they were.
pub proof fn lemma_init_keeps_graphics(overlay: Overlay, desktop: Desktop)
    ensures
        init_run(overlay, WindowEvent::Start, desktop, 7).0 == (Overlay {
            window: desktop.window,
            ..overlay
        }),
        init_run(overlay, WindowEvent::Start, desktop, 7).0.graphics == overlay.graphics,
{
    reveal_with_fuel(init_run, 8);
}

/// On a desktop without the overlay's window, the sequence ends after the
/// lookup with `WindowNotFound`, and the overlay's graphics are as they
/// were: not set up, if they were not before.
pub proof fn lemma_init_window_missing(overlay: Overlay, desktop: Desktop)
    requires
        desktop.window == 0,
    ensures
        init_run(overlay, WindowEvent::Start, desktop, 7).1 == seq![
            WindowAction::FindWindow { class: WINDOW_CLASS, title: WINDOW_TITLE },
            WindowAction::Finish(Err(OverlayError::WindowNotFound)),
        ],
        init_run(overlay, WindowEvent::Start, desktop, 7).0.graphics == overlay.graphics,
        !overlay.ready() ==> !init_run(overlay, WindowEvent::Start, desktop, 7).0.ready(),
{
    reveal_with_fuel(init_run, 8);
}

/// The style that is written back is the style that was read with the
/// layered flag set: every bit that was set stays set, no other bit but the
/// flag is set, and a style that had the flag already is written back
/// unchanged. Widening keeps its value, and it is never zero.
pub proof fn lemma_style_flag(style: i32)
    ensures
        (style | STYLE_FLAG) & STYLE_FLAG == STYLE_FLAG,
        (style | STYLE_FLAG) & style == style,
        (style | STYLE_FLAG) & !STYLE_FLAG == style & !STYLE_FLAG,
        style & STYLE_FLAG == STYLE_FLAG ==> (style | STYLE_FLAG) == style,
        with_flag(style) == (style | STYLE_FLAG),
        with_flag(style) != 0,
{
    assert((style | 0x0008_0000i32) & 0x0008_0000i32 == 0x0008_0000i32) by (bit_vector);
    assert((style | 0x0008_0000i32) & style == style) by (bit_vector);
    assert((style | 0x0008_0000i32) & !0x0008_0000i32 == style & !0x0008_0000i32)
        by (bit_vector);
    assert(style & 0x0008_0000i32 == 0x0008_0000i32 ==> (style | 0x0008_0000i32) == style)
        by (bit_vector);
    assert((style | 0x0008_0000i32) != 0i32) by (bit_vector);
}

/// The flags with which the window is raised are the two that keep its
/// position and its size, and no other.
pub proof fn lemma_keep_place()
    ensures
        KEEP_PLACE == NO_MOVE | NO_SIZE,
        KEEP_PLACE & NO_MOVE == NO_MOVE,
        KEEP_PLACE & NO_SIZE == NO_SIZE,
{
    assert(3u32 == 2u32 | 1u32) by (bit_vector);
    assert(3u32 & 2u32 == 2u32) by (bit_vector);
    assert(3u32 & 1u32 == 1u32) by (bit_vector);
}

/// Whether `text` is a C string of plain ASCII: it ends in a zero character
/// and holds no other, and every character before that is below `0x80`. The
/// bytes of such a text are its characters, one byte each.
pub open spec fn is_c_string(text: Seq<char>) -> bool {
    &&& text.len() > 0
    &&& text.last() == '\0'
    &&& forall|i: int| 0 <= i < text.len() - 1 ==> '\u{1}' <= #[trigger] text[i] <= '\u{7f}'
}

/// The class and the title that the window is found by are C strings of
/// plain ASCII.
pub proof fn lemma_window_key_is_c_string()
    ensures
        is_c_string(WINDOW_CLASS@),
        is_c_string(WINDOW_TITLE@),
{
    reveal_strlit("CEF-OSC-WIDGET\0");
    reveal_strlit("NVIDIA GeForce Overlay\0");
}

} // verus!
