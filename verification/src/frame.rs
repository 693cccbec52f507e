use vstd::prelude::*;

use crate::error::{ErrorKind, OverlayError};
use crate::overlay::{Graphics, Overlay};
use crate::wide::{encode_wide, utf16};

verus! {

/// A colour as red, green, blue and alpha, each from 0 to 255.
pub type Color = (u8, u8, u8, u8);

/// The colour of a text that was given none: opaque white.
pub const WHITE: Color = (255, 255, 255, 255);

/// One of the three calls that bracket and wipe a frame.
#[derive(Debug, Clone, Copy, PartialEq, Eq, Structural)]
pub enum FrameCommand {
    /// Open the drawing bracket on the render target.
    BeginDraw,
    /// Wipe the render target, to full transparency.
    Clear,
    /// Close the drawing bracket and present what was drawn.
    EndDraw,
}

/// One primitive to draw on the render target. Every coordinate and length
/// is a single-precision number given by its bit pattern, exactly as the
/// caller gave it: nothing is clamped, and a negative size is drawn as the
/// renderer makes of it.
#[derive(Debug, PartialEq, Eq)]
pub enum DrawCommand {
    /// Lay out `text` (UTF-16) in the overlay's text format, in a box of
    /// `layout_width` by `layout_height` pixels, and draw it with its upper
    /// left corner at `x`, `y`.
    Text { x: u32, y: u32, text: Vec<u16>, layout_width: u32, layout_height: u32, color: Color },
    /// Stroke the outline of the rectangle whose upper left corner is `x`,
    /// `y`.
    Rectangle { x: u32, y: u32, width: u32, height: u32, stroke_width: u32, color: Color },
    /// Stroke the outline of the ellipse round `center_x`, `center_y`.
    Ellipse {
        center_x: u32,
        center_y: u32,
        radius_x: u32,
        radius_y: u32,
        stroke_width: u32,
        color: Color,
    },
}

/// A [`DrawCommand`] with its text as a sequence.
pub enum DrawCommandView {
    Text { x: u32, y: u32, text: Seq<u16>, layout_width: u32, layout_height: u32, color: Color },
    Rectangle { x: u32, y: u32, width: u32, height: u32, stroke_width: u32, color: Color },
    Ellipse {
        center_x: u32,
        center_y: u32,
        radius_x: u32,
        radius_y: u32,
        stroke_width: u32,
        color: Color,
    },
}

impl View for DrawCommand {
    type V = DrawCommandView;

    open spec fn view(&self) -> DrawCommandView {
        match *self {
            DrawCommand::Text {
                x,
                y,
                text,
                layout_width,
                layout_height,
                color,
            } => DrawCommandView::Text { x, y, text: text@, layout_width, layout_height, color },
            DrawCommand::Rectangle {
                x,
                y,
                width,
                height,
                stroke_width,
                color,
            } => DrawCommandView::Rectangle { x, y, width, height, stroke_width, color },
            DrawCommand::Ellipse {
                center_x,
                center_y,
                radius_x,
                radius_y,
                stroke_width,
                color,
            } => DrawCommandView::Ellipse {
                center_x,
                center_y,
                radius_x,
                radius_y,
                stroke_width,
                color,
            },
        }
    }
}

/// The options with which a text is drawn: none.
pub const TEXT_OPTIONS_NONE: i32 = 0;

/// What has happened while one primitive was being drawn. A step that failed
/// carries the status that the platform gave for it.
#[derive(Debug, Clone, Copy, PartialEq, Eq)]
pub enum DrawEvent {
    /// Nothing yet: the caller wants the primitive drawn.
    Start,
    /// The text layout was asked for.
    LayoutCreated(Result<(), i32>),
    /// The brush was asked for.
    BrushCreated(Result<(), i32>),
    /// The draw call was made.
    Drawn(Result<(), i32>),
}

/// What the caller has to do next while one primitive is being drawn.
#[derive(Debug, Clone, Copy, PartialEq, Eq)]
pub enum DrawAction<'a> {
    /// Lay out `text` (UTF-16) in the overlay's text format, in a box of
    /// `width` by `height` pixels.
    CreateLayout { text: &'a Vec<u16>, width: u32, height: u32 },
    /// Create a brush of the one solid `color`, on the render target.
    CreateBrush { color: Color },
    /// Draw the layout just made, with the brush just made, with its upper
    /// left corner at `x`, `y`.
    DrawText { x: u32, y: u32, options: i32 },
    /// Stroke this rectangle's outline with the brush just made, in the
    /// default stroke style.
    DrawRectangle { x: u32, y: u32, width: u32, height: u32, stroke_width: u32 },
    /// Stroke this ellipse's outline with the brush just made, in the
    /// default stroke style.
    DrawEllipse { center_x: u32, center_y: u32, radius_x: u32, radius_y: u32, stroke_width: u32 },
    /// Release the brush, then stop; the drawing has ended with this result.
    Release(Result<(), OverlayError>),
    /// Stop; the drawing has ended with this result, and no brush was made.
    Finish(Result<(), OverlayError>),
}

/// A [`DrawAction`] with its text as a sequence.
pub enum DrawActionView {
    CreateLayout { text: Seq<u16>, width: u32, height: u32 },
    CreateBrush { color: Color },
    DrawText { x: u32, y: u32, options: i32 },
    DrawRectangle { x: u32, y: u32, width: u32, height: u32, stroke_width: u32 },
    DrawEllipse { center_x: u32, center_y: u32, radius_x: u32, radius_y: u32, stroke_width: u32 },
    Release(Result<(), OverlayError>),
    Finish(Result<(), OverlayError>),
}

impl<'a> View for DrawAction<'a> {
    type V = DrawActionView;

    open spec fn view(&self) -> DrawActionView {
        match *self {
            DrawAction::CreateLayout { text, width, height } => DrawActionView::CreateLayout {
                text: text@,
                width,
                height,
            },
            DrawAction::CreateBrush { color } => DrawActionView::CreateBrush { color },
            DrawAction::DrawText { x, y, options } => DrawActionView::DrawText { x, y, options },
            DrawAction::DrawRectangle {
                x,
                y,
                width,
                height,
                stroke_width,
            } => DrawActionView::DrawRectangle { x, y, width, height, stroke_width },
            DrawAction::DrawEllipse {
                center_x,
                center_y,
                radius_x,
                radius_y,
                stroke_width,
            } => DrawActionView::DrawEllipse {
                center_x,
                center_y,
                radius_x,
                radius_y,
                stroke_width,
            },
            DrawAction::Release(result) => DrawActionView::Release(result),
            DrawAction::Finish(result) => DrawActionView::Finish(result),
        }
    }
}

impl DrawCommandView {
    /// The colour of this primitive.
    pub open spec fn color(self) -> Color {
        match self {
            DrawCommandView::Text { color, .. } => color,
            DrawCommandView::Rectangle { color, .. } => color,
            DrawCommandView::Ellipse { color, .. } => color,
        }
    }

    /// The first step of drawing this primitive: the layout for a text, the
    /// brush for anything else.
    pub open spec fn first_step(self) -> DrawActionView {
        match self {
            DrawCommandView::Text {
                text,
                layout_width,
                layout_height,
                ..
            } => DrawActionView::CreateLayout { text, width: layout_width, height: layout_height },
            _ => DrawActionView::CreateBrush { color: self.color() },
        }
    }

    /// The one draw call of this primitive.
    pub open spec fn draw_call(self) -> DrawActionView {
        match self {
            DrawCommandView::Text { x, y, .. } => DrawActionView::DrawText {
                x,
                y,
                options: TEXT_OPTIONS_NONE,
            },
            DrawCommandView::Rectangle {
                x,
                y,
                width,
                height,
                stroke_width,
                ..
            } => DrawActionView::DrawRectangle { x, y, width, height, stroke_width },
            DrawCommandView::Ellipse {
                center_x,
                center_y,
                radius_x,
                radius_y,
                stroke_width,
                ..
            } => DrawActionView::DrawEllipse {
                center_x,
                center_y,
                radius_x,
                radius_y,
                stroke_width,
            },
        }
    }
}

/// What has to be done next for `command` after `event`.
///
/// A text is laid out first; then, as for every primitive, a fresh brush of
/// its colour is made, one draw call is made with it, and the brush is
/// released. A step that failed ends the drawing with an error that carries
/// the platform's status unchanged: a brush that could not be made has an
/// error of its own, a failed layout and a failed draw call share one. After
/// a failed layout no brush is made, and after a failed brush nothing is
/// drawn.
pub open spec fn drawing(command: DrawCommandView, event: DrawEvent) -> DrawActionView {
    match event {
        DrawEvent::Start => command.first_step(),
        DrawEvent::LayoutCreated(created) => match created {
            Ok(_) => DrawActionView::CreateBrush { color: command.color() },
            Err(status) => DrawActionView::Finish(Err(OverlayError::DrawTextFailed(status))),
        },
        DrawEvent::BrushCreated(created) => match created {
            Ok(_) => command.draw_call(),
            Err(status) => DrawActionView::Finish(Err(OverlayError::CreateBrushFailed(status))),
        },
        DrawEvent::Drawn(drawn) => match drawn {
            Ok(_) => DrawActionView::Release(Ok(())),
            Err(status) => DrawActionView::Release(Err(OverlayError::DrawTextFailed(status))),
        },
    }
}

impl DrawCommand {
    /// The colour of this primitive.
    pub fn color(&self) -> (color: Color)
        ensures
            color == self@.color(),
    {
        match self {
            DrawCommand::Text { color, .. } => *color,
            DrawCommand::Rectangle { color, .. } => *color,
            DrawCommand::Ellipse { color, .. } => *color,
        }
    }
}

/// Takes what has happened while `command` was being carried out and says
/// what to do next. The caller begins with [`DrawEvent::Start`], does what
/// each action says, reports how it went, and stops at
/// [`DrawAction::Release`] or [`DrawAction::Finish`].
pub fn draw_step<'a>(command: &'a DrawCommand, event: DrawEvent) -> (action: DrawAction<'a>)
    ensures
        action@ == drawing(command@, event),
        action matches DrawAction::Finish(Err(error)) ==> error.kind_of() == ErrorKind::Draw,
        action matches DrawAction::Release(Err(error)) ==> error.kind_of() == ErrorKind::Draw,
{
    match event {
        DrawEvent::Start => match command {
            DrawCommand::Text {
                text,
                layout_width,
                layout_height,
                ..
            } => DrawAction::CreateLayout { text, width: *layout_width, height: *layout_height },
            _ => DrawAction::CreateBrush { color: command.color() },
        },
        DrawEvent::LayoutCreated(created) => match created {
            Ok(_) => DrawAction::CreateBrush { color: command.color() },
            Err(status) => DrawAction::Finish(Err(OverlayError::DrawTextFailed(status))),
        },
        DrawEvent::BrushCreated(created) => match created {
            Ok(_) => match command {
                DrawCommand::Text { x, y, .. } => DrawAction::DrawText {
                    x: *x,
                    y: *y,
                    options: TEXT_OPTIONS_NONE,
                },
                DrawCommand::Rectangle {
                    x,
                    y,
                    width,
                    height,
                    stroke_width,
                    ..
                } => DrawAction::DrawRectangle {
                    x: *x,
                    y: *y,
                    width: *width,
                    height: *height,
                    stroke_width: *stroke_width,
                },
                DrawCommand::Ellipse {
                    center_x,
                    center_y,
                    radius_x,
                    radius_y,
                    stroke_width,
                    ..
                } => DrawAction::DrawEllipse {
                    center_x: *center_x,
                    center_y: *center_y,
                    radius_x: *radius_x,
                    radius_y: *radius_y,
                    stroke_width: *stroke_width,
                },
            },
            Err(status) => DrawAction::Finish(Err(OverlayError::CreateBrushFailed(status))),
        },
        DrawEvent::Drawn(drawn) => match drawn {
            Ok(_) => DrawAction::Release(Ok(())),
            Err(status) => DrawAction::Release(Err(OverlayError::DrawTextFailed(status))),
        },
    }
}

/// How the renderer answers each request made while one primitive is drawn:
/// the model of the outside world over which the laws of a whole drawing are
/// stated.
pub struct Renderer {
    /// How laying out a text goes.
    pub layout: Result<(), i32>,
    /// How making a brush goes.
    pub brush: Result<(), i32>,
    /// How the draw call goes.
    pub drawn: Result<(), i32>,
}

impl Renderer {
    /// The event with which this renderer answers `action`.
    pub open spec fn answer(self, action: DrawActionView) -> DrawEvent {
        match action {
            DrawActionView::CreateLayout { .. } => DrawEvent::LayoutCreated(self.layout),
            DrawActionView::CreateBrush { .. } => DrawEvent::BrushCreated(self.brush),
            DrawActionView::DrawText { .. } => DrawEvent::Drawn(self.drawn),
            DrawActionView::DrawRectangle { .. } => DrawEvent::Drawn(self.drawn),
            DrawActionView::DrawEllipse { .. } => DrawEvent::Drawn(self.drawn),
            DrawActionView::Release(_) => DrawEvent::Start,
            DrawActionView::Finish(_) => DrawEvent::Start,
        }
    }
}

/// One drawing as a whole: `command` takes `event`, the renderer answers
/// each action, and so on until the drawing ends or `rounds` answers have
/// been given. The result is the actions that were given, in order.
pub open spec fn draw_run(
    command: DrawCommandView,
    event: DrawEvent,
    renderer: Renderer,
    rounds: nat,
) -> Seq<DrawActionView>
    decreases rounds,
{
    let action = drawing(command, event);
    if action is Finish || action is Release || rounds == 0 {
        seq![action]
    } else {
        seq![action] + draw_run(command, renderer.answer(action), renderer, (rounds - 1) as nat)
    }
}

/// What a whole drawing of `command` asks for on `renderer`, from its first
/// step to its end.
pub open spec fn draw_plan(command: DrawCommandView, renderer: Renderer) -> Seq<DrawActionView> {
    let brush = DrawActionView::CreateBrush { color: command.color() };
    let layout = if command is Text {
        seq![command.first_step()]
    } else {
        Seq::empty()
    };
    if command is Text && renderer.layout is Err {
        layout.push(
            DrawActionView::Finish(Err(OverlayError::DrawTextFailed(renderer.layout->Err_0))),
        )
    } else if renderer.brush is Err {
        layout.push(brush).push(
            DrawActionView::Finish(Err(OverlayError::CreateBrushFailed(renderer.brush->Err_0))),
        )
    } else {
        layout.push(brush).push(command.draw_call()).push(
            DrawActionView::Release(
                match renderer.drawn {
                    Ok(_) => Ok(()),
                    Err(status) => Err(OverlayError::DrawTextFailed(status)),
                },
            ),
        )
    }
}

/// A drawing asks for its steps in their fixed order and stops at the first
/// that fails: the layout (of a text only), one brush, one draw call, the
/// release of the brush. After a failed layout no brush is made and nothing
/// is drawn; after a failed brush nothing is drawn; a brush that was made is
/// released, however the draw call went.
pub proof fn lemma_draw_order(command: DrawCommandView, renderer: Renderer)
    ensures
        draw_run(command, DrawEvent::Start, renderer, 3) == draw_plan(command, renderer),
{
    reveal_with_fuel(draw_run, 4);
}

/// A drawing succeeds exactly where none of its steps fails, and then it has
/// made one brush, one draw call with it, and has released the brush.
pub proof fn lemma_draw_success(command: DrawCommandView, renderer: Renderer)
    ensures
        draw_run(command, DrawEvent::Start, renderer, 3).last() == DrawActionView::Release(Ok(()))
            <==> (command is Text ==> renderer.layout is Ok) && renderer.brush is Ok
            && renderer.drawn is Ok,
        draw_run(command, DrawEvent::Start, renderer, 3).last() != DrawActionView::Finish(Ok(())),
{
    lemma_draw_order(command, renderer);
}

impl Overlay {
    /// This overlay with the drawing bracket of its render target open or
    /// closed, as `open` says; an overlay without a render target is left as
    /// it is.
    pub open spec fn with_frame(self, open: bool) -> Overlay {
        match self.graphics {
            Graphics::Ready { target, .. } => Overlay {
                graphics: Graphics::Ready { target, frame_open: open },
                ..self
            },
            Graphics::Uninitialized => self,
        }
    }

    /// Opens a frame. The render target must exist, and no frame may be open
    /// on it: frames do not nest.
    pub fn begin_scene(&mut self) -> (command: FrameCommand)
        requires
            old(self).ready(),
            !old(self).frame_open(),
        ensures
            command == FrameCommand::BeginDraw,
            *final(self) == old(self).with_frame(true),
            final(self).frame_open(),
    {
        match self.graphics {
            Graphics::Ready { target, .. } => {
                self.graphics = Graphics::Ready { target, frame_open: true };
            },
            Graphics::Uninitialized => {},
        }
        FrameCommand::BeginDraw
    }

    /// Closes the frame. The render target must exist.
    pub fn end_scene(&mut self) -> (command: FrameCommand)
        requires
            old(self).ready(),
        ensures
            command == FrameCommand::EndDraw,
            *final(self) == old(self).with_frame(false),
            !final(self).frame_open(),
    {
        match self.graphics {
            Graphics::Ready { target, .. } => {
                self.graphics = Graphics::Ready { target, frame_open: false };
            },
            Graphics::Uninitialized => {},
        }
        FrameCommand::EndDraw
    }

    /// Wipes the frame. The render target must exist.
    pub fn clear_scene(&mut self) -> (command: FrameCommand)
        requires
            old(self).ready(),
        ensures
            command == FrameCommand::Clear,
            *final(self) == *old(self),
    {
        FrameCommand::Clear
    }

    /// Ends the overlay's life: one last frame that is opened, wiped and
    /// closed, after which the graphics are gone. The render target must
    /// exist and no frame may be open on it.
    pub fn shutdown(&mut self) -> (commands: [FrameCommand; 3])
        requires
            old(self).ready(),
            !old(self).frame_open(),
        ensures
            commands@ == last_frame(),
            *final(self) == (Overlay { graphics: Graphics::Uninitialized, ..*old(self) }),
    {
        self.graphics = Graphics::Uninitialized;
        [FrameCommand::BeginDraw, FrameCommand::Clear, FrameCommand::EndDraw]
    }

    /// Draws `text` with its upper left corner at `position`, in `color` or,
    /// where none is given, in opaque white. The text is laid out in a box as
    /// large as the render target. Without a render target nothing can be
    /// drawn and the error says so; else the command to carry out is
    /// returned. The overlay itself does not change.
    pub fn draw_text(&mut self, position: (u32, u32), text: String, color: Option<Color>) -> (result:
        Result<DrawCommand, OverlayError>)
        ensures
            *final(self) == *old(self),
            match result {
                Ok(command) => old(self).graphics matches Graphics::Ready { target, .. }
                    && command@ == (DrawCommandView::Text {
                    x: position.0,
                    y: position.1,
                    text: utf16(text@),
                    layout_width: target.size.width,
                    layout_height: target.size.height,
                    color: match color {
                        Some(given) => given,
                        None => WHITE,
                    },
                }),
                Err(error) => !old(self).ready() && error == OverlayError::NoRenderTarget,
            },
    {
        match self.graphics {
            Graphics::Uninitialized => Err(OverlayError::NoRenderTarget),
            Graphics::Ready { target, .. } => Ok(
                DrawCommand::Text {
                    x: position.0,
                    y: position.1,
                    text: encode_wide(text.as_str()),
                    layout_width: target.size.width,
                    layout_height: target.size.height,
                    color: match color {
                        Some(given) => given,
                        None => WHITE,
                    },
                },
            ),
        }
    }

    /// Strokes the outline of the rectangle with its upper left corner at
    /// `position` and of `size` (width, then height), `stroke_width` wide, in
    /// `color`. Without a render target nothing can be drawn and the error
    /// says so; else the command to carry out is returned. The overlay itself
    /// does not change.
    pub fn draw_rect(
        &mut self,
        position: (u32, u32),
        size: (u32, u32),
        stroke_width: u32,
        color: Color,
    ) -> (result: Result<DrawCommand, OverlayError>)
        ensures
            *final(self) == *old(self),
            match result {
                Ok(command) => old(self).ready() && command@ == (DrawCommandView::Rectangle {
                    x: position.0,
                    y: position.1,
                    width: size.0,
                    height: size.1,
                    stroke_width,
                    color,
                }),
                Err(error) => !old(self).ready() && error == OverlayError::NoRenderTarget,
            },
    {
        if !self.is_ready() {
            return Err(OverlayError::NoRenderTarget);
        }
        Ok(
            DrawCommand::Rectangle {
                x: position.0,
                y: position.1,
                width: size.0,
                height: size.1,
                stroke_width,
                color,
            },
        )
    }

    /// Strokes the outline of the circle round `center` with `radius`,
    /// `stroke_width` wide, in `color`: an ellipse whose two radii are equal.
    /// Without a render target nothing can be drawn and the error says so;
    /// else the command to carry out is returned. The overlay itself does not
    /// change.
    pub fn draw_circle(
        &mut self,
        center: (u32, u32),
        radius: u32,
        stroke_width: u32,
        color: Color,
    ) -> (result: Result<DrawCommand, OverlayError>)
        ensures
            *final(self) == *old(self),
            match result {
                Ok(command) => old(self).ready() && command@ == (DrawCommandView::Ellipse {
                    center_x: center.0,
                    center_y: center.1,
                    radius_x: radius,
                    radius_y: radius,
                    stroke_width,
                    color,
                }),
                Err(error) => !old(self).ready() && error == OverlayError::NoRenderTarget,
            },
    {
        if !self.is_ready() {
            return Err(OverlayError::NoRenderTarget);
        }
        Ok(
            DrawCommand::Ellipse {
                center_x: center.0,
                center_y: center.1,
                radius_x: radius,
                radius_y: radius,
                stroke_width,
                color,
            },
        )
    }
}

/// The last frame of an overlay: opened, wiped, closed.
pub open spec fn last_frame() -> Seq<FrameCommand> {
    seq![FrameCommand::BeginDraw, FrameCommand::Clear, FrameCommand::EndDraw]
}

/// One thing that was sent to the render target.
pub enum Sent {
    Frame(FrameCommand),
    Draw(DrawCommandView),
}

/// What the window shows after everything in `history` was sent to its
/// render target, in order: the primitives drawn since it was last wiped.
pub open spec fn shown(history: Seq<Sent>) -> Seq<DrawCommandView>
    decreases history.len(),
{
    if history.len() == 0 {
        Seq::empty()
    } else {
        match history.last() {
            Sent::Frame(FrameCommand::Clear) => Seq::empty(),
            Sent::Frame(_) => shown(history.drop_last()),
            Sent::Draw(primitive) => shown(history.drop_last()).push(primitive),
        }
    }
}

/// `history`, followed by the three commands of the last frame.
pub open spec fn then_last_frame(history: Seq<Sent>) -> Seq<Sent> {
    history + last_frame().map_values(|command: FrameCommand| Sent::Frame(command))
}

/// Whatever was drawn before, the last frame leaves the window blank.
pub proof fn lemma_last_frame_blanks(history: Seq<Sent>)
    ensures
        shown(then_last_frame(history)) == Seq::<DrawCommandView>::empty(),
{
    let all = then_last_frame(history);
    assert(all.len() == history.len() + 3);
    assert(all.last() == Sent::Frame(FrameCommand::EndDraw));
    assert(all.drop_last().last() == Sent::Frame(FrameCommand::Clear));
    reveal_with_fuel(shown, 3);
}

} // verus!
