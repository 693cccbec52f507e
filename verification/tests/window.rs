use nvidia_overlay::error::ErrorKind;
use nvidia_overlay::overlay::Graphics;
use nvidia_overlay::window::{
    Margins, WindowAction, WindowEvent, COLOR_KEY, KEEP_PLACE, NO_MOVE, NO_SIZE, OPAQUE, SHOW,
    STYLE_FLAG, STYLE_INDEX, TOPMOST, USE_ALPHA, WHOLE_AREA, WINDOW_CLASS, WINDOW_TITLE,
};
use nvidia_overlay::{Overlay, OverlayError};

/// A desktop that answers each request with a fixed value.
struct Desktop {
    window: isize,
    style: i32,
    previous_style: isize,
    frame_extended: bool,
    attributes_set: bool,
    raised: bool,
    shown: bool,
}

fn willing() -> Desktop {
    Desktop {
        window: 0x5_0A3C,
        style: 0x0000_0088,
        previous_style: 0x0000_0088,
        frame_extended: true,
        attributes_set: true,
        raised: true,
        shown: true,
    }
}

fn answer(desktop: &Desktop, action: &WindowAction) -> WindowEvent {
    match action {
        WindowAction::FindWindow { .. } => WindowEvent::Found(desktop.window),
        WindowAction::ReadStyle { .. } => WindowEvent::StyleRead(desktop.style),
        WindowAction::WriteStyle { .. } => WindowEvent::StyleWritten(desktop.previous_style),
        WindowAction::ExtendFrame { .. } => WindowEvent::FrameExtended(desktop.frame_extended),
        WindowAction::SetLayeredAttributes { .. } => {
            WindowEvent::AttributesSet(desktop.attributes_set)
        }
        WindowAction::RaiseTopmost { .. } => WindowEvent::Raised(desktop.raised),
        WindowAction::Show { .. } => WindowEvent::Shown(desktop.shown),
        WindowAction::Finish(_) => unreachable!(),
    }
}

/// Runs the whole sequence and returns every action that the overlay gave.
fn run(overlay: &mut Overlay, desktop: &Desktop) -> Vec<WindowAction> {
    let mut actions = Vec::new();
    let mut event = WindowEvent::Start;
    loop {
        let action = overlay.init(event);
        actions.push(action);
        assert!(actions.len() <= 8, "the sequence did not end");
        if let WindowAction::Finish(_) = action {
            return actions;
        }
        event = answer(desktop, &action);
    }
}

fn result_of(actions: &[WindowAction]) -> Result<(), OverlayError> {
    match actions.last() {
        Some(WindowAction::Finish(result)) => *result,
        _ => panic!("the sequence did not end in a result"),
    }
}

#[test]
fn init_asks_for_the_seven_steps_in_order() {
    let mut overlay = Overlay::new("Calibri", 18.0f32.to_bits());
    let actions = run(&mut overlay, &willing());
    let window = 0x5_0A3C;
    assert_eq!(
        actions,
        vec![
            WindowAction::FindWindow {
                class: "CEF-OSC-WIDGET\0",
                title: "NVIDIA GeForce Overlay\0"
            },
            WindowAction::ReadStyle { window, index: -20 },
            WindowAction::WriteStyle { window, index: -20, style: 0x0008_0088 },
            WindowAction::ExtendFrame {
                window,
                margins: Margins { left: -1, right: -1, top: -1, bottom: -1 }
            },
            WindowAction::SetLayeredAttributes { window, color_key: 0, alpha: 255, flags: 2 },
            WindowAction::RaiseTopmost {
                window,
                insert_after: -1,
                x: 0,
                y: 0,
                width: 0,
                height: 0,
                flags: 3
            },
            WindowAction::Show { window, command: 5 },
            WindowAction::Finish(Ok(())),
        ]
    );
    assert_eq!(overlay.window, window);
    assert_eq!(overlay.graphics, Graphics::Uninitialized);
}

#[test]
fn init_starts_with_the_lookup() {
    let mut overlay = Overlay::new("Calibri", 18.0f32.to_bits());
    assert_eq!(
        overlay.init(WindowEvent::Start),
        WindowAction::FindWindow { class: WINDOW_CLASS, title: WINDOW_TITLE }
    );
    assert_eq!(overlay.window, 0);
}

#[test]
fn init_without_the_window_is_window_not_found() {
    let mut overlay = Overlay::new("Calibri", 18.0f32.to_bits());
    let actions = run(&mut overlay, &Desktop { window: 0, ..willing() });
    assert_eq!(
        actions,
        vec![
            WindowAction::FindWindow { class: WINDOW_CLASS, title: WINDOW_TITLE },
            WindowAction::Finish(Err(OverlayError::WindowNotFound)),
        ]
    );
    assert_eq!(overlay.window, 0);
    assert_eq!(overlay.graphics, Graphics::Uninitialized);
    assert!(!overlay.is_ready());
    assert_eq!(overlay.font, "Calibri");
    assert_eq!(overlay.font_size, 18.0f32.to_bits());
}

#[test]
fn init_fails_where_the_style_cannot_be_read() {
    let mut overlay = Overlay::new("Calibri", 18.0f32.to_bits());
    let actions = run(&mut overlay, &Desktop { style: 0, ..willing() });
    assert_eq!(actions.len(), 3);
    assert_eq!(actions[1], WindowAction::ReadStyle { window: 0x5_0A3C, index: -20 });
    assert_eq!(result_of(&actions), Err(OverlayError::FailedToGetWindowLong));
    assert_eq!(overlay.window, 0x5_0A3C);
}

#[test]
fn init_fails_where_the_style_cannot_be_written() {
    let mut overlay = Overlay::new("Calibri", 18.0f32.to_bits());
    let actions = run(&mut overlay, &Desktop { previous_style: 0, ..willing() });
    assert_eq!(actions.len(), 4);
    assert_eq!(result_of(&actions), Err(OverlayError::FailedToSetWindowLong));
}

#[test]
fn init_fails_where_the_frame_is_not_extended() {
    let mut overlay = Overlay::new("Calibri", 18.0f32.to_bits());
    let actions = run(&mut overlay, &Desktop { frame_extended: false, ..willing() });
    assert_eq!(actions.len(), 5);
    assert_eq!(result_of(&actions), Err(OverlayError::FailedToExtendFrame));
}

#[test]
fn init_fails_where_the_attributes_are_not_set() {
    let mut overlay = Overlay::new("Calibri", 18.0f32.to_bits());
    let actions = run(&mut overlay, &Desktop { attributes_set: false, ..willing() });
    assert_eq!(actions.len(), 6);
    assert_eq!(result_of(&actions), Err(OverlayError::FailedSetLayeredWindowAttributes));
}

#[test]
fn init_fails_where_the_window_is_not_raised() {
    let mut overlay = Overlay::new("Calibri", 18.0f32.to_bits());
    let actions = run(&mut overlay, &Desktop { raised: false, ..willing() });
    assert_eq!(actions.len(), 7);
    assert_eq!(result_of(&actions), Err(OverlayError::FailedToSetWindowPos));
}

#[test]
fn init_fails_where_the_window_is_not_shown() {
    let mut overlay = Overlay::new("Calibri", 18.0f32.to_bits());
    let actions = run(&mut overlay, &Desktop { shown: false, ..willing() });
    assert_eq!(actions.len(), 8);
    assert_eq!(actions[6], WindowAction::Show { window: 0x5_0A3C, command: 5 });
    assert_eq!(result_of(&actions), Err(OverlayError::ShowWindowFailed));
}

#[test]
fn init_reports_the_first_failure_only() {
    let mut overlay = Overlay::new("Calibri", 18.0f32.to_bits());
    let desktop = Desktop { style: 0, frame_extended: false, shown: false, ..willing() };
    let actions = run(&mut overlay, &desktop);
    assert_eq!(actions.len(), 3);
    assert_eq!(result_of(&actions), Err(OverlayError::FailedToGetWindowLong));
}

#[test]
fn init_adds_the_layered_flag_to_the_style_that_was_read() {
    let mut overlay = Overlay::new("Calibri", 18.0f32.to_bits());
    overlay.init(WindowEvent::Found(9));
    assert_eq!(
        overlay.init(WindowEvent::StyleRead(0x0000_0088)),
        WindowAction::WriteStyle { window: 9, index: -20, style: 0x0008_0088 }
    );
    // the click-through bit alone does not stand for the layered flag
    assert_eq!(
        overlay.init(WindowEvent::StyleRead(0x20)),
        WindowAction::WriteStyle { window: 9, index: -20, style: 0x0008_0020 }
    );
    // a style that has the flag already is written back as it is
    assert_eq!(
        overlay.init(WindowEvent::StyleRead(0x0008_00A8)),
        WindowAction::WriteStyle { window: 9, index: -20, style: 0x0008_00A8 }
    );
    // a style with its top bit set keeps its sign when it is widened
    assert_eq!(
        overlay.init(WindowEvent::StyleRead(i32::MIN)),
        WindowAction::WriteStyle { window: 9, index: -20, style: (i32::MIN | 0x0008_0000) as isize }
    );
    assert_eq!(
        overlay.init(WindowEvent::StyleRead(-1)),
        WindowAction::WriteStyle { window: 9, index: -20, style: -1 }
    );
    // every bit that was set stays set, and the flag is the only one added
    for style in [1, 0x20, 0x88, 0x0004_0000, 0x0010_0000, 0x7FF7_FFFF, i32::MIN] {
        match overlay.init(WindowEvent::StyleRead(style)) {
            WindowAction::WriteStyle { style: written, .. } => {
                assert_eq!(written & style as isize, style as isize);
                assert_eq!(written & 0x0008_0000, 0x0008_0000);
                assert_eq!(written & !0x0008_0000, style as isize & !0x0008_0000);
            }
            other => panic!("{:?}", other),
        }
    }
}

#[test]
fn init_keeps_the_handle_that_was_found() {
    let mut overlay = Overlay::new("Calibri", 18.0f32.to_bits());
    assert_eq!(
        overlay.init(WindowEvent::Found(-7)),
        WindowAction::ReadStyle { window: -7, index: -20 }
    );
    assert_eq!(overlay.window, -7);
    assert_eq!(
        overlay.init(WindowEvent::Raised(true)),
        WindowAction::Show { window: -7, command: 5 }
    );
    assert_eq!(
        overlay.init(WindowEvent::Found(0)),
        WindowAction::Finish(Err(OverlayError::WindowNotFound))
    );
    assert_eq!(overlay.window, 0);
}

#[test]
fn init_does_nothing_to_a_window_before_one_was_found() {
    let mut overlay = Overlay::new("Calibri", 18.0f32.to_bits());
    for event in [
        WindowEvent::StyleRead(0x0000_0088),
        WindowEvent::StyleWritten(0x0000_0088),
        WindowEvent::FrameExtended(true),
        WindowEvent::AttributesSet(true),
        WindowEvent::Raised(true),
        WindowEvent::Shown(true),
        WindowEvent::Shown(false),
    ] {
        assert_eq!(overlay.init(event), WindowAction::Finish(Err(OverlayError::WindowNotFound)));
        assert_eq!(overlay.window, 0);
    }
}

#[test]
fn window_constants_have_their_values() {
    assert_eq!(WINDOW_CLASS, "CEF-OSC-WIDGET\0");
    assert_eq!(WINDOW_TITLE, "NVIDIA GeForce Overlay\0");
    assert_eq!(STYLE_FLAG, 0x0008_0000);
    assert_eq!(STYLE_INDEX, -20);
    assert_eq!(WHOLE_AREA, -1);
    assert_eq!(COLOR_KEY, 0);
    assert_eq!(OPAQUE, 255);
    assert_eq!(USE_ALPHA, 2);
    assert_eq!(TOPMOST, -1);
    assert_eq!(KEEP_PLACE, NO_MOVE | NO_SIZE);
    assert_eq!(KEEP_PLACE, 3);
    assert_eq!(SHOW, 5);
}

#[test]
fn window_key_is_ascii_and_closed_by_one_zero() {
    for key in [WINDOW_CLASS, WINDOW_TITLE] {
        let bytes = key.as_bytes();
        assert_eq!(bytes.last(), Some(&0));
        assert!(bytes[..bytes.len() - 1].iter().all(|b| (1..0x80).contains(b)));
    }
    assert_eq!(WINDOW_CLASS.len(), 15);
    assert_eq!(WINDOW_TITLE.len(), 23);
}

#[test]
fn every_error_has_its_kind() {
    let window = [
        OverlayError::WindowNotFound,
        OverlayError::FailedToGetWindowLong,
        OverlayError::FailedToSetWindowLong,
        OverlayError::FailedToExtendFrame,
        OverlayError::FailedSetLayeredWindowAttributes,
        OverlayError::FailedToSetWindowPos,
        OverlayError::ShowWindowFailed,
    ];
    let graphics = [
        OverlayError::ID2D1FactoryFailed,
        OverlayError::StartupD2DFailed,
        OverlayError::IDWriteFactoryFailed,
        OverlayError::IDWriteTextFormatFailed,
        OverlayError::GetWindowRectFailed,
    ];
    let draw = [
        OverlayError::NoRenderTarget,
        OverlayError::DrawFailed,
        OverlayError::GetWriteTextFormatFailed,
        OverlayError::DrawTextFailed(-1),
        OverlayError::CreateBrushFailed(7),
        OverlayError::CreateSolidColorBrushFailed,
        OverlayError::ID2D1BrushCastFailed,
    ];
    assert!(window.iter().all(|e| e.kind() == ErrorKind::WindowLookup));
    assert!(graphics.iter().all(|e| e.kind() == ErrorKind::GraphicsInit));
    assert!(draw.iter().all(|e| e.kind() == ErrorKind::Draw));
}

#[test]
fn new_overlay_has_no_window_and_no_graphics() {
    let overlay = Overlay::new("Calibri", 18.0f32.to_bits());
    assert_eq!(overlay.window, 0);
    assert_eq!(overlay.graphics, Graphics::Uninitialized);
    assert_eq!(overlay.font, "Calibri");
    assert_eq!(overlay.font_size, 0x4190_0000);
    assert!(!overlay.is_ready());
    assert!(!overlay.is_frame_open());
}
