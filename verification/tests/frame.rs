use mandelbrot::frame::Controller;
use mandelbrot::frame::FrameAction;
use mandelbrot::frame::InputEvent;
use mandelbrot::frame::NavKey;
use mandelbrot::frame::PresentError;
use mandelbrot::frame::frame_action;
use mandelbrot::math::IVec2;
use mandelbrot::viewport::ViewportState;

const FP_ONE: i64 = 0x1_0000_0000;
const ZOOM_UNIT: u64 = 0x1_0000_0000;

fn controller_at_level(level: u64) -> Controller {
    Controller {
        viewport: ViewportState::from_parts(0, 0, level * ZOOM_UNIT, 100, 100),
        clicking: false,
        cursor: IVec2::new(0, 0),
    }
}

#[test]
fn scroll_up_zooms_in() {
    let mut c = controller_at_level(20);
    let before = c.viewport.snapshot(10).scale;
    let handled = c.update(InputEvent::ScrollLines { amount: FP_ONE });
    assert!(handled);
    // One line divided by twelve, truncated, taken off the zoom level.
    assert_eq!(c.viewport.zoom_level, 20 * ZOOM_UNIT - (FP_ONE as u64) / 12);
    assert!(c.viewport.snapshot(10).scale < before);
}

#[test]
fn scroll_down_zooms_out() {
    let mut c = controller_at_level(20);
    let before = c.viewport.snapshot(10).scale;
    c.update(InputEvent::ScrollLines { amount: -FP_ONE });
    assert_eq!(c.viewport.zoom_level, 20 * ZOOM_UNIT + (FP_ONE as u64) / 12);
    assert!(c.viewport.snapshot(10).scale > before);
}

#[test]
fn pixel_scroll_of_one_level_halves_scale() {
    let mut c = controller_at_level(20);
    assert_eq!(c.viewport.snapshot(10).scale, 1 << 26);
    c.update(InputEvent::ScrollPixels { amount: 32 * FP_ONE });
    assert_eq!(c.viewport.snapshot(10).scale, 1 << 25);
}

#[test]
fn zoom_keys_step_two_levels() {
    let mut c = controller_at_level(20);
    c.update(InputEvent::KeyPressed { key: NavKey::ZoomIn });
    assert_eq!(c.viewport.snapshot(10).scale, 1 << 24);
    c.update(InputEvent::KeyPressed { key: NavKey::ZoomOut });
    assert_eq!(c.viewport.snapshot(10).scale, 1 << 26);
}

#[test]
fn pan_keys_nudge_the_view() {
    let mut c = controller_at_level(20);
    c.update(InputEvent::KeyPressed { key: NavKey::PanLeft });
    assert_eq!(c.viewport.center_x, -(100 * (1 << 26) / 8));
    c.update(InputEvent::KeyPressed { key: NavKey::PanRight });
    assert_eq!(c.viewport.center_x, 0);
    c.update(InputEvent::KeyPressed { key: NavKey::PanUp });
    assert_eq!(c.viewport.center_y, -(100 * (1 << 26) / 8));
    c.update(InputEvent::KeyPressed { key: NavKey::PanDown });
    assert_eq!(c.viewport.center_y, 0);
}

#[test]
fn cursor_moves_pan_only_while_clicking() {
    let mut c = controller_at_level(20);
    c.update(InputEvent::CursorMoved { x: 5, y: 5 });
    assert_eq!(c.viewport.center_x, 0);
    assert_eq!(c.cursor, IVec2::new(5, 5));

    c.update(InputEvent::Button { pressed: true });
    assert!(c.clicking);
    c.update(InputEvent::CursorMoved { x: 15, y: 5 });
    // A drag of ten pixels to the right moves the view against the drag.
    assert_eq!(c.viewport.center_x, -10 * (1 << 26));
    assert_eq!(c.viewport.center_y, 0);
    assert_eq!(c.cursor, IVec2::new(15, 5));

    c.update(InputEvent::Button { pressed: false });
    assert!(!c.clicking);
    c.update(InputEvent::CursorMoved { x: 0, y: 0 });
    assert_eq!(c.viewport.center_x, -10 * (1 << 26));
}

#[test]
fn key_release_changes_nothing() {
    let mut c = controller_at_level(20);
    let before = c;
    let handled = c.update(InputEvent::KeyReleased);
    assert!(handled);
    assert_eq!(c, before);
}

#[test]
fn presentation_failures_follow_the_policy() {
    assert_eq!(frame_action(PresentError::Timeout), FrameAction::Proceed);
    assert_eq!(frame_action(PresentError::Outdated), FrameAction::Proceed);
    assert_eq!(frame_action(PresentError::Lost), FrameAction::Shutdown);
    assert_eq!(frame_action(PresentError::OutOfMemory), FrameAction::Shutdown);
}

#[test]
fn controller_new_starts_idle() {
    let c = Controller::new(64, 48);
    assert!(!c.clicking);
    assert_eq!(c.cursor, IVec2::new(0, 0));
    assert_eq!(c.viewport.extent.x, 64);
    assert_eq!(c.viewport.extent.y, 48);
}

#[test]
fn run_frame_sizes_grid_to_extent() {
    let c = Controller::new(16, 12);
    let (p, r) = c.run_frame(64);
    assert_eq!(p.extent.x, 16);
    assert_eq!(p.extent.y, 12);
    assert_eq!(p.max_iterations, 64);
    assert_eq!(p.center_x, -0x8000_0000i64);
    // Height 12 fits at scale 2^-2 plane units per pixel.
    assert_eq!(p.scale, 1 << 30);
    assert_eq!(r.extent, p.extent);
    assert_eq!(r.data.len(), 16 * 12);
}

#[test]
fn resize_keeps_gesture_state() {
    let mut c = controller_at_level(20);
    c.update(InputEvent::Button { pressed: true });
    c.resize(31, 0);
    assert_eq!(c.viewport.extent.x, 31);
    assert_eq!(c.viewport.extent.y, 1);
    assert!(c.clicking);
}
