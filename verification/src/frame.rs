//! The input-decision layer and per-frame orchestration: discrete,
//! already-decoded window events go in, viewport mutations come out; once
//! per frame a snapshot is taken and the escape grid computed from it.
//!
//! The shell that owns the native window decodes raw input into
//! [`InputEvent`] values, hands each to [`Controller::update`], and each
//! frame calls [`Controller::run_frame`] and passes the grid to its
//! presentation stage; [`frame_action`] tells it how to react when
//! presentation fails.

use vstd::prelude::*;
use vstd::arithmetic::div_mod::lemma_div_is_ordered;
use vstd::arithmetic::div_mod::lemma_div_is_ordered_by_denominator;
use vstd::arithmetic::div_mod::lemma_div_multiples_vanish;

use crate::engine::MandelbrotParams;
use crate::engine::EscapeResult;
use crate::engine::SENTINEL;
use crate::engine::compute;
use crate::engine::is_grid_of;
use crate::fixed::FP_ONE;
use crate::math::IVec2;
use crate::viewport::Direction;
use crate::viewport::ViewportState;
use crate::viewport::nudge_spec;
use crate::viewport::pan_spec;
use crate::viewport::resize_spec;
use crate::viewport::scale_spec;
use crate::viewport::ZOOM_MAX;
use crate::viewport::ZOOM_UNIT;
use crate::viewport::snapshot_spec;
use crate::viewport::zoom_spec;

verus! {

/// A scroll of one line (Q32.32) zooms by one twelfth of a level.
pub const LINE_ZOOM_DIVISOR: i64 = 12;

/// A scroll of one pixel (Q32.32) zooms by one thirty-second of a level.
pub const PIXEL_ZOOM_DIVISOR: i64 = 32;

/// The dedicated zoom keys step by two whole zoom levels.
pub const KEY_ZOOM_STEP: i64 = 2 * FP_ONE;

/// Navigation keys, as decoded by the windowing shell.
#[derive(Clone, Copy, Debug, PartialEq, Eq, Structural)]
pub enum NavKey {
    PanLeft,
    PanRight,
    PanUp,
    PanDown,
    ZoomIn,
    ZoomOut,
}

/// A decoded window event. Scroll amounts are Q32.32 (lines or pixels),
/// positive meaning scroll up; cursor positions are window pixels.
#[derive(Clone, Copy, Debug, PartialEq, Eq, Structural)]
pub enum InputEvent {
    ScrollLines { amount: i64 },
    ScrollPixels { amount: i64 },
    KeyPressed { key: NavKey },
    KeyReleased,
    Button { pressed: bool },
    CursorMoved { x: i32, y: i32 },
}

/// How presentation failed, in the taxonomy of the external presentation
/// collaborator: losing the surface or memory is not recoverable; a
/// timeout or an outdated surface resolves itself by the next frame.
#[derive(Clone, Copy, Debug, PartialEq, Eq, Structural)]
pub enum PresentError {
    Timeout,
    Outdated,
    Lost,
    OutOfMemory,
}

/// What the frame driver should do after a presentation failure.
#[derive(Clone, Copy, Debug, PartialEq, Eq, Structural)]
pub enum FrameAction {
    Proceed,
    Shutdown,
}

/// A presentation failure is fatal exactly when the device surface or
/// its memory is gone; everything else is transient.
pub open spec fn is_fatal_spec(e: PresentError) -> bool {
    e == PresentError::Lost || e == PresentError::OutOfMemory
}

/// The zoom delta of a scroll: the amount divided by the divisor,
/// truncated toward zero, with the sign flipped so that scrolling up
/// (positive) zooms in (negative delta, smaller scale).
pub open spec fn scroll_zoom_delta_spec(amount: int, divisor: int) -> int {
    if amount >= 0 {
        -(amount / divisor)
    } else {
        (0 - amount) / divisor
    }
}

/// Skip this frame on a transient presentation failure; shut down when
/// the failure is not recoverable. A failed frame is never retried.
pub fn frame_action(e: PresentError) -> (r: FrameAction)
    ensures
        (r == FrameAction::Shutdown) <==> is_fatal_spec(e),
{
    match e {
        PresentError::Timeout => FrameAction::Proceed,
        PresentError::Outdated => FrameAction::Proceed,
        PresentError::Lost => FrameAction::Shutdown,
        PresentError::OutOfMemory => FrameAction::Shutdown,
    }
}

/// The zoom delta of a scroll of `amount` (Q32.32) at the given divisor.
pub fn scroll_zoom_delta(amount: i64, divisor: i64) -> (r: i64)
    requires
        divisor >= 2,
    ensures
        r as int == scroll_zoom_delta_spec(amount as int, divisor as int),
{
    if amount >= 0 {
        let q: u64 = (amount as u64) / (divisor as u64);
        proof {
            lemma_div_is_ordered(amount as int, 0x7FFF_FFFF_FFFF_FFFF, divisor as int);
            lemma_div_is_ordered_by_denominator(0x7FFF_FFFF_FFFF_FFFF, 1, divisor as int);
        }
        -(q as i64)
    } else {
        let m: i128 = -(amount as i128);
        let q: u128 = (m as u128) / (divisor as u128);
        proof {
            lemma_div_is_ordered(m as int, 0x8000_0000_0000_0000, divisor as int);
            lemma_div_is_ordered_by_denominator(0x8000_0000_0000_0000, 2, divisor as int);
            lemma_div_multiples_vanish(0x4000_0000_0000_0000, 2);
        }
        q as i64
    }
}

/// The live input-handling state: the viewport plus the drag-gesture
/// bookkeeping (whether the primary button is down, and the last seen
/// cursor position).
#[derive(Clone, Copy, Debug, PartialEq, Eq, Structural)]
pub struct Controller {
    /// The authoritative viewport, mutated by the events.
    pub viewport: ViewportState,
    /// Whether the primary mouse button is currently held.
    pub clicking: bool,
    /// Last seen cursor position, for drag deltas.
    pub cursor: IVec2,
}

/// The controller after one decoded event: scrolls and zoom keys move
/// the zoom level, pan keys nudge, a held-button cursor move drags the
/// view by the cursor delta, and button edges track the drag gesture.
pub open spec fn update_spec(c: Controller, ev: InputEvent) -> Controller {
    match ev {
        InputEvent::ScrollLines { amount } => Controller {
            viewport: zoom_spec(
                c.viewport,
                scroll_zoom_delta_spec(amount as int, LINE_ZOOM_DIVISOR as int),
            ),
            ..c
        },
        InputEvent::ScrollPixels { amount } => Controller {
            viewport: zoom_spec(
                c.viewport,
                scroll_zoom_delta_spec(amount as int, PIXEL_ZOOM_DIVISOR as int),
            ),
            ..c
        },
        InputEvent::KeyPressed { key } => match key {
            NavKey::PanLeft => Controller { viewport: nudge_spec(c.viewport, Direction::Left), ..c },
            NavKey::PanRight => Controller {
                viewport: nudge_spec(c.viewport, Direction::Right),
                ..c
            },
            NavKey::PanUp => Controller { viewport: nudge_spec(c.viewport, Direction::Up), ..c },
            NavKey::PanDown => Controller { viewport: nudge_spec(c.viewport, Direction::Down), ..c },
            NavKey::ZoomIn => Controller {
                viewport: zoom_spec(c.viewport, -KEY_ZOOM_STEP as int),
                ..c
            },
            NavKey::ZoomOut => Controller {
                viewport: zoom_spec(c.viewport, KEY_ZOOM_STEP as int),
                ..c
            },
        },
        InputEvent::KeyReleased => c,
        InputEvent::Button { pressed } => Controller { clicking: pressed, ..c },
        InputEvent::CursorMoved { x, y } => Controller {
            viewport: if c.clicking {
                pan_spec(
                    c.viewport,
                    x - c.cursor.x,
                    y - c.cursor.y,
                )
            } else {
                c.viewport
            },
            cursor: IVec2 { x, y },
            ..c
        },
    }
}

impl Controller {
    /// The controller invariant: its viewport is well formed.
    pub open spec fn wf(self) -> bool {
        self.viewport.wf()
    }

    /// The startup controller for a window of the given pixel size: no
    /// drag in progress, cursor at the origin.
    pub fn new(width: u32, height: u32) -> (r: Controller)
        ensures
            r.wf(),
            r.viewport.center_x == -0x8000_0000i64,
            r.viewport.center_y == 0,
            r.viewport.extent.x == if width == 0 { 1u32 } else { width },
            r.viewport.extent.y == if height == 0 { 1u32 } else { height },
            r.viewport.zoom_level % ZOOM_UNIT == 0,
            scale_spec(r.viewport.zoom_level) * r.viewport.extent.y <= 0x4_0000_0000
                || r.viewport.zoom_level == 0,
            r.viewport.zoom_level == ZOOM_MAX || scale_spec(
                (r.viewport.zoom_level + ZOOM_UNIT) as u64,
            ) * r.viewport.extent.y > 0x4_0000_0000,
            !r.clicking,
            r.cursor == (IVec2 { x: 0, y: 0 }),
    {
        Controller {
            viewport: ViewportState::new(width, height),
            clicking: false,
            cursor: IVec2::new(0, 0),
        }
    }

    /// Apply one decoded window event. Returns whether the event was
    /// handled — always true for the decoded events; the shell reports
    /// everything else as unhandled itself.
    pub fn update(&mut self, ev: InputEvent) -> (handled: bool)
        requires
            old(self).wf(),
        ensures
            *final(self) == update_spec(*old(self), ev),
            final(self).wf(),
            handled,
    {
        match ev {
            InputEvent::ScrollLines { amount } => {
                let d: i64 = scroll_zoom_delta(amount, LINE_ZOOM_DIVISOR);
                self.viewport.zoom(d);
            },
            InputEvent::ScrollPixels { amount } => {
                let d: i64 = scroll_zoom_delta(amount, PIXEL_ZOOM_DIVISOR);
                self.viewport.zoom(d);
            },
            InputEvent::KeyPressed { key } => match key {
                NavKey::PanLeft => self.viewport.nudge(Direction::Left),
                NavKey::PanRight => self.viewport.nudge(Direction::Right),
                NavKey::PanUp => self.viewport.nudge(Direction::Up),
                NavKey::PanDown => self.viewport.nudge(Direction::Down),
                NavKey::ZoomIn => self.viewport.zoom(-KEY_ZOOM_STEP),
                NavKey::ZoomOut => self.viewport.zoom(KEY_ZOOM_STEP),
            },
            InputEvent::KeyReleased => {},
            InputEvent::Button { pressed } => {
                self.clicking = pressed;
            },
            InputEvent::CursorMoved { x, y } => {
                let dx: i64 = x as i64 - self.cursor.x as i64;
                let dy: i64 = y as i64 - self.cursor.y as i64;
                if self.clicking {
                    self.viewport.pan_by_pixels(dx, dy);
                }
                self.cursor = IVec2::new(x, y);
            },
        }
        true
    }

    /// Resize the viewport to a new window size; the plane point under
    /// the center pixel is preserved exactly.
    pub fn resize(&mut self, width: u32, height: u32)
        requires
            old(self).wf(),
        ensures
            final(self).viewport == resize_spec(old(self).viewport, width, height),
            final(self).clicking == old(self).clicking,
            final(self).cursor == old(self).cursor,
            final(self).wf(),
    {
        self.viewport.resize(width, height);
    }

    /// Run one frame: take the immutable snapshot of the current
    /// viewport and evaluate the full escape grid from it. Exactly one
    /// compute dispatch; the caller hands the grid to its presentation
    /// stage and must be done with it before the next frame's dispatch.
    pub fn run_frame(&self, max_iterations: u32) -> (r: (MandelbrotParams, EscapeResult))
        requires
            self.wf(),
            max_iterations < SENTINEL,
            self.viewport.extent.x as int * self.viewport.extent.y as int <= usize::MAX as int,
        ensures
            r.0 == snapshot_spec(self.viewport, max_iterations),
            is_grid_of(r.1, r.0),
    {
        let params = self.viewport.snapshot(max_iterations);
        let grid = compute(&params);
        (params, grid)
    }
}

} // verus!
