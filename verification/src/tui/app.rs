//! Application state and input handling.
//!
//! The state kept here is the frame buffer, whether the program keeps
//! running, the step count of the last frame and the mouse tracking used
//! for drag-to-orbit. Each input event updates that state and yields the
//! camera move it asks for; the orbital camera itself works in floating
//! point and is driven by the caller.
use vstd::prelude::*;

use crate::render::framebuffer::{resized_cells, void_cells, FrameBuffer};

verus! {

/// A key of the keyboard, as far as the controls tell keys apart.
#[derive(Clone, Copy, Debug, PartialEq, Eq, Structural)]
pub enum KeyCode {
    /// A character key.
    Char(char),
    Left,
    Right,
    Up,
    Down,
    /// Any other key.
    Other,
}

/// A key press.
#[derive(Clone, Copy, Debug, PartialEq, Eq, Structural)]
pub struct KeyEvent {
    pub code: KeyCode,
    /// Whether the Control modifier was held.
    pub ctrl: bool,
}

/// A mouse button.
#[derive(Clone, Copy, Debug, PartialEq, Eq, Structural)]
pub enum MouseButton {
    Left,
    Right,
    Middle,
}

/// What the mouse did.
#[derive(Clone, Copy, Debug, PartialEq, Eq, Structural)]
pub enum MouseEventKind {
    Down(MouseButton),
    Up(MouseButton),
    Drag(MouseButton),
    Moved,
    ScrollDown,
    ScrollUp,
    ScrollLeft,
    ScrollRight,
}

/// A mouse event at a terminal column and row.
#[derive(Clone, Copy, Debug, PartialEq, Eq, Structural)]
pub struct MouseEvent {
    pub kind: MouseEventKind,
    pub column: u16,
    pub row: u16,
}

/// An input event of the terminal.
#[derive(Clone, Copy, Debug, PartialEq, Eq, Structural)]
pub enum Event {
    Key(KeyEvent),
    Mouse(MouseEvent),
    /// The terminal was resized to the given columns and rows.
    Resize(u16, u16),
    /// Focus changes, pastes and the like.
    Other,
}

/// The camera move that an input event asks for.
#[derive(Clone, Copy, Debug, PartialEq, Eq, Structural)]
pub enum CameraMove {
    /// Leave the camera where it is.
    Stay,
    /// Change the camera distance by `halves / 2` zoom steps; negative
    /// values zoom in.
    Zoom(i32),
    /// Orbit by a horizontal and vertical drag distance in pixels.
    Orbit(i32, i32),
}

/// Whether a key press quits: `q`, or Control with `c`.
pub open spec fn quits(key: KeyEvent) -> bool {
    key.code == KeyCode::Char('q') || (key.code == KeyCode::Char('c') && key.ctrl)
}

/// The camera move asked for by a key press: `+`/`=` zoom in and `-`/`_`
/// zoom out by one step, the arrow keys orbit by ten pixels.
pub open spec fn key_move(key: KeyEvent) -> CameraMove {
    match key.code {
        KeyCode::Char(ch) => if ch == '+' || ch == '=' {
            CameraMove::Zoom(-2i32)
        } else if ch == '-' || ch == '_' {
            CameraMove::Zoom(2i32)
        } else {
            CameraMove::Stay
        },
        KeyCode::Left => CameraMove::Orbit(-10i32, 0i32),
        KeyCode::Right => CameraMove::Orbit(10i32, 0i32),
        KeyCode::Up => CameraMove::Orbit(0i32, 10i32),
        KeyCode::Down => CameraMove::Orbit(0i32, -10i32),
        KeyCode::Other => CameraMove::Stay,
    }
}

/// The camera move asked for by a mouse event, given the last tracked mouse
/// position: a left drag orbits by the distance from that position, the
/// wheel zooms by half a step.
pub open spec fn mouse_move(m: MouseEvent, last_x: u16, last_y: u16) -> CameraMove {
    match m.kind {
        MouseEventKind::Drag(MouseButton::Left) => CameraMove::Orbit(
            (m.column - last_x) as i32,
            (m.row - last_y) as i32,
        ),
        MouseEventKind::ScrollUp => CameraMove::Zoom(-1i32),
        MouseEventKind::ScrollDown => CameraMove::Zoom(1i32),
        _ => CameraMove::Stay,
    }
}

/// The part of the application state that input events drive, besides the
/// frame buffer.
#[derive(Clone, Copy, Debug, PartialEq, Eq, Structural)]
pub struct InputModel {
    pub running: bool,
    pub mouse_held: bool,
    pub last_mouse_x: u16,
    pub last_mouse_y: u16,
}

/// The input state after a mouse event: a left press starts tracking the
/// mouse at the event's position, a left release stops tracking, a left drag
/// moves the tracked position; anything else leaves the state alone.
pub open spec fn next_mouse(s: InputModel, m: MouseEvent) -> InputModel {
    match m.kind {
        MouseEventKind::Down(MouseButton::Left) => InputModel {
            mouse_held: true,
            last_mouse_x: m.column,
            last_mouse_y: m.row,
            ..s
        },
        MouseEventKind::Up(MouseButton::Left) => InputModel { mouse_held: false, ..s },
        MouseEventKind::Drag(MouseButton::Left) => InputModel {
            last_mouse_x: m.column,
            last_mouse_y: m.row,
            ..s
        },
        _ => s,
    }
}

/// The input state after one event: a quit key stops the application, mouse
/// events drive the tracking, nothing else changes it.
pub open spec fn next_input(s: InputModel, event: Event) -> InputModel {
    match event {
        Event::Key(key) => InputModel { running: s.running && !quits(key), ..s },
        Event::Mouse(m) => next_mouse(s, m),
        _ => s,
    }
}

/// The camera move that an event asks for in input state `s`.
pub open spec fn event_move(s: InputModel, event: Event) -> CameraMove {
    match event {
        Event::Key(key) => key_move(key),
        Event::Mouse(m) => mouse_move(m, s.last_mouse_x, s.last_mouse_y),
        _ => CameraMove::Stay,
    }
}

/// The input state after a sequence of events, handled in order.
pub open spec fn run_events(s: InputModel, events: Seq<Event>) -> InputModel
    decreases events.len(),
{
    if events.len() == 0 {
        s
    } else {
        next_input(run_events(s, events.drop_last()), events.last())
    }
}

/// The total orbit, horizontal and vertical, that a sequence of events asks
/// for when handled in order from input state `s`.
pub open spec fn orbit_total(s: InputModel, events: Seq<Event>) -> (int, int)
    decreases events.len(),
{
    if events.len() == 0 {
        (0, 0)
    } else {
        let before = orbit_total(s, events.drop_last());
        match event_move(run_events(s, events.drop_last()), events.last()) {
            CameraMove::Orbit(dx, dy) => (before.0 + dx, before.1 + dy),
            _ => before,
        }
    }
}

/// Whether an event is a drag with the left button.
pub open spec fn is_left_drag(event: Event) -> bool {
    event matches Event::Mouse(m) && m.kind == MouseEventKind::Drag(MouseButton::Left)
}

/// Once the application has stopped, no event starts it again.
pub proof fn lemma_stop_is_final(s: InputModel, events: Seq<Event>)
    requires
        !s.running,
    ensures
        !run_events(s, events).running,
    decreases events.len(),
{
    if events.len() > 0 {
        lemma_stop_is_final(s, events.drop_last());
    }
}

/// A quit key stops the application, whatever events follow it.
pub proof fn lemma_quit_key_stops(s: InputModel, key: KeyEvent, later: Seq<Event>)
    requires
        quits(key),
    ensures
        !run_events(s, seq![Event::Key(key)] + later).running,
    decreases later.len(),
{
    let events = seq![Event::Key(key)] + later;
    if later.len() == 0 {
        assert(events.drop_last() =~= Seq::<Event>::empty());
    } else {
        lemma_quit_key_stops(s, key, later.drop_last());
        assert(events.drop_last() =~= seq![Event::Key(key)] + later.drop_last());
    }
}

/// A sequence of left-button drags orbits the camera, in total, by exactly
/// the distance from the mouse position tracked before the drags to the
/// position tracked after them, which is that of the last drag.
pub proof fn lemma_drag_total(s: InputModel, events: Seq<Event>)
    requires
        forall|i: int| 0 <= i < events.len() ==> is_left_drag(#[trigger] events[i]),
    ensures
        orbit_total(s, events) == (
            run_events(s, events).last_mouse_x - s.last_mouse_x,
            run_events(s, events).last_mouse_y - s.last_mouse_y,
        ),
        events.len() > 0 ==> (events.last() matches Event::Mouse(m) && run_events(
            s,
            events,
        ).last_mouse_x == m.column && run_events(s, events).last_mouse_y == m.row),
    decreases events.len(),
{
    if events.len() > 0 {
        let prefix = events.drop_last();
        assert forall|i: int| 0 <= i < prefix.len() implies is_left_drag(#[trigger] prefix[i]) by {
            assert(prefix[i] == events[i]);
        }
        lemma_drag_total(s, prefix);
        assert(is_left_drag(events[events.len() - 1]));
    }
}

/// What a key press does: it stops the application exactly when it is `q`
/// or Control with `c` (any other key, including the untracked ones, leaves
/// the run flag as it was), it never touches the mouse tracking, and an
/// untracked key or a character other than the zoom and quit keys asks for
/// no camera move.
pub proof fn lemma_key_effects(s: InputModel, key: KeyEvent)
    ensures
        next_input(s, Event::Key(key)).running == (s.running && !(key.code == KeyCode::Char('q')
            || (key.code == KeyCode::Char('c') && key.ctrl))),
        next_input(s, Event::Key(key)).mouse_held == s.mouse_held,
        next_input(s, Event::Key(key)).last_mouse_x == s.last_mouse_x,
        next_input(s, Event::Key(key)).last_mouse_y == s.last_mouse_y,
        key.code == KeyCode::Other ==> event_move(s, Event::Key(key)) == CameraMove::Stay,
        (key.code matches KeyCode::Char(ch) && ch != '+' && ch != '=' && ch != '-' && ch != '_')
            ==> event_move(s, Event::Key(key)) == CameraMove::Stay,
{
}

/// What a mouse event does: only a left-button drag orbits, by the distance
/// from the tracked position to the event's position; only the vertical
/// wheel zooms, up by half a step in and down by half a step out; every
/// other mouse event asks for no move. Only a left press or a left drag
/// moves the tracked position, only a left press or release changes whether
/// the button is held, and no mouse event stops the application.
pub proof fn lemma_mouse_effects(s: InputModel, m: MouseEvent)
    ensures
        event_move(s, Event::Mouse(m)) is Orbit ==> m.kind == MouseEventKind::Drag(
            MouseButton::Left,
        ),
        m.kind == MouseEventKind::Drag(MouseButton::Left) ==> event_move(s, Event::Mouse(m))
            == CameraMove::Orbit(
            (m.column - s.last_mouse_x) as i32,
            (m.row - s.last_mouse_y) as i32,
        ),
        event_move(s, Event::Mouse(m)) is Zoom ==> (m.kind == MouseEventKind::ScrollUp || m.kind
            == MouseEventKind::ScrollDown),
        m.kind == MouseEventKind::ScrollUp ==> event_move(s, Event::Mouse(m)) == CameraMove::Zoom(
            -1i32,
        ),
        m.kind == MouseEventKind::ScrollDown ==> event_move(s, Event::Mouse(m))
            == CameraMove::Zoom(1i32),
        !(m.kind == MouseEventKind::Drag(MouseButton::Left) || m.kind == MouseEventKind::ScrollUp
            || m.kind == MouseEventKind::ScrollDown) ==> event_move(s, Event::Mouse(m))
            == CameraMove::Stay,
        !(m.kind == MouseEventKind::Down(MouseButton::Left) || m.kind == MouseEventKind::Drag(
            MouseButton::Left,
        )) ==> (next_input(s, Event::Mouse(m)).last_mouse_x == s.last_mouse_x && next_input(
            s,
            Event::Mouse(m),
        ).last_mouse_y == s.last_mouse_y),
        (m.kind == MouseEventKind::Down(MouseButton::Left) || m.kind == MouseEventKind::Drag(
            MouseButton::Left,
        )) ==> (next_input(s, Event::Mouse(m)).last_mouse_x == m.column && next_input(
            s,
            Event::Mouse(m),
        ).last_mouse_y == m.row),
        m.kind == MouseEventKind::Down(MouseButton::Left) ==> next_input(
            s,
            Event::Mouse(m),
        ).mouse_held,
        m.kind == MouseEventKind::Up(MouseButton::Left) ==> !next_input(
            s,
            Event::Mouse(m),
        ).mouse_held,
        !(m.kind == MouseEventKind::Down(MouseButton::Left) || m.kind == MouseEventKind::Up(
            MouseButton::Left,
        )) ==> next_input(s, Event::Mouse(m)).mouse_held == s.mouse_held,
        next_input(s, Event::Mouse(m)).running == s.running,
{
}

/// The application state.
pub struct App {
    /// Frame buffer, resized on terminal reshape.
    pub framebuffer: FrameBuffer,
    /// Whether the application should keep running.
    pub running: bool,
    /// Integration steps done for the last frame.
    pub total_steps: u64,
    /// Whether the left mouse button is held.
    pub mouse_held: bool,
    /// Last tracked mouse column.
    pub last_mouse_x: u16,
    /// Last tracked mouse row.
    pub last_mouse_y: u16,
}

impl App {
    /// The input-driven part of the state.
    pub open spec fn input(&self) -> InputModel {
        InputModel {
            running: self.running,
            mouse_held: self.mouse_held,
            last_mouse_x: self.last_mouse_x,
            last_mouse_y: self.last_mouse_y,
        }
    }

    /// Creates the state for a terminal of the given size: running, a void
    /// frame buffer, no steps, no mouse button held, mouse at the origin.
    pub fn new(width: u16, height: u16) -> (app: Self)
        ensures
            app.framebuffer.width == width,
            app.framebuffer.height == height,
            app.framebuffer.cells@ == void_cells((width * height) as nat),
            app.framebuffer.wf(),
            app.running,
            app.total_steps == 0,
            !app.mouse_held,
            app.last_mouse_x == 0,
            app.last_mouse_y == 0,
    {
        App {
            framebuffer: FrameBuffer::new(width, height),
            running: true,
            total_steps: 0,
            mouse_held: false,
            last_mouse_x: 0,
            last_mouse_y: 0,
        }
    }

    /// Handles an input event: keys may quit or move the camera, mouse events
    /// drive the drag tracking and may move the camera, a resize reshapes the
    /// frame buffer. Returns the camera move the event asks for.
    pub fn handle_event(&mut self, event: Event) -> (mv: CameraMove)
        ensures
            mv == event_move(old(self).input(), event),
            final(self).input() == next_input(old(self).input(), event),
            final(self).total_steps == old(self).total_steps,
            match event {
                Event::Resize(w, h) => {
                    &&& final(self).framebuffer.width == w
                    &&& final(self).framebuffer.height == h
                    &&& final(self).framebuffer.cells@ == resized_cells(
                        old(self).framebuffer.cells@,
                        (w * h) as nat,
                    )
                    &&& final(self).framebuffer.wf()
                },
                _ => final(self).framebuffer == old(self).framebuffer,
            },
            old(self).framebuffer.wf() ==> final(self).framebuffer.wf(),
            event matches Event::Key(k) ==> final(self).running == (old(self).running && !(k.code
                == KeyCode::Char('q') || (k.code == KeyCode::Char('c') && k.ctrl))),
            event matches Event::Mouse(m) && m.kind != MouseEventKind::Drag(MouseButton::Left)
                ==> !(mv is Orbit),
            event matches Event::Mouse(m) ==> (mv is Zoom ==> (m.kind == MouseEventKind::ScrollUp
                || m.kind == MouseEventKind::ScrollDown)),
            event matches Event::Mouse(m) && m.kind != MouseEventKind::Down(MouseButton::Left)
                && m.kind != MouseEventKind::Drag(MouseButton::Left) ==> (final(self).last_mouse_x
                == old(self).last_mouse_x && final(self).last_mouse_y == old(self).last_mouse_y),
    {
        let ghost before = self.input();
        let mv = match event {
            Event::Key(key) => self.handle_key(key),
            Event::Mouse(mouse) => self.handle_mouse(mouse),
            Event::Resize(w, h) => {
                self.framebuffer.resize(w, h);
                CameraMove::Stay
            },
            Event::Other => CameraMove::Stay,
        };
        proof {
            match event {
                Event::Key(k) => lemma_key_effects(before, k),
                Event::Mouse(m) => lemma_mouse_effects(before, m),
                _ => {},
            }
        }
        mv
    }

    /// Handles a key press.
    fn handle_key(&mut self, key: KeyEvent) -> (mv: CameraMove)
        ensures
            mv == key_move(key),
            final(self).input() == next_input(old(self).input(), Event::Key(key)),
            final(self).framebuffer == old(self).framebuffer,
            final(self).total_steps == old(self).total_steps,
    {
        match key.code {
            KeyCode::Char(ch) => {
                if ch == 'q' || (ch == 'c' && key.ctrl) {
                    self.running = false;
                    CameraMove::Stay
                } else if ch == '+' || ch == '=' {
                    CameraMove::Zoom(-2)
                } else if ch == '-' || ch == '_' {
                    CameraMove::Zoom(2)
                } else {
                    CameraMove::Stay
                }
            },
            KeyCode::Left => CameraMove::Orbit(-10, 0),
            KeyCode::Right => CameraMove::Orbit(10, 0),
            KeyCode::Up => CameraMove::Orbit(0, 10),
            KeyCode::Down => CameraMove::Orbit(0, -10),
            KeyCode::Other => CameraMove::Stay,
        }
    }

    /// Handles a mouse event: drag to orbit, wheel to zoom.
    fn handle_mouse(&mut self, mouse: MouseEvent) -> (mv: CameraMove)
        ensures
            mv == mouse_move(mouse, old(self).last_mouse_x, old(self).last_mouse_y),
            final(self).input() == next_mouse(old(self).input(), mouse),
            final(self).framebuffer == old(self).framebuffer,
            final(self).total_steps == old(self).total_steps,
    {
        match mouse.kind {
            MouseEventKind::Down(MouseButton::Left) => {
                self.mouse_held = true;
                self.last_mouse_x = mouse.column;
                self.last_mouse_y = mouse.row;
                CameraMove::Stay
            },
            MouseEventKind::Up(MouseButton::Left) => {
                self.mouse_held = false;
                CameraMove::Stay
            },
            MouseEventKind::Drag(MouseButton::Left) => {
                let dx = mouse.column as i32 - self.last_mouse_x as i32;
                let dy = mouse.row as i32 - self.last_mouse_y as i32;
                self.last_mouse_x = mouse.column;
                self.last_mouse_y = mouse.row;
                CameraMove::Orbit(dx, dy)
            },
            MouseEventKind::ScrollUp => CameraMove::Zoom(-1),
            MouseEventKind::ScrollDown => CameraMove::Zoom(1),
            _ => CameraMove::Stay,
        }
    }
}

} // verus!
