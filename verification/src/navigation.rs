//! Decisions of the user interface: which screen is shown, when a change of
//! screen is refused because a session is still running, and how a mouse drag
//! becomes a capture region.

use vstd::prelude::*;
use crate::frame::Area;

verus! {

/// The screens of the application.
#[derive(Clone, Copy, Debug, PartialEq, Eq, Structural)]
pub enum Screen {
    /// Choice between sending and receiving.
    Home,
    /// Settings of a session about to send.
    Sender,
    /// Settings of a session about to receive.
    Receiver,
    /// A sending session is running.
    Sending,
    /// A receiving session is running.
    Receiving,
    /// Hotkey settings.
    Hotkey,
    /// Drawing on top of the screen.
    Annotation,
}

/// Which screen is shown, which one was shown before, and whether a worker is
/// streaming.
#[derive(Clone, Copy, Debug, PartialEq, Eq, Structural)]
pub struct Navigation {
    /// Screen shown now.
    pub state: Screen,
    /// Screen shown before the last change.
    pub prev_state: Screen,
    /// Whether the notice that asks to stop the streaming first is up.
    pub alert: bool,
    /// Whether a worker was started and has not been seen to finish.
    pub streaming: bool,
}

impl Navigation {
    /// The application as it starts: the home screen, no notice, no worker.
    pub fn new() -> (n: Self)
        ensures
            n == (Navigation {
                state: Screen::Home,
                prev_state: Screen::Home,
                alert: false,
                streaming: false,
            }),
    {
        Navigation { state: Screen::Home, prev_state: Screen::Home, alert: false, streaming: false }
    }

    /// What a guarded change to `target` makes of this state when the worker
    /// is done or not: with no worker streaming, or with the worker done, the
    /// screen changes and the worker is forgotten; otherwise the notice goes up
    /// and the screen stays.
    pub open spec fn guarded(self, target: Screen, worker_done: bool) -> Navigation {
        if !self.streaming || worker_done {
            Navigation { state: target, prev_state: self.state, streaming: false, ..self }
        } else {
            Navigation { alert: true, ..self }
        }
    }

    /// This state with the screen shown now and the one shown before trading
    /// places.
    pub open spec fn turned_back(self) -> Navigation {
        Navigation { state: self.prev_state, prev_state: self.state, ..self }
    }

    /// Puts the notice up.
    pub fn show_alert(&mut self)
        ensures
            *final(self) == (Navigation { alert: true, ..*old(self) }),
    {
        self.alert = true;
    }

    /// Says whether no session is running any more. `worker_done` tells
    /// whether the worker, if one was started, has finished; a finished worker
    /// is forgotten.
    pub fn check_if_streaming_is_finished(&mut self, worker_done: bool) -> (finished: bool)
        ensures
            finished == (!old(self).streaming || worker_done),
            *final(self) == (Navigation {
                streaming: old(self).streaming && !worker_done,
                ..*old(self)
            }),
    {
        if self.streaming {
            if worker_done {
                self.streaming = false;
            } else {
                return false;
            }
        }
        true
    }

    fn go_guarded(&mut self, target: Screen, worker_done: bool)
        ensures
            *final(self) == old(self).guarded(target, worker_done),
    {
        if self.check_if_streaming_is_finished(worker_done) {
            self.prev_state = self.state;
            self.state = target;
        } else {
            self.show_alert();
        }
    }

    /// Returns to the screen shown before; that screen and the present one
    /// trade places.
    pub fn go_back(&mut self)
        ensures
            *final(self) == old(self).turned_back(),
    {
        let state: Screen = self.state;
        self.state = self.prev_state;
        self.prev_state = state;
    }

    /// Goes to the home screen unless a session is running.
    pub fn go_home(&mut self, worker_done: bool)
        ensures
            *final(self) == old(self).guarded(Screen::Home, worker_done),
    {
        self.go_guarded(Screen::Home, worker_done);
    }

    /// Goes to the hotkey settings unless a session is running.
    pub fn go_hotkey(&mut self, worker_done: bool)
        ensures
            *final(self) == old(self).guarded(Screen::Hotkey, worker_done),
    {
        self.go_guarded(Screen::Hotkey, worker_done);
    }

    /// Goes to the annotation screen, whether or not a session is running.
    pub fn go_annotation(&mut self)
        ensures
            *final(self) == (Navigation {
                state: Screen::Annotation,
                prev_state: old(self).state,
                ..*old(self)
            }),
    {
        self.prev_state = self.state;
        self.state = Screen::Annotation;
    }

    /// Goes to the sender's settings unless a session is running.
    pub fn go_send(&mut self, worker_done: bool)
        ensures
            *final(self) == old(self).guarded(Screen::Sender, worker_done),
    {
        self.go_guarded(Screen::Sender, worker_done);
    }

    /// Goes to the receiver's settings unless a session is running.
    pub fn go_receive(&mut self, worker_done: bool)
        ensures
            *final(self) == old(self).guarded(Screen::Receiver, worker_done),
    {
        self.go_guarded(Screen::Receiver, worker_done);
    }

    /// Records that a sending worker was started.
    pub fn start_sending(&mut self)
        ensures
            *final(self) == (Navigation { state: Screen::Sending, streaming: true, ..*old(self) }),
    {
        self.streaming = true;
        self.state = Screen::Sending;
    }

    /// Records that a receiving worker was started.
    pub fn start_receiving(&mut self)
        ensures
            *final(self) == (Navigation { state: Screen::Receiving, streaming: true, ..*old(self) }),
    {
        self.streaming = true;
        self.state = Screen::Receiving;
    }

    /// What a running session's screen does on every refresh: once the worker
    /// has finished, for whatever reason, the home screen comes back.
    pub fn leave_when_finished(&mut self, worker_done: bool)
        ensures
            *final(self) == if !old(self).streaming || worker_done {
                old(self).guarded(Screen::Home, worker_done)
            } else {
                *old(self)
            },
    {
        if self.check_if_streaming_is_finished(worker_done) {
            self.go_home(worker_done);
        }
    }
}

impl Default for Navigation {
    fn default() -> (n: Self)
        ensures
            n == (Navigation {
                state: Screen::Home,
                prev_state: Screen::Home,
                alert: false,
                streaming: false,
            }),
    {
        Navigation::new()
    }
}

/// Going back twice changes nothing.
pub proof fn lemma_back_and_forth(n: Navigation)
    ensures
        n.turned_back().turned_back() == n,
{
}

/// While a worker streams and has not finished, no guarded change of screen
/// takes place: the screen stays and the notice goes up.
pub proof fn lemma_session_holds_screen(n: Navigation, target: Screen)
    requires
        n.streaming,
    ensures
        n.guarded(target, false).state == n.state,
        n.guarded(target, false).alert,
        n.guarded(target, false).streaming,
{
}

/// A mouse drag in progress or completed.
#[derive(Clone, Copy, Debug)]
pub struct DragState {
    /// Where the button went down.
    pub start: Option<(i32, i32)>,
    /// Where the button came up.
    pub end: Option<(i32, i32)>,
    /// Whether the button is held down.
    pub is_dragging: bool,
}

impl Default for DragState {
    fn default() -> (d: Self)
        ensures
            d == (DragState { start: None, end: None, is_dragging: false }),
    {
        DragState { start: None, end: None, is_dragging: false }
    }
}

/// The capture region under selection.
#[derive(Clone, Copy, Debug)]
pub struct Selection {
    /// Region selected so far.
    pub area: Area,
    /// Whether the next drag of the mouse sets the region.
    pub modify_by_drag: bool,
    /// The drag being followed.
    pub drag_state: DragState,
}

/// A signed coordinate stored in an unsigned field: a negative one wraps
/// around.
pub open spec fn wrapped(v: int) -> u32 {
    if v >= 0 {
        v as u32
    } else {
        (v + 0x1_0000_0000) as u32
    }
}

/// The region a drag from `start` to `end` spans: its corner at the smaller
/// coordinates, its extent the distance between the two points.
pub open spec fn dragged_area(start: (i32, i32), end: (i32, i32)) -> Area {
    Area {
        x: wrapped(if start.0 <= end.0 { start.0 as int } else { end.0 as int }),
        y: wrapped(if start.1 <= end.1 { start.1 as int } else { end.1 as int }),
        width: (if end.0 >= start.0 { end.0 - start.0 } else { start.0 - end.0 }) as u32,
        height: (if end.1 >= start.1 { end.1 - start.1 } else { start.1 - end.1 }) as u32,
    }
}

fn wrap(v: i32) -> (r: u32)
    ensures
        r == wrapped(v as int),
{
    if v >= 0 {
        v as u32
    } else {
        (v as i64 + 0x1_0000_0000) as u32
    }
}

fn distance(a: i32, b: i32) -> (r: u32)
    ensures
        r == if a >= b { a - b } else { b - a },
{
    if a >= b {
        (a as i64 - b as i64) as u32
    } else {
        (b as i64 - a as i64) as u32
    }
}

impl Selection {
    /// What [`Selection::update_drag_state`] makes of a selection when the
    /// button is `pressed` with the pointer at (`x`, `y`).
    pub open spec fn after_mouse(self, pressed: bool, x: i32, y: i32) -> Selection {
        if !self.modify_by_drag {
            self
        } else if pressed {
            if self.drag_state.is_dragging {
                self
            } else {
                Selection {
                    drag_state: DragState {
                        start: Some((x, y)),
                        is_dragging: true,
                        ..self.drag_state
                    },
                    ..self
                }
            }
        } else if self.drag_state.is_dragging {
            Selection {
                area: match self.drag_state.start {
                    Some(start) => dragged_area(start, (x, y)),
                    None => self.area,
                },
                modify_by_drag: false,
                drag_state: DragState { end: Some((x, y)), is_dragging: false, ..self.drag_state },
            }
        } else {
            self
        }
    }

    /// Follows the mouse while the region is to be set by a drag: the press
    /// marks one corner, the release the opposite one, and with the release
    /// the region is set and the selection by drag ends.
    pub fn update_drag_state(&mut self, pressed: bool, x: i32, y: i32)
        ensures
            *final(self) == old(self).after_mouse(pressed, x, y),
    {
        if self.modify_by_drag {
            if pressed {
                if !self.drag_state.is_dragging {
                    self.drag_state.start = Some((x, y));
                    self.drag_state.is_dragging = true;
                }
            } else if self.drag_state.is_dragging {
                self.drag_state.end = Some((x, y));
                self.drag_state.is_dragging = false;
                match self.drag_state.start {
                    Some(start) => {
                        let left: i32 = if start.0 <= x { start.0 } else { x };
                        let top: i32 = if start.1 <= y { start.1 } else { y };
                        self.area.x = wrap(left);
                        self.area.y = wrap(top);
                        self.area.width = distance(x, start.0);
                        self.area.height = distance(y, start.1);
                    },
                    None => {},
                }
                self.modify_by_drag = false;
            }
        }
    }
}

} // verus!
