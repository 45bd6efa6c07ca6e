//! The state of the mouse buttons and the keys that steer the game.
//!
//! A button goes up -> down -> clicked | dragging; clicked -> up;
//! dragging -> dragged -> up. `P` is the type of a position on the screen.
use vstd::prelude::*;

verus! {

/// How many updates a button may be held down before the press counts as a drag.
pub const DRAG_FRAMES: u8 = 10;

/// The state of one mouse button.
#[derive(Debug, Clone, Copy)]
pub enum MouseState<P> {
    /// Held down and moved: a drag that started at the position.
    Dragging(P),
    /// A drag that started at the position ended in this frame.
    Dragged(P),
    Up,
    /// Pressed and released without a drag, in this frame.
    Clicked,
    /// Pressed at the position, held down for the given number of updates.
    Down(u8, P),
}

impl<P> Default for MouseState<P> {
    /// A button starts up.
    fn default() -> (state: Self)
        ensures
            state == MouseState::<P>::Up,
    {
        MouseState::Up
    }
}

/// The state that an update leaves, where `beyond` says whether the mouse is
/// now far enough from where the button went down to start a drag.
pub open spec fn state_after_update<P>(state: MouseState<P>, beyond: bool) -> MouseState<P> {
    match state {
        MouseState::Clicked => MouseState::Up,
        MouseState::Down(frames, at) => if frames > DRAG_FRAMES || beyond {
            MouseState::Dragging(at)
        } else {
            MouseState::Down((frames + 1) as u8, at)
        },
        MouseState::Dragged(_) => MouseState::Up,
        other => other,
    }
}

/// The state that a press (`pressed`) or a release of the button at `mouse` leaves.
pub open spec fn state_after_handle<P>(state: MouseState<P>, mouse: P, pressed: bool) -> MouseState<
    P,
> {
    if pressed {
        MouseState::Down(0, mouse)
    } else {
        state_after_release(state)
    }
}

/// The state that a release of the button leaves.
pub open spec fn state_after_release<P>(state: MouseState<P>) -> MouseState<P> {
    match state {
        MouseState::Down(_, _) => MouseState::Clicked,
        MouseState::Dragging(at) => MouseState::Dragged(at),
        _ => MouseState::Up,
    }
}

/// The state of a button that stays put for `n` updates.
pub open spec fn state_after_updates<P>(state: MouseState<P>, n: nat) -> MouseState<P>
    decreases n,
{
    if n == 0 {
        state
    } else {
        state_after_updates(state_after_update(state, false), (n - 1) as nat)
    }
}

impl<P: Copy> MouseState<P> {
    /// Advances the button by one frame; `beyond` says whether the mouse is far
    /// enough from where the button went down to turn the press into a drag.
    pub fn update(&mut self, beyond: bool)
        ensures
            *final(self) == state_after_update(*old(self), beyond),
    {
        match *self {
            MouseState::Clicked => *self = MouseState::Up,
            MouseState::Down(frames, at) => {
                if frames > DRAG_FRAMES || beyond {
                    *self = MouseState::Dragging(at);
                } else {
                    *self = MouseState::Down(frames + 1, at);
                }
            },
            MouseState::Dragged(_) => *self = MouseState::Up,
            _ => {},
        }
    }

    /// Presses (`pressed`) or releases the button with the mouse at `mouse`.
    pub fn handle(&mut self, mouse: P, pressed: bool)
        ensures
            *final(self) == state_after_handle(*old(self), mouse, pressed),
    {
        if pressed {
            self.handle_down(mouse);
        } else {
            self.handle_up();
        }
    }

    /// The button goes down with the mouse at `mouse`.
    pub fn handle_down(&mut self, mouse: P)
        ensures
            *final(self) == MouseState::Down(0, mouse),
    {
        *self = MouseState::Down(0, mouse)
    }

    /// The button comes up.
    pub fn handle_up(&mut self)
        ensures
            *final(self) == state_after_release(*old(self)),
    {
        match *self {
            MouseState::Down(_, _) => *self = MouseState::Clicked,
            MouseState::Dragging(at) => *self = MouseState::Dragged(at),
            _ => *self = MouseState::Up,
        }
    }

    /// Where the button went down, while it is held without a drag.
    pub fn press_point(&self) -> (point: Option<P>)
        ensures
            point == match *self {
                MouseState::Down(_, at) => Some(at),
                _ => None,
            },
    {
        match *self {
            MouseState::Down(_, at) => Some(at),
            _ => None,
        }
    }

    pub fn is_dragging(&self) -> (dragging: bool)
        ensures
            dragging <==> *self is Dragging,
    {
        match *self {
            MouseState::Dragging(_) => true,
            _ => false,
        }
    }

    pub fn is_clicked(&self) -> (clicked: bool)
        ensures
            clicked <==> *self is Clicked,
    {
        match *self {
            MouseState::Clicked => true,
            _ => false,
        }
    }
}

/// A drag under way lasts until the button is released, and a button that is
/// up stays up: no update ends either.
pub proof fn law_update_keeps_drag_and_up<P>(at: P, beyond: bool)
    ensures
        state_after_update(MouseState::Dragging(at), beyond) == MouseState::Dragging(at),
        state_after_update(MouseState::<P>::Up, beyond) == MouseState::<P>::Up,
        state_after_release(MouseState::Dragging(at)) == MouseState::Dragged(at),
{
}

/// A click: a press and a release with no update in between leave the button
/// clicked, and the next update puts it back up.
pub proof fn law_click<P>(state: MouseState<P>, at: P, beyond: bool)
    ensures
        state_after_handle(state_after_handle(state, at, true), at, false) == MouseState::<P>::Clicked,
        state_after_update(MouseState::<P>::Clicked, beyond) == MouseState::<P>::Up,
{
}

/// A drag: a button held down while the mouse moves far enough is dragging
/// from where it went down; releasing it leaves it dragged from there, and the
/// next update puts it back up.
pub proof fn law_drag<P>(frames: u8, at: P, other: P, beyond: bool)
    requires
        frames <= DRAG_FRAMES + 1,
    ensures
        state_after_update(MouseState::Down(frames, at), true) == MouseState::Dragging(at),
        state_after_handle(MouseState::Dragging(at), other, false) == MouseState::Dragged(at),
        state_after_update(MouseState::<P>::Dragged(at), beyond) == MouseState::<P>::Up,
{
}

/// A long press: a button held still for more than `DRAG_FRAMES` + 1 updates
/// turns into a drag from where it went down, and never before.
pub proof fn law_long_press<P>(at: P, n: nat)
    ensures
        n <= DRAG_FRAMES + 1 ==> state_after_updates(MouseState::Down(0, at), n) == MouseState::Down(
            n as u8,
            at,
        ),
        n == DRAG_FRAMES + 2 ==> state_after_updates(MouseState::Down(0, at), n)
            == MouseState::Dragging(at),
    decreases n,
{
    lemma_held_down(at, 0, n);
}

proof fn lemma_held_down<P>(at: P, frames: nat, n: nat)
    requires
        frames <= DRAG_FRAMES + 1,
    ensures
        frames + n <= DRAG_FRAMES + 1 ==> state_after_updates(MouseState::Down(frames as u8, at), n)
            == MouseState::Down((frames + n) as u8, at),
        frames + n == DRAG_FRAMES + 2 ==> state_after_updates(
            MouseState::Down(frames as u8, at),
            n,
        ) == MouseState::Dragging(at),
    decreases n,
{
    if n > 0 && frames + n <= DRAG_FRAMES + 2 {
        if frames <= DRAG_FRAMES {
            lemma_held_down(at, frames + 1, (n - 1) as nat);
        } else {
            assert(n == 1);
            assert(state_after_updates(MouseState::Dragging(at), 0) == MouseState::Dragging(at));
        }
    }
}

/// The buttons and keys of the player, with the mouse at a position of type `P`.
#[derive(Debug, Clone, Copy)]
pub struct Controls<P> {
    pub mouse: P,
    pub left_state: MouseState<P>,
    pub right_state: MouseState<P>,
    pub middle_state: MouseState<P>,
    pub left: bool,
    pub right: bool,
    pub forwards: bool,
    pub back: bool,
    pub shift: bool,
    pub delete: bool,
    pub save: bool,
    pub load: bool,
}

impl<P: Copy> Controls<P> {
    /// Controls with every button up and no key held, the mouse at `mouse`.
    pub fn new(mouse: P) -> (controls: Self)
        ensures
            controls.mouse == mouse,
            controls.left_state == MouseState::<P>::Up,
            controls.right_state == MouseState::<P>::Up,
            controls.middle_state == MouseState::<P>::Up,
            !controls.left && !controls.right && !controls.forwards && !controls.back,
            !controls.shift && !controls.delete && !controls.save && !controls.load,
    {
        Controls {
            mouse,
            left_state: MouseState::Up,
            right_state: MouseState::Up,
            middle_state: MouseState::Up,
            left: false,
            right: false,
            forwards: false,
            back: false,
            shift: false,
            delete: false,
            save: false,
            load: false,
        }
    }

    pub fn right_dragging(&self) -> (dragging: bool)
        ensures
            dragging <==> self.right_state is Dragging,
    {
        self.right_state.is_dragging()
    }

    pub fn mouse(&self) -> (mouse: P)
        ensures
            mouse == self.mouse,
    {
        self.mouse
    }

    pub fn set_mouse(&mut self, mouse: P)
        ensures
            *final(self) == (Controls { mouse, ..*old(self) }),
    {
        self.mouse = mouse;
    }

    /// Where each button (left, middle, right) went down, while it is held without a drag.
    pub fn press_points(&self) -> (points: (Option<P>, Option<P>, Option<P>))
        ensures
            points.0 == (match self.left_state {
                MouseState::Down(_, at) => Some(at),
                _ => None,
            }),
            points.1 == (match self.middle_state {
                MouseState::Down(_, at) => Some(at),
                _ => None,
            }),
            points.2 == (match self.right_state {
                MouseState::Down(_, at) => Some(at),
                _ => None,
            }),
    {
        (self.left_state.press_point(), self.middle_state.press_point(), self.right_state.press_point())
    }

    /// Advances the controls by one frame: the save and load keys are let go,
    /// and each button moves on; the flags say, per button, whether the mouse
    /// is far enough from where it went down to start a drag.
    pub fn update(&mut self, left_beyond: bool, middle_beyond: bool, right_beyond: bool)
        ensures
            !final(self).save,
            !final(self).load,
            final(self).left_state == state_after_update(old(self).left_state, left_beyond),
            final(self).middle_state == state_after_update(old(self).middle_state, middle_beyond),
            final(self).right_state == state_after_update(old(self).right_state, right_beyond),
            final(self).mouse == old(self).mouse,
            final(self).left == old(self).left,
            final(self).right == old(self).right,
            final(self).forwards == old(self).forwards,
            final(self).back == old(self).back,
            final(self).shift == old(self).shift,
            final(self).delete == old(self).delete,
    {
        self.save = false;
        self.load = false;
        self.left_state.update(left_beyond);
        self.middle_state.update(middle_beyond);
        self.right_state.update(right_beyond);
    }

    pub fn handle_left(&mut self, pressed: bool)
        ensures
            *final(self) == (Controls {
                left_state: state_after_handle(old(self).left_state, old(self).mouse, pressed),
                ..*old(self)
            }),
    {
        let mouse = self.mouse;
        self.left_state.handle(mouse, pressed);
    }

    pub fn handle_right(&mut self, pressed: bool)
        ensures
            *final(self) == (Controls {
                right_state: state_after_handle(old(self).right_state, old(self).mouse, pressed),
                ..*old(self)
            }),
    {
        let mouse = self.mouse;
        self.right_state.handle(mouse, pressed);
    }

    pub fn handle_middle(&mut self, pressed: bool)
        ensures
            *final(self) == (Controls {
                middle_state: state_after_handle(old(self).middle_state, old(self).mouse, pressed),
                ..*old(self)
            }),
    {
        let mouse = self.mouse;
        self.middle_state.handle(mouse, pressed);
    }

    pub fn middle_clicked(&self) -> (clicked: bool)
        ensures
            clicked <==> self.middle_state is Clicked,
    {
        self.middle_state.is_clicked()
    }

    pub fn left_clicked(&self) -> (clicked: bool)
        ensures
            clicked <==> self.left_state is Clicked,
    {
        self.left_state.is_clicked()
    }

    pub fn right_clicked(&self) -> (clicked: bool)
        ensures
            clicked <==> self.right_state is Clicked,
    {
        self.right_state.is_clicked()
    }

    /// Where a left drag that ended in this frame started.
    pub fn left_dragged(&self) -> (origin: Option<P>)
        ensures
            origin == match self.left_state {
                MouseState::Dragged(at) => Some(at),
                _ => None,
            },
    {
        match self.left_state {
            MouseState::Dragged(at) => Some(at),
            _ => None,
        }
    }

    /// Where the left drag under way started.
    pub fn left_dragging(&self) -> (origin: Option<P>)
        ensures
            origin == match self.left_state {
                MouseState::Dragging(at) => Some(at),
                _ => None,
            },
    {
        match self.left_state {
            MouseState::Dragging(at) => Some(at),
            _ => None,
        }
    }
}

} // verus!
