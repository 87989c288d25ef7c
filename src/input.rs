use vstd::prelude::*;

verus! {

/// A button of an input device, by its codes: a key code, a mouse button
/// number, a controller id with a button number, or a controller id with a
/// hat state number and a hat number.
#[derive(Clone, Copy, Debug, PartialEq, Eq, Structural)]
pub enum ButtonCode {
    Keyboard(u32),
    Mouse(u32),
    Controller(u32, u8),
    Hat(u32, u8, u8),
}

/// Whether a button was pressed or released.
#[derive(Clone, Copy, Debug, PartialEq, Eq, Structural)]
pub enum ButtonState {
    Press,
    Release,
}

/// One of the four half-axes of a 2D input.
#[derive(Clone, Copy, Debug, PartialEq, Eq, Structural)]
pub enum Axis2dDirection {
    PosX,
    NegX,
    PosY,
    NegY,
}

/// Four buttons bound to the half-axes of a 2D input, each with whether it
/// is held down.
#[derive(Clone, Copy, Debug)]
pub struct Axis2dBinding {
    pos_x: (ButtonCode, bool),
    neg_x: (ButtonCode, bool),
    pos_y: (ButtonCode, bool),
    neg_y: (ButtonCode, bool),
}

/// The value of one axis: 1 for its positive button alone, -1 for its
/// negative button alone, else 0.
pub open spec fn axis_value(pos: bool, neg: bool) -> int {
    (if pos { 1int } else { 0int }) - (if neg { 1int } else { 0int })
}

impl Axis2dBinding {
    pub closed spec fn button_of(&self, dir: Axis2dDirection) -> ButtonCode {
        match dir {
            Axis2dDirection::PosX => self.pos_x.0,
            Axis2dDirection::NegX => self.neg_x.0,
            Axis2dDirection::PosY => self.pos_y.0,
            Axis2dDirection::NegY => self.neg_y.0,
        }
    }

    pub closed spec fn held(&self, dir: Axis2dDirection) -> bool {
        match dir {
            Axis2dDirection::PosX => self.pos_x.1,
            Axis2dDirection::NegX => self.neg_x.1,
            Axis2dDirection::PosY => self.pos_y.1,
            Axis2dDirection::NegY => self.neg_y.1,
        }
    }

    /// The (x, y) value of the input.
    pub open spec fn value_spec(&self) -> (int, int) {
        (
            axis_value(self.held(Axis2dDirection::PosX), self.held(Axis2dDirection::NegX)),
            axis_value(self.held(Axis2dDirection::PosY), self.held(Axis2dDirection::NegY)),
        )
    }

    /// The half-axis that `button` is bound to, checked in the order positive
    /// x, positive y, negative x, negative y.
    pub open spec fn direction_spec(&self, button: ButtonCode) -> Option<Axis2dDirection> {
        if button == self.button_of(Axis2dDirection::PosX) {
            Some(Axis2dDirection::PosX)
        } else if button == self.button_of(Axis2dDirection::PosY) {
            Some(Axis2dDirection::PosY)
        } else if button == self.button_of(Axis2dDirection::NegX) {
            Some(Axis2dDirection::NegX)
        } else if button == self.button_of(Axis2dDirection::NegY) {
            Some(Axis2dDirection::NegY)
        } else {
            None
        }
    }

    /// Binds the four buttons, none of them held.
    pub fn new(pos_x: ButtonCode, pos_y: ButtonCode, neg_x: ButtonCode, neg_y: ButtonCode) -> (r:
        Self)
        ensures
            r.button_of(Axis2dDirection::PosX) == pos_x,
            r.button_of(Axis2dDirection::PosY) == pos_y,
            r.button_of(Axis2dDirection::NegX) == neg_x,
            r.button_of(Axis2dDirection::NegY) == neg_y,
            forall|d: Axis2dDirection| !r.held(d),
    {
        Axis2dBinding {
            pos_x: (pos_x, false),
            pos_y: (pos_y, false),
            neg_x: (neg_x, false),
            neg_y: (neg_y, false),
        }
    }

    /// Marks the button of `dir` held when `state` is a press, released when
    /// it is a release.
    fn set_axis_button(&mut self, state: ButtonState, dir: Axis2dDirection)
        ensures
            forall|d: Axis2dDirection| #[trigger]
                final(self).button_of(d) == old(self).button_of(d),
            forall|d: Axis2dDirection| #[trigger]
                final(self).held(d) == if d == dir {
                    state == ButtonState::Press
                } else {
                    old(self).held(d)
                },
    {
        let held = match state {
            ButtonState::Press => true,
            ButtonState::Release => false,
        };
        self.set_axis(held, dir)
    }

    fn set_axis(&mut self, held: bool, dir: Axis2dDirection)
        ensures
            forall|d: Axis2dDirection| #[trigger]
                final(self).button_of(d) == old(self).button_of(d),
            forall|d: Axis2dDirection| #[trigger]
                final(self).held(d) == if d == dir {
                    held
                } else {
                    old(self).held(d)
                },
    {
        match dir {
            Axis2dDirection::PosX => self.pos_x.1 = held,
            Axis2dDirection::NegX => self.neg_x.1 = held,
            Axis2dDirection::PosY => self.pos_y.1 = held,
            Axis2dDirection::NegY => self.neg_y.1 = held,
        }
    }

    fn maybe_direction_from_button(&self, button: ButtonCode) -> (r: Option<Axis2dDirection>)
        ensures
            r == self.direction_spec(button),
    {
        if button == self.pos_x.0 {
            Some(Axis2dDirection::PosX)
        } else if button == self.pos_y.0 {
            Some(Axis2dDirection::PosY)
        } else if button == self.neg_x.0 {
            Some(Axis2dDirection::NegX)
        } else if button == self.neg_y.0 {
            Some(Axis2dDirection::NegY)
        } else {
            None
        }
    }

    /// Takes a button event: when the button is bound, updates its half-axis
    /// and returns the new (x, y) value; otherwise changes nothing and returns
    /// `None`.
    pub fn maybe_to_action(&mut self, button: ButtonCode, state: ButtonState) -> (r: Option<
        (i8, i8),
    >)
        ensures
            r is Some <==> old(self).direction_spec(button) is Some,
            forall|d: Axis2dDirection| #[trigger]
                final(self).button_of(d) == old(self).button_of(d),
            forall|d: Axis2dDirection| #[trigger]
                final(self).held(d) == if old(self).direction_spec(button) == Some(d) {
                    state == ButtonState::Press
                } else {
                    old(self).held(d)
                },
            r matches Some(v) ==> (v.0 as int, v.1 as int) == final(self).value_spec(),
    {
        match self.maybe_direction_from_button(button) {
            Some(dir) => {
                self.set_axis_button(state, dir);
                Some(self.value())
            },
            None => None,
        }
    }

    /// The (x, y) value of the input.
    pub fn value(&self) -> (r: (i8, i8))
        ensures
            (r.0 as int, r.1 as int) == self.value_spec(),
    {
        let px: i8 = if self.pos_x.1 { 1 } else { 0 };
        let nx: i8 = if self.neg_x.1 { 1 } else { 0 };
        let py: i8 = if self.pos_y.1 { 1 } else { 0 };
        let ny: i8 = if self.neg_y.1 { 1 } else { 0 };
        (px - nx, py - ny)
    }
}

} // verus!
