//! The GBA's buttons: which are held this frame and which changed since the
//! previous one.  A button state is a bit set, one bit per button, in the
//! layout of the hardware's key register.
use vstd::prelude::*;

verus! {

/// A button on the GBA.
#[derive(Clone, Copy, PartialEq, Eq, Structural, Debug)]
pub enum Button {
    A,
    B,
    Select,
    Start,
    Right,
    Left,
    Up,
    Down,
    R,
    L,
}

/// The bit of `b` in a button state.
pub open spec fn spec_mask(b: Button) -> u16 {
    match b {
        Button::A => 1,
        Button::B => 2,
        Button::Select => 4,
        Button::Start => 8,
        Button::Right => 16,
        Button::Left => 32,
        Button::Up => 64,
        Button::Down => 128,
        Button::R => 256,
        Button::L => 512,
    }
}

/// Whether `b` is pressed in the button state `state`.
pub open spec fn in_state(state: u16, b: Button) -> bool {
    state & spec_mask(b) != 0
}

impl Button {
    /// The bit of this button in a button state.
    pub fn mask(self) -> (m: u16)
        ensures
            m == spec_mask(self),
    {
        match self {
            Button::A => 1,
            Button::B => 2,
            Button::Select => 4,
            Button::Start => 8,
            Button::Right => 16,
            Button::Left => 32,
            Button::Up => 64,
            Button::Down => 128,
            Button::R => 256,
            Button::L => 512,
        }
    }
}

/// The buttons held this frame and the frame before.
#[derive(Clone, Copy, Debug)]
pub struct ButtonController {
    pub previous: u16,
    pub current: u16,
}

/// -1 when only `neg` is held, 1 when only `pos` is held, 0 otherwise.
pub open spec fn tri(neg: bool, pos: bool) -> int {
    (if pos { 1int } else { 0int }) - (if neg { 1int } else { 0int })
}

impl ButtonController {
    /// A controller whose previous and current states are both `state`.
    pub fn new(state: u16) -> (c: ButtonController)
        ensures
            c.previous == state,
            c.current == state,
    {
        ButtonController { previous: state, current: state }
    }

    /// Moves to the next frame, whose held buttons are `state`.
    pub fn update_with_state(&mut self, state: u16)
        ensures
            final(self).previous == old(self).current,
            final(self).current == state,
    {
        self.previous = self.current;
        self.current = state;
    }

    pub open spec fn pressed(self, b: Button) -> bool {
        in_state(self.current, b)
    }

    pub open spec fn just_pressed(self, b: Button) -> bool {
        in_state(self.current, b) && !in_state(self.previous, b)
    }

    pub open spec fn just_released(self, b: Button) -> bool {
        !in_state(self.current, b) && in_state(self.previous, b)
    }

    /// Is `b` held this frame?
    pub fn is_pressed(&self, b: Button) -> (r: bool)
        ensures
            r == self.pressed(b),
    {
        self.current & b.mask() != 0
    }

    /// Did `b` go from released to held this frame?
    pub fn is_just_pressed(&self, b: Button) -> (r: bool)
        ensures
            r == self.just_pressed(b),
    {
        let m = b.mask();
        let cur = self.current;
        let prev = self.previous;
        assert((cur & !prev) & m != 0 <==> (cur & m != 0 && prev & m == 0)) by (bit_vector)
            requires
                m == 1 || m == 2 || m == 4 || m == 8 || m == 16 || m == 32 || m == 64 || m
                    == 128 || m == 256 || m == 512,
        ;
        (cur & !prev) & m != 0
    }

    /// Did `b` go from held to released this frame?
    pub fn is_just_released(&self, b: Button) -> (r: bool)
        ensures
            r == self.just_released(b),
    {
        let m = b.mask();
        let cur = self.current;
        let prev = self.previous;
        assert((!cur & prev) & m != 0 <==> (cur & m == 0 && prev & m != 0)) by (bit_vector)
            requires
                m == 1 || m == 2 || m == 4 || m == 8 || m == 16 || m == 32 || m == 64 || m
                    == 128 || m == 256 || m == 512,
        ;
        (!cur & prev) & m != 0
    }

    pub open spec fn spec_x_tri(self) -> int {
        tri(self.pressed(Button::Left), self.pressed(Button::Right))
    }

    pub open spec fn spec_y_tri(self) -> int {
        tri(self.pressed(Button::Up), self.pressed(Button::Down))
    }

    /// 1 if only right is held, -1 if only left is held, 0 otherwise.
    pub fn x_tri(&self) -> (r: i32)
        ensures
            r == self.spec_x_tri(),
    {
        let right: i32 = if self.is_pressed(Button::Right) { 1 } else { 0 };
        let left: i32 = if self.is_pressed(Button::Left) { 1 } else { 0 };
        right - left
    }

    /// 1 if only down is held, -1 if only up is held, 0 otherwise.
    pub fn y_tri(&self) -> (r: i32)
        ensures
            r == self.spec_y_tri(),
    {
        let down: i32 = if self.is_pressed(Button::Down) { 1 } else { 0 };
        let up: i32 = if self.is_pressed(Button::Up) { 1 } else { 0 };
        down - up
    }
}

} // verus!
