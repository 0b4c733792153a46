use vstd::prelude::*;

verus! {

/// The twelve digital inputs of the virtual gamepad.
#[derive(Debug, Clone, Copy, PartialEq, Eq, Structural)]
pub enum Button {
    North,
    East,
    South,
    West,
    Up,
    Right,
    Down,
    Left,
    Start,
    Select,
    LeftShoulder,
    RightShoulder,
}

pub const NORTH_MASK: u8 = 128;
pub const EAST_MASK: u8 = 64;
pub const SOUTH_MASK: u8 = 32;
pub const WEST_MASK: u8 = 16;
pub const HAT_MASK: u8 = 15;

pub const MODE_START: u8 = 32;
pub const MODE_SELECT: u8 = 16;
pub const MODE_LEFT_SHOULDER: u8 = 2;
pub const MODE_RIGHT_SHOULDER: u8 = 1;

/// The state of every button and direction in one report.
#[derive(Debug, Clone, Copy, PartialEq, Eq, Structural)]
pub struct ButtonState {
    pub north: bool,
    pub east: bool,
    pub south: bool,
    pub west: bool,
    pub up: bool,
    pub right: bool,
    pub down: bool,
    pub left: bool,
    pub start: bool,
    pub select: bool,
    pub left_shoulder: bool,
    pub right_shoulder: bool,
}

/// The hat value held in the low nibble of the face-button byte.
pub open spec fn hat_of(face: u8) -> u8 {
    face & HAT_MASK
}

/// Hat values that assert Up: straight up and its two diagonals.
pub open spec fn hat_up(h: u8) -> bool {
    h == 0 || h == 1 || h == 7
}

/// Hat values that assert Right.
pub open spec fn hat_right(h: u8) -> bool {
    h == 1 || h == 2 || h == 3
}

/// Hat values that assert Down.
pub open spec fn hat_down(h: u8) -> bool {
    h == 3 || h == 4 || h == 5
}

/// Hat values that assert Left.
pub open spec fn hat_left(h: u8) -> bool {
    h == 5 || h == 6 || h == 7
}

/// The buttons that a face-button byte and a mode byte assert.
pub open spec fn buttons_of(face: u8, mode: u8) -> ButtonState {
    ButtonState {
        north: face & NORTH_MASK == NORTH_MASK,
        east: face & EAST_MASK == EAST_MASK,
        south: face & SOUTH_MASK == SOUTH_MASK,
        west: face & WEST_MASK == WEST_MASK,
        up: hat_up(hat_of(face)),
        right: hat_right(hat_of(face)),
        down: hat_down(hat_of(face)),
        left: hat_left(hat_of(face)),
        start: mode == MODE_START,
        select: mode == MODE_SELECT,
        left_shoulder: mode == MODE_LEFT_SHOULDER,
        right_shoulder: mode == MODE_RIGHT_SHOULDER,
    }
}

/// Whether `b` is pressed in `s`.
pub open spec fn is_pressed(s: ButtonState, b: Button) -> bool {
    match b {
        Button::North => s.north,
        Button::East => s.east,
        Button::South => s.south,
        Button::West => s.west,
        Button::Up => s.up,
        Button::Right => s.right,
        Button::Down => s.down,
        Button::Left => s.left,
        Button::Start => s.start,
        Button::Select => s.select,
        Button::LeftShoulder => s.left_shoulder,
        Button::RightShoulder => s.right_shoulder,
    }
}

/// Decodes the face-button byte and the mode byte. The high nibble of the
/// face byte carries one flag per face button; its low nibble is a hat
/// whose diagonals assert two adjacent directions; the mode byte names at
/// most one of Start, Select and the shoulders by its exact value.
pub fn decode_buttons(face: u8, mode: u8) -> (r: ButtonState)
    ensures
        r == buttons_of(face, mode),
{
    let hat = face & HAT_MASK;
    ButtonState {
        north: face & NORTH_MASK == NORTH_MASK,
        east: face & EAST_MASK == EAST_MASK,
        south: face & SOUTH_MASK == SOUTH_MASK,
        west: face & WEST_MASK == WEST_MASK,
        up: hat == 0 || hat == 1 || hat == 7,
        right: hat == 1 || hat == 2 || hat == 3,
        down: hat == 3 || hat == 4 || hat == 5,
        left: hat == 5 || hat == 6 || hat == 7,
        start: mode == MODE_START,
        select: mode == MODE_SELECT,
        left_shoulder: mode == MODE_LEFT_SHOULDER,
        right_shoulder: mode == MODE_RIGHT_SHOULDER,
    }
}

impl ButtonState {
    /// Whether `b` is pressed.
    pub fn pressed(&self, b: Button) -> (r: bool)
        ensures
            r == is_pressed(*self, b),
    {
        match b {
            Button::North => self.north,
            Button::East => self.east,
            Button::South => self.south,
            Button::West => self.west,
            Button::Up => self.up,
            Button::Right => self.right,
            Button::Down => self.down,
            Button::Left => self.left,
            Button::Start => self.start,
            Button::Select => self.select,
            Button::LeftShoulder => self.left_shoulder,
            Button::RightShoulder => self.right_shoulder,
        }
    }
}

/// A mode byte asserts at most one of Start, Select and the shoulders.
pub proof fn lemma_mode_buttons_exclusive(face: u8, mode: u8)
    ensures
        ({
            let s = buttons_of(face, mode);
            (s.start ==> !s.select && !s.left_shoulder && !s.right_shoulder)
                && (s.select ==> !s.left_shoulder && !s.right_shoulder)
                && (s.left_shoulder ==> !s.right_shoulder)
        }),
{
}

/// A hat value asserts at most two directions, and two only on a diagonal
/// (an odd value below eight); a value of eight or more asserts none.
pub proof fn lemma_hat_directions(face: u8, mode: u8)
    ensures
        ({
            let s = buttons_of(face, mode);
            let h = hat_of(face);
            &&& h >= 8 ==> !s.up && !s.right && !s.down && !s.left
            &&& !(s.up && s.down) && !(s.left && s.right)
            &&& (s.up && s.right) <==> h == 1
            &&& (s.right && s.down) <==> h == 3
            &&& (s.down && s.left) <==> h == 5
            &&& (s.left && s.up) <==> h == 7
        }),
{
}

} // verus!
