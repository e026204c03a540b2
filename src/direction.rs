use vstd::prelude::*;

verus! {

/// A heading on the grid: a unit displacement along one axis, or no
/// displacement at all (`Idle`).
#[derive(Clone, Copy, Debug, PartialEq, Eq, Structural)]
pub enum Direction {
    Up,
    Down,
    Left,
    Right,
    Idle,
}

/// The keys that the game distinguishes. Any other key is `Other`.
#[derive(Clone, Copy, Debug, PartialEq, Eq, Structural)]
pub enum Key {
    W,
    A,
    S,
    D,
    Up,
    Down,
    Left,
    Right,
    R,
    Other,
}

impl Direction {
    /// Horizontal component of the heading's vector.
    pub open spec fn dx(self) -> int {
        match self {
            Direction::Left => -1,
            Direction::Right => 1,
            _ => 0,
        }
    }

    /// Vertical component of the heading's vector (the y axis grows downwards).
    pub open spec fn dy(self) -> int {
        match self {
            Direction::Up => -1,
            Direction::Down => 1,
            _ => 0,
        }
    }

    /// The heading whose vector is the negation of this one's.
    pub open spec fn spec_opposite(self) -> Direction {
        match self {
            Direction::Up => Direction::Down,
            Direction::Down => Direction::Up,
            Direction::Left => Direction::Right,
            Direction::Right => Direction::Left,
            Direction::Idle => Direction::Idle,
        }
    }

    /// `self` is the exact reversal of the non-idle heading `of`.
    pub open spec fn spec_reverses(self, of: Direction) -> bool {
        of != Direction::Idle && self == of.spec_opposite()
    }

    /// The unit (or zero) displacement `(dx, dy)` of this heading.
    pub fn vector(self) -> (r: (i32, i32))
        ensures
            r.0 == self.dx(),
            r.1 == self.dy(),
    {
        match self {
            Direction::Up => (0, -1),
            Direction::Down => (0, 1),
            Direction::Left => (-1, 0),
            Direction::Right => (1, 0),
            Direction::Idle => (0, 0),
        }
    }

    /// The algebraic opposite: its vector is the negated vector of `self`.
    /// `Idle` is its own opposite, so it has no opposite distinct from itself.
    pub fn opposite(self) -> (r: Direction)
        ensures
            r == self.spec_opposite(),
            r.dx() == -self.dx(),
            r.dy() == -self.dy(),
            self != Direction::Idle ==> r != self,
    {
        match self {
            Direction::Up => Direction::Down,
            Direction::Down => Direction::Up,
            Direction::Left => Direction::Right,
            Direction::Right => Direction::Left,
            Direction::Idle => Direction::Idle,
        }
    }

    /// Whether `self` would turn a snake heading `of` straight back onto itself.
    pub fn reverses(self, of: Direction) -> (r: bool)
        ensures
            r == self.spec_reverses(of),
    {
        of != Direction::Idle && self == of.opposite()
    }
}

/// The direction that a key selects: `W`/`A`/`S`/`D` and the four arrow keys.
pub open spec fn key_direction(k: Key) -> Option<Direction> {
    match k {
        Key::W | Key::Up => Some(Direction::Up),
        Key::S | Key::Down => Some(Direction::Down),
        Key::A | Key::Left => Some(Direction::Left),
        Key::D | Key::Right => Some(Direction::Right),
        _ => None,
    }
}

/// Maps an input key to the heading it selects. Keys outside the eight
/// direction keys give `None`: they leave the heading as it is.
pub fn direction_hash(k: Key) -> (r: Option<Direction>)
    ensures
        r == key_direction(k),
        r == Some(Direction::Up) <==> (k == Key::W || k == Key::Up),
        r == Some(Direction::Down) <==> (k == Key::S || k == Key::Down),
        r == Some(Direction::Left) <==> (k == Key::A || k == Key::Left),
        r == Some(Direction::Right) <==> (k == Key::D || k == Key::Right),
        r != Some(Direction::Idle),
{
    match k {
        Key::W | Key::Up => Some(Direction::Up),
        Key::S | Key::Down => Some(Direction::Down),
        Key::A | Key::Left => Some(Direction::Left),
        Key::D | Key::Right => Some(Direction::Right),
        _ => None,
    }
}

/// How the head sprite is drawn for a heading: a rotation in degrees and the
/// pixel offset that keeps the rotated sprite inside its cell.
#[derive(Clone, Copy, Debug, PartialEq, Eq, Structural)]
pub struct HeadPose {
    pub degrees: i32,
    pub offset_x: i32,
    pub offset_y: i32,
}

/// The head pose for heading `d` with tiles of `tile_width` by `tile_height` pixels.
pub fn rot_hash(d: Direction, tile_width: i32, tile_height: i32) -> (r: HeadPose)
    ensures
        d == Direction::Up ==> r == (HeadPose { degrees: 90, offset_x: tile_width, offset_y: 0 }),
        d == Direction::Down ==> r == (HeadPose { degrees: 270, offset_x: 0, offset_y: tile_height }),
        d == Direction::Left ==> r == (HeadPose { degrees: 0, offset_x: 0, offset_y: 0 }),
        d == Direction::Right ==> r == (HeadPose {
            degrees: 180,
            offset_x: tile_width,
            offset_y: tile_height,
        }),
        d == Direction::Idle ==> r == (HeadPose { degrees: 0, offset_x: 0, offset_y: 0 }),
{
    match d {
        Direction::Up => HeadPose { degrees: 90, offset_x: tile_width, offset_y: 0 },
        Direction::Down => HeadPose { degrees: 270, offset_x: 0, offset_y: tile_height },
        Direction::Left => HeadPose { degrees: 0, offset_x: 0, offset_y: 0 },
        Direction::Right => HeadPose { degrees: 180, offset_x: tile_width, offset_y: tile_height },
        Direction::Idle => HeadPose { degrees: 0, offset_x: 0, offset_y: 0 },
    }
}

} // verus!
