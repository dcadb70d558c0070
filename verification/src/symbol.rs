//! What a grid cell can show, and which body glyph joins two headings.

use crate::direction::Direction;
use vstd::prelude::*;

verus! {

/// The content of one grid cell.
#[derive(Clone, Copy, Debug, PartialEq, Eq, Structural)]
pub enum Symbol {
    /// Nothing: the snake may move here.
    Empty,
    /// A vertical body segment; also the default straight segment.
    BodyV,
    /// A horizontal body segment.
    BodyH,
    /// The upper-left corner.
    BodyUL,
    /// The lower-left corner.
    BodyLL,
    /// The upper-right corner.
    BodyUR,
    /// The lower-right corner.
    BodyLR,
    /// Food: the snake grows when its head lands here.
    Food,
    /// The head, for every heading but `Right`.
    Head,
    /// The head while heading `Right`.
    HeadR,
    /// The wall around the grid.
    Border,
}

/// Colour of an empty cell.
pub const BACKGROUND_COLOUR: i16 = 0;

/// Colour of the snake, head and body.
pub const SNAKE_COLOUR: i16 = 1;

/// Colour of the food.
pub const FOOD_COLOUR: i16 = 1;

/// Colour of the wall.
pub const BORDER_COLOUR: i16 = 2;

/// The pair `{a, b}` with the smaller heading first.
pub open spec fn ordered_pair(a: Direction, b: Direction) -> (Direction, Direction) {
    if a.rank() < b.rank() {
        (a, b)
    } else {
        (b, a)
    }
}

/// The body glyph for a cell whose two neighbours along the snake lie in
/// the headings `a` and `b`.
///
/// The unordered pair is put in order and looked up in a fixed table; every
/// pair that the table does not list, a heading paired with itself among
/// them, gives the vertical segment.
pub open spec fn joint_glyph(a: Direction, b: Direction) -> Symbol {
    match ordered_pair(a, b) {
        (Direction::Left, Direction::Right) => Symbol::BodyH,
        (Direction::Up, Direction::Right) => Symbol::BodyUR,
        (Direction::Left, Direction::Up) => Symbol::BodyLL,
        (Direction::Down, Direction::Up) => Symbol::BodyV,
        (Direction::Left, Direction::Down) => Symbol::BodyUL,
        (Direction::Down, Direction::Right) => Symbol::BodyLR,
        _ => Symbol::BodyV,
    }
}

/// The glyph of the head: a form of its own while heading `Right`, the
/// default form otherwise.
pub open spec fn head_glyph(heading: Direction) -> Symbol {
    if heading == Direction::Right {
        Symbol::HeadR
    } else {
        Symbol::Head
    }
}

impl Symbol {
    /// What fills the second column of a cell that is drawn two columns
    /// wide: glyphs that reach to the following column continue as a
    /// horizontal segment, the wall continues as wall, all else is blank.
    pub open spec fn spec_filler(self) -> Symbol {
        match self {
            Symbol::BodyH | Symbol::BodyUL | Symbol::BodyLL | Symbol::HeadR => Symbol::BodyH,
            Symbol::Border => Symbol::Border,
            _ => Symbol::Empty,
        }
    }

    /// Whether the snake may move onto a cell showing this symbol.
    pub open spec fn passable(self) -> bool {
        self == Symbol::Empty || self == Symbol::Food
    }

    /// Looks up the body glyph that joins `heading` and `last`.
    pub fn joint(heading: Direction, last: Direction) -> (glyph: Symbol)
        ensures
            glyph == joint_glyph(heading, last),
    {
        let pair = if heading.ordinal() < last.ordinal() {
            (heading, last)
        } else {
            (last, heading)
        };
        match pair {
            (Direction::Left, Direction::Right) => Symbol::BodyH,
            (Direction::Up, Direction::Right) => Symbol::BodyUR,
            (Direction::Left, Direction::Up) => Symbol::BodyLL,
            (Direction::Down, Direction::Up) => Symbol::BodyV,
            (Direction::Left, Direction::Down) => Symbol::BodyUL,
            (Direction::Down, Direction::Right) => Symbol::BodyLR,
            _ => Symbol::BodyV,
        }
    }

    /// Picks the head glyph for `heading`.
    pub fn head(heading: Direction) -> (glyph: Symbol)
        ensures
            glyph == head_glyph(heading),
    {
        match heading {
            Direction::Right => Symbol::HeadR,
            _ => Symbol::Head,
        }
    }

    /// Returns the symbol for the second column of a double-width cell.
    #[verifier::when_used_as_spec(spec_filler)]
    pub fn filler(self) -> (glyph: Symbol)
        ensures
            glyph == self.spec_filler(),
    {
        match self {
            Symbol::BodyH | Symbol::BodyUL | Symbol::BodyLL | Symbol::HeadR => Symbol::BodyH,
            Symbol::Border => Symbol::Border,
            _ => Symbol::Empty,
        }
    }
}

/// The joint glyph does not depend on the order of the two headings.
pub proof fn lemma_joint_glyph_symmetric(a: Direction, b: Direction)
    ensures
        joint_glyph(a, b) == joint_glyph(b, a),
{
}

/// A heading joined with itself gives the default straight segment.
pub proof fn lemma_joint_glyph_straight(d: Direction)
    ensures
        joint_glyph(d, d) == Symbol::BodyV,
{
}

} // verus!
