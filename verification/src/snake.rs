//! The snake: its body from head to tail, its heading, and the cells it
//! changed during the current tick.

use crate::direction::{heading_between, step, Direction};
use crate::grid::Node;
use crate::symbol::{head_glyph, joint_glyph, Symbol, BACKGROUND_COLOUR, SNAKE_COLOUR};
use std::collections::VecDeque;
use vstd::prelude::*;

verus! {

/// The mathematical content of a [`Snake`].
pub struct SnakeView {
    /// The cells of the body, head first, tail last.
    pub body: Seq<(i32, i32)>,
    /// The current heading.
    pub direction: Direction,
    /// The length the snake is meant to have.
    pub length: nat,
    /// The cells changed since the list was last cleared, oldest first.
    pub dirty: Seq<Node>,
}

/// Half of `n`, rounded towards zero.
pub open spec fn half(n: int) -> int {
    if n >= 0 {
        n / 2
    } else {
        -((-n) / 2)
    }
}

/// The cell in the middle of a `width` by `height` grid.
pub open spec fn center(width: i32, height: i32) -> (i32, i32) {
    (half(width as int) as i32, half(height as int) as i32)
}

impl SnakeView {
    /// The snake as it starts out: `length` segments that all lie on
    /// `start`, heading `Up`, with no cell changed yet.
    pub open spec fn coiled(start: (i32, i32), length: nat) -> SnakeView {
        SnakeView {
            body: Seq::new(length, |i: int| start),
            direction: Direction::Up,
            length,
            dirty: Seq::empty(),
        }
    }

    /// Whether the snake can move: it has a head and a segment behind it,
    /// and the head is not at the very edge of what an `i32` can hold.
    pub open spec fn can_slither(self) -> bool {
        &&& self.body.len() >= 2
        &&& i32::MIN < self.body[0].0 < i32::MAX
        &&& i32::MIN < self.body[0].1 < i32::MAX
    }

    /// The cell that the head moves to when the snake takes `heading`.
    pub open spec fn next_head(self, heading: Direction) -> (i32, i32) {
        let to = step(self.body[0], heading);
        (to.0 as i32, to.1 as i32)
    }

    /// The heading that leads from the head to the segment behind it; where
    /// the two do not lie one step apart, as when the body is still coiled
    /// up on one cell, `heading` itself.
    pub open spec fn last_direction(self, heading: Direction) -> Direction {
        match heading_between(self.body[0], self.body[1]) {
            Some(d) => d,
            None => heading,
        }
    }

    /// The snake after one move along `heading`: the new head is put in
    /// front of the body, and two changes are recorded, the joint glyph for
    /// the cell the head left and the head glyph for the cell it entered.
    pub open spec fn slither(self, heading: Direction) -> SnakeView {
        let old_head = self.body[0];
        let new_head = self.next_head(heading);
        let joint = joint_glyph(heading, self.last_direction(heading));
        SnakeView {
            body: seq![new_head] + self.body,
            direction: heading,
            length: self.length,
            dirty: self.dirty.push((old_head, joint, SNAKE_COLOUR)).push(
                (new_head, head_glyph(heading), SNAKE_COLOUR),
            ),
        }
    }

    /// The snake without its last segment, whose cell is recorded as
    /// becoming empty.
    pub open spec fn cut_tail(self) -> SnakeView {
        SnakeView {
            body: self.body.drop_last(),
            dirty: self.dirty.push((self.body.last(), Symbol::Empty, BACKGROUND_COLOUR)),
            ..self
        }
    }

    /// The snake meant to be one segment longer.
    pub open spec fn grow(self) -> SnakeView {
        SnakeView { length: self.length + 1, ..self }
    }

    /// The snake with no change pending.
    pub open spec fn flushed(self) -> SnakeView {
        SnakeView { dirty: Seq::empty(), ..self }
    }
}

/// A snake on the grid.
pub struct Snake {
    body: VecDeque<(i32, i32)>,
    direction: Direction,
    length: u32,
    dirty_nodes: Vec<Node>,
}

impl View for Snake {
    type V = SnakeView;

    closed spec fn view(&self) -> SnakeView {
        SnakeView {
            body: self.body@,
            direction: self.direction,
            length: self.length as nat,
            dirty: self.dirty_nodes@,
        }
    }
}

impl Snake {
    /// Creates a snake of `length` segments, all on the middle cell of a
    /// `width` by `height` grid, heading `Up`.
    pub fn new(width: i32, height: i32, length: u32) -> (snake: Snake)
        ensures
            snake@ == SnakeView::coiled(center(width, height), length as nat),
    {
        let mut body: VecDeque<(i32, i32)> = VecDeque::new();
        let center = (width / 2, height / 2);
        let mut i: u32 = 0;
        while i < length
            invariant
                i <= length,
                body@.len() == i,
                forall|k: int| 0 <= k < i ==> #[trigger] body@[k] == center,
            decreases length - i,
        {
            body.push_back(center);
            i += 1;
        }
        let snake = Snake { body, direction: Direction::Up, length, dirty_nodes: Vec::new() };
        proof {
            assert(snake@.body =~= Seq::new(length as nat, |i: int| center));
            assert(snake@.dirty =~= Seq::empty());
        }
        snake
    }

    /// Removes the last segment and records its cell as becoming empty.
    pub fn cut_tail(&mut self)
        requires
            old(self)@.body.len() > 0,
        ensures
            final(self)@ == old(self)@.cut_tail(),
    {
        let popped = self.body.pop_back();
        match popped {
            Some(tail_old) => {
                self.dirty_nodes.push((tail_old, Symbol::Empty, BACKGROUND_COLOUR));
            },
            None => {},
        }
        proof {
            assert(self@.body =~= old(self)@.body.drop_last());
        }
    }

    /// Moves the snake one cell along `direction`, which becomes its
    /// heading, and returns the cell the head is on now.
    ///
    /// A reversal is not rejected here: the caller filters the heading.
    pub fn slither(&mut self, direction: Direction) -> (head: (i32, i32))
        requires
            old(self)@.can_slither(),
        ensures
            final(self)@ == old(self)@.slither(direction),
            head == old(self)@.next_head(direction),
            (head.0 as int, head.1 as int) == step(old(self)@.body[0], direction),
    {
        self.direction = direction;
        let prev_node = self.body[1];
        let head_old = self.body[0];
        let head_new = match direction {
            Direction::Left => (head_old.0 + 1, head_old.1),
            Direction::Down => (head_old.0, head_old.1 + 1),
            Direction::Up => (head_old.0, head_old.1 - 1),
            Direction::Right => (head_old.0 - 1, head_old.1),
        };
        self.body.push_front(head_new);
        let dx: i64 = head_old.0 as i64 - prev_node.0 as i64;
        let dy: i64 = head_old.1 as i64 - prev_node.1 as i64;
        let last_dir = if dx == 1 && dy == 0 {
            Direction::Right
        } else if dx == -1 && dy == 0 {
            Direction::Left
        } else if dx == 0 && dy == 1 {
            Direction::Up
        } else if dx == 0 && dy == -1 {
            Direction::Down
        } else {
            direction
        };
        let sym = Symbol::joint(direction, last_dir);
        self.dirty_nodes.push((head_old, sym, SNAKE_COLOUR));
        self.dirty_nodes.push((head_new, Symbol::head(direction), SNAKE_COLOUR));
        head_new
    }

    /// Raises the length the snake is meant to have by one.
    pub fn grow(&mut self)
        requires
            old(self)@.length < u32::MAX,
        ensures
            final(self)@ == old(self)@.grow(),
    {
        self.length += 1;
    }

    /// The cells changed since the list was last cleared, oldest first.
    pub fn dirty_nodes(&self) -> (nodes: &Vec<Node>)
        ensures
            nodes@ == self@.dirty,
    {
        &self.dirty_nodes
    }

    /// Forgets the recorded changes.
    pub fn clear_dirty_nodes(&mut self)
        ensures
            final(self)@ == old(self)@.flushed(),
    {
        self.dirty_nodes.clear();
    }

    /// The current heading.
    pub fn direction(&self) -> (d: Direction)
        ensures
            d == self@.direction,
    {
        self.direction
    }

    /// The length the snake is meant to have.
    pub fn length(&self) -> (n: u32)
        ensures
            n == self@.length,
    {
        self.length
    }

    /// The number of segments of the body.
    pub fn len(&self) -> (n: usize)
        ensures
            n == self@.body.len(),
    {
        self.body.len()
    }

    /// The cell of the `i`-th segment, counted from the head.
    pub fn segment(&self, i: usize) -> (pos: (i32, i32))
        requires
            i < self@.body.len(),
        ensures
            pos == self@.body[i as int],
    {
        self.body[i]
    }
}

} // verus!
