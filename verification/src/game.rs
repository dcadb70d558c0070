//! One session of the game: the rules that tie grid, snake and food
//! together, one tick at a time.

use crate::direction::Direction;
use crate::grid::{lemma_apply_frame, Grid, GridView};
use crate::rng::random_in_range;
use crate::snake::{center, Snake, SnakeView};
use crate::symbol::{Symbol, FOOD_COLOUR};
use vstd::prelude::*;

verus! {

/// Number of columns of the playing field.
pub const GRID_WIDTH: i32 = 40;

/// Number of rows of the playing field.
pub const GRID_HEIGHT: i32 = 30;

/// Number of segments the snake starts with.
pub const INITIAL_LENGTH: u32 = 3;

/// Longest wait for a key press in one tick, in tenths of a second.
pub const SPEED: u32 = 2;

/// Key code of the down arrow.
pub const KEY_DOWN: i32 = 258;

/// Key code of the up arrow.
pub const KEY_UP: i32 = 259;

/// Key code of the left arrow.
pub const KEY_LEFT: i32 = 260;

/// Key code of the right arrow.
pub const KEY_RIGHT: i32 = 261;

/// Where a session stands. It only ever moves forward: from `Idle` to
/// `Running` to `GameOver`.
#[derive(Clone, Copy, Debug, PartialEq, Eq, Structural)]
pub enum Phase {
    /// Created, nothing drawn yet.
    Idle,
    /// Border and food are in place; ticks are being played.
    Running,
    /// The snake ran into the wall or into itself.
    GameOver,
}

/// What one tick did to the snake.
#[derive(Clone, Copy, Debug, PartialEq, Eq, Structural)]
pub enum Outcome {
    /// The head entered an empty cell and the tail followed.
    Moved,
    /// The head entered the food cell and the snake grew by one segment.
    Ate,
    /// The head hit the wall or the body: the session is over.
    Collided,
}

/// A key press as the terminal reports it.
#[derive(Clone, Copy, Debug, PartialEq, Eq, Structural)]
pub enum Key {
    /// A function key, by its code.
    Code(i32),
    /// A character key.
    Char(char),
}

/// The heading that a key press asks for while the snake is heading
/// `current`: arrows and `h`, `j`, `k`, `l` name a heading, every other key
/// asks for `current` again, and no key press asks for nothing.
pub open spec fn decode_key(current: Direction, key: Option<Key>) -> Option<Direction> {
    match key {
        Some(Key::Code(code)) => Some(
            if code == KEY_LEFT {
                Direction::Right
            } else if code == KEY_DOWN {
                Direction::Down
            } else if code == KEY_UP {
                Direction::Up
            } else if code == KEY_RIGHT {
                Direction::Left
            } else {
                current
            },
        ),
        Some(Key::Char(c)) => Some(
            if c == 'h' {
                Direction::Right
            } else if c == 'j' {
                Direction::Down
            } else if c == 'k' {
                Direction::Up
            } else if c == 'l' {
                Direction::Left
            } else {
                current
            },
        ),
        None => None,
    }
}

/// The heading for the next move of a snake heading `current`: the
/// requested one, unless that is the exact opposite of `current` or nothing
/// was requested; then `current` is kept.
pub open spec fn resolve(current: Direction, requested: Option<Direction>) -> Direction {
    match requested {
        Some(d) => if d == current.opposite() {
            current
        } else {
            d
        },
        None => current,
    }
}

/// The mathematical content of a [`Game`].
pub struct GameView {
    /// The playing field.
    pub grid: GridView,
    /// The snake.
    pub snake: SnakeView,
    /// The cell of the food, once food was placed.
    pub food: Option<(i32, i32)>,
    /// Longest wait for a key press in one tick, in tenths of a second.
    pub speed: u32,
    /// Where the session stands.
    pub phase: Phase,
}

impl GameView {
    /// A session as it is created: an empty field, the snake coiled up on
    /// the middle cell, no food.
    pub open spec fn initial() -> GameView {
        GameView {
            grid: GridView::blank(GRID_WIDTH as int, GRID_HEIGHT as int),
            snake: SnakeView::coiled(center(GRID_WIDTH, GRID_HEIGHT), INITIAL_LENGTH as nat),
            food: None,
            speed: SPEED,
            phase: Phase::Idle,
        }
    }

    /// What holds of a session at all times.
    ///
    /// The field is a full rectangle with room inside its outermost ring;
    /// the snake has a head and a segment behind it; the food, if any, lies
    /// inside the ring. Once the session was started the ring shows the wall
    /// and food is in place. Until the session is over, the whole snake lies
    /// inside the ring and no change of a cell is pending.
    pub open spec fn inv(self) -> bool {
        &&& self.grid.wf()
        &&& self.grid.width >= 3
        &&& self.grid.height >= 3
        &&& self.snake.body.len() >= 2
        &&& (self.food matches Some(pos) ==> self.grid.interior(pos))
        &&& (self.phase != Phase::Idle ==> self.grid.bordered() && self.food is Some)
        &&& (self.phase != Phase::GameOver ==> self.snake.dirty.len() == 0 && self.coiled_inside())
    }

    /// Whether every segment of the snake lies inside the outermost ring.
    pub open spec fn coiled_inside(self) -> bool {
        forall|i: int| 0 <= i < self.snake.body.len() ==> self.grid.interior(#[trigger] self.snake.body[i])
    }

    /// The heading the snake takes in the next tick, given what was
    /// requested.
    pub open spec fn heading(self, intent: Option<Direction>) -> Direction {
        resolve(self.snake.direction, intent)
    }

    /// The cell the head enters in the next tick.
    pub open spec fn ahead(self, intent: Option<Direction>) -> (i32, i32) {
        self.snake.next_head(self.heading(intent))
    }

    /// What the next tick does to the snake, decided by the cell ahead:
    /// food feeds it, an empty cell lets it pass, all else stops it.
    pub open spec fn outcome(self, intent: Option<Direction>) -> Outcome {
        match self.grid.symbol(self.ahead(intent)) {
            Symbol::Food => Outcome::Ate,
            Symbol::Empty => Outcome::Moved,
            _ => Outcome::Collided,
        }
    }

    /// The session with food at `pos`: the cell is overwritten, whatever it
    /// showed before.
    pub open spec fn place_food(self, pos: (i32, i32)) -> GameView {
        GameView { food: Some(pos), grid: self.grid.put(pos, Symbol::Food, FOOD_COLOUR), ..self }
    }

    /// The session set running: food goes to `food`, then the border is
    /// drawn.
    pub open spec fn start(self, food: (i32, i32)) -> GameView {
        let fed = self.place_food(food);
        GameView { grid: fed.grid.with_border(), phase: Phase::Running, ..fed }
    }

    /// The session after one tick, in which `next_food` is the cell drawn
    /// for new food should the snake eat.
    ///
    /// The snake moves along the resolved heading. On food it is meant to be
    /// one longer, keeps its tail, and new food is placed. On an empty cell
    /// its tail is cut. In both cases the cells the snake changed are then
    /// written to the grid, in the order they were recorded. On anything
    /// else the session is over: the grid stays as it was and the snake is
    /// not touched again.
    pub open spec fn tick(self, intent: Option<Direction>, next_food: (i32, i32)) -> GameView {
        let moved = self.snake.slither(self.heading(intent));
        match self.outcome(intent) {
            Outcome::Ate => {
                let fed = GameView { snake: moved.grow(), ..self }.place_food(next_food);
                GameView { grid: fed.grid.apply(fed.snake.dirty), snake: fed.snake.flushed(), ..fed }
            },
            Outcome::Moved => {
                let cut = moved.cut_tail();
                GameView { grid: self.grid.apply(cut.dirty), snake: cut.flushed(), ..self }
            },
            Outcome::Collided => GameView { snake: moved, phase: Phase::GameOver, ..self },
        }
    }
}

/// One session of the game.
pub struct Game {
    grid: Grid,
    speed: u32,
    snake: Snake,
    food: Option<(i32, i32)>,
    phase: Phase,
}

impl View for Game {
    type V = GameView;

    closed spec fn view(&self) -> GameView {
        GameView {
            grid: self.grid@,
            snake: self.snake@,
            food: self.food,
            speed: self.speed,
            phase: self.phase,
        }
    }
}

impl Game {
    /// The grid's buffer matches its size, and the field has room inside
    /// its outermost ring.
    pub closed spec fn wf(&self) -> bool {
        &&& self.grid.wf()
        &&& self.grid@.width >= 3
        &&& self.grid@.height >= 3
    }

    /// Creates a session on a field of 40 by 30 cells with a snake of three
    /// segments.
    pub fn new() -> (game: Game)
        ensures
            game.wf(),
            game@ == GameView::initial(),
            game@.inv(),
    {
        let game = Game {
            grid: Grid::new(GRID_WIDTH, GRID_HEIGHT),
            speed: SPEED,
            snake: Snake::new(GRID_WIDTH, GRID_HEIGHT, INITIAL_LENGTH),
            food: None,
            phase: Phase::Idle,
        };
        proof {
            game.grid.lemma_view_wf();
            assert(game@.coiled_inside());
        }
        game
    }

    /// The heading asked for by `key`, the key press read during this tick,
    /// if there was one.
    pub fn get_input(&self, key: Option<Key>) -> (intent: Option<Direction>)
        ensures
            intent == decode_key(self@.snake.direction, key),
    {
        match key {
            Some(Key::Code(code)) => Some(
                if code == KEY_LEFT {
                    Direction::Right
                } else if code == KEY_DOWN {
                    Direction::Down
                } else if code == KEY_UP {
                    Direction::Up
                } else if code == KEY_RIGHT {
                    Direction::Left
                } else {
                    self.snake.direction()
                },
            ),
            Some(Key::Char(pressed)) => Some(
                if pressed == 'h' {
                    Direction::Right
                } else if pressed == 'j' {
                    Direction::Down
                } else if pressed == 'k' {
                    Direction::Up
                } else if pressed == 'l' {
                    Direction::Left
                } else {
                    self.snake.direction()
                },
            ),
            None => None,
        }
    }

    /// Guards against a reversal: the snake cannot turn back through its
    /// own neck, so a request for the opposite of its heading is dropped.
    pub fn resolve_direction(&self, requested: Option<Direction>) -> (heading: Direction)
        ensures
            heading == resolve(self@.snake.direction, requested),
            requested == Some(self@.snake.direction.opposite()) ==> heading
                == self@.snake.direction,
            heading != self@.snake.direction.opposite(),
    {
        let current = self.snake.direction();
        match requested {
            Some(dir) => {
                if dir == current.opposite() {
                    current
                } else {
                    dir
                }
            },
            None => current,
        }
    }

    /// Draws a cell inside the outermost ring at random.
    fn pick_food_cell(&self) -> (pos: (i32, i32))
        requires
            self.wf(),
        ensures
            self@.grid.interior(pos),
    {
        let x = random_in_range(1, self.grid.width() - 1);
        let y = random_in_range(1, self.grid.height() - 1);
        (x, y)
    }

    /// Puts the food on `pos` and overwrites that cell of the grid. Whether
    /// the snake lies there is not looked at.
    pub fn place_food_at(&mut self, pos: (i32, i32))
        requires
            old(self).wf(),
            old(self)@.grid.interior(pos),
        ensures
            final(self).wf(),
            final(self)@ == old(self)@.place_food(pos),
            old(self)@.inv() ==> final(self)@.inv(),
    {
        proof {
            self.grid.lemma_view_wf();
            lemma_place_food_inv(self@, pos);
        }
        self.food = Some(pos);
        self.grid.update(pos, Symbol::Food, FOOD_COLOUR);
    }

    /// Puts the food on a cell drawn at random from inside the outermost
    /// ring.
    pub fn place_food(&mut self)
        requires
            old(self).wf(),
        ensures
            final(self).wf(),
            final(self)@.food matches Some(pos) && old(self)@.grid.interior(pos) && final(self)@
                == old(self)@.place_food(pos),
            old(self)@.inv() ==> final(self)@.inv(),
    {
        let pos = self.pick_food_cell();
        self.place_food_at(pos);
    }

    /// Sets the session running with the food on `food`: places the food,
    /// then draws the border.
    pub fn start_at(&mut self, food: (i32, i32))
        requires
            old(self).wf(),
            old(self)@.inv(),
            old(self)@.phase == Phase::Idle,
            old(self)@.grid.interior(food),
        ensures
            final(self).wf(),
            final(self)@.inv(),
            final(self)@ == old(self)@.start(food),
    {
        proof {
            lemma_start_inv(self@, food);
        }
        self.place_food_at(food);
        self.grid.add_border();
        self.phase = Phase::Running;
    }

    /// Sets the session running with the food on a cell drawn at random.
    pub fn start(&mut self)
        requires
            old(self).wf(),
            old(self)@.inv(),
            old(self)@.phase == Phase::Idle,
        ensures
            final(self).wf(),
            final(self)@.inv(),
            final(self)@.food matches Some(food) && old(self)@.grid.interior(food) && final(self)@
                == old(self)@.start(food),
    {
        let food = self.pick_food_cell();
        self.start_at(food);
    }

    /// Plays one tick: resolves the heading, moves the snake, and acts on
    /// what the head landed on.
    pub fn tick(&mut self, intent: Option<Direction>) -> (outcome: Outcome)
        requires
            old(self).wf(),
            old(self)@.inv(),
            old(self)@.phase == Phase::Running,
            old(self)@.snake.length < u32::MAX,
        ensures
            final(self).wf(),
            final(self)@.inv(),
            outcome == old(self)@.outcome(intent),
            final(self)@.food matches Some(food) && final(self)@ == old(self)@.tick(intent, food),
            outcome == Outcome::Moved ==> final(self)@.snake.body.len() == old(
                self,
            )@.snake.body.len(),
            outcome == Outcome::Ate ==> final(self)@.snake.body.len() == old(self)@.snake.body.len()
                + 1 && final(self)@.snake.length == old(self)@.snake.length + 1,
            outcome == Outcome::Ate ==> (final(self)@.food matches Some(food) && old(
                self,
            )@.grid.interior(food)),
            outcome != Outcome::Ate ==> final(self)@.food == old(self)@.food,
            outcome == Outcome::Collided <==> final(self)@.phase == Phase::GameOver,
            outcome == Outcome::Collided ==> final(self)@.grid == old(self)@.grid,
    {
        let heading = self.resolve_direction(intent);
        proof {
            assert(self@.grid.interior(self@.snake.body[0]));
        }
        let head = self.snake.slither(heading);
        match self.grid.symbol(head) {
            Symbol::Food => {
                self.snake.grow();
                let next_food = self.pick_food_cell();
                proof {
                    lemma_tick_inv(old(self)@, intent, next_food);
                }
                self.food = Some(next_food);
                self.grid.update(next_food, Symbol::Food, FOOD_COLOUR);
                self.grid.update_nodes(self.snake.dirty_nodes());
                self.snake.clear_dirty_nodes();
                Outcome::Ate
            },
            Symbol::Empty => {
                self.snake.cut_tail();
                proof {
                    lemma_tick_inv(old(self)@, intent, old(self)@.food->0);
                }
                self.grid.update_nodes(self.snake.dirty_nodes());
                self.snake.clear_dirty_nodes();
                Outcome::Moved
            },
            _ => {
                proof {
                    lemma_tick_inv(old(self)@, intent, old(self)@.food->0);
                }
                self.phase = Phase::GameOver;
                Outcome::Collided
            },
        }
    }

    /// The playing field.
    pub fn grid(&self) -> (grid: &Grid)
        ensures
            grid@ == self@.grid,
            self.wf() ==> grid.wf(),
    {
        &self.grid
    }

    /// The snake.
    pub fn snake(&self) -> (snake: &Snake)
        ensures
            snake@ == self@.snake,
    {
        &self.snake
    }

    /// The cell of the food, once food was placed.
    pub fn food(&self) -> (food: Option<(i32, i32)>)
        ensures
            food == self@.food,
    {
        self.food
    }

    /// Longest wait for a key press in one tick, in tenths of a second.
    pub fn speed(&self) -> (speed: u32)
        ensures
            speed == self@.speed,
    {
        self.speed
    }

    /// Where the session stands.
    pub fn phase(&self) -> (phase: Phase)
        ensures
            phase == self@.phase,
    {
        self.phase
    }
}

/// Placing food inside the outermost ring keeps what holds of a session.
pub proof fn lemma_place_food_inv(game: GameView, pos: (i32, i32))
    requires
        game.grid.wf(),
        game.grid.interior(pos),
    ensures
        game.place_food(pos).grid.wf(),
        game.place_food(pos).grid.width == game.grid.width,
        game.place_food(pos).grid.height == game.grid.height,
        game.grid.bordered() ==> game.place_food(pos).grid.bordered(),
        game.inv() ==> game.place_food(pos).inv(),
{
    let after = game.place_food(pos);
    assert(game.grid.contains(pos));
    if game.grid.bordered() {
        assert forall|p: (i32, i32)| #[trigger] after.grid.on_border(p) implies after.grid.symbol(p)
            == Symbol::Border by {
            assert(game.grid.on_border(p));
        }
    }
    if game.inv() {
        assert(after.coiled_inside() <== game.coiled_inside()) by {
            if game.coiled_inside() {
                assert forall|i: int| 0 <= i < after.snake.body.len() implies after.grid.interior(
                    #[trigger] after.snake.body[i],
                ) by {
                    assert(game.grid.interior(game.snake.body[i]));
                }
            }
        }
    }
}

/// Starting an idle session gives a running one of which all holds that
/// holds of a session: the border is drawn and the food lies inside it.
pub proof fn lemma_start_inv(game: GameView, food: (i32, i32))
    requires
        game.inv(),
        game.phase == Phase::Idle,
        game.grid.interior(food),
    ensures
        game.start(food).inv(),
        game.start(food).phase == Phase::Running,
{
    lemma_place_food_inv(game, food);
    let fed = game.place_food(food);
    let after = game.start(food);
    assert(after.grid.bordered()) by {
        assert forall|p: (i32, i32)| #[trigger] after.grid.on_border(p) implies after.grid.symbol(p)
            == Symbol::Border by {
            assert(fed.grid.on_border(p));
        }
    }
    assert(after.coiled_inside()) by {
        assert forall|i: int| 0 <= i < after.snake.body.len() implies after.grid.interior(
            #[trigger] after.snake.body[i],
        ) by {
            assert(game.grid.interior(game.snake.body[i]));
        }
    }
}

/// One tick of a running session keeps what holds of a session, whatever
/// was requested and wherever new food would go. In particular the wall
/// stays: no tick ever turns a cell of the outermost ring into an empty or
/// a food cell.
pub proof fn lemma_tick_inv(game: GameView, intent: Option<Direction>, next_food: (i32, i32))
    requires
        game.inv(),
        game.phase == Phase::Running,
        game.grid.interior(next_food),
    ensures
        game.grid.contains(game.ahead(intent)),
        game.outcome(intent) != Outcome::Collided ==> game.grid.interior(game.ahead(intent)),
        game.tick(intent, next_food).inv(),
        game.tick(intent, next_food).grid.width == game.grid.width,
        game.tick(intent, next_food).grid.height == game.grid.height,
        game.tick(intent, next_food).grid.bordered(),
{
    let heading = game.heading(intent);
    let head = game.ahead(intent);
    let moved = game.snake.slither(heading);
    let after = game.tick(intent, next_food);
    assert(game.grid.interior(game.snake.body[0]));
    assert(game.grid.contains(head));
    if game.outcome(intent) != Outcome::Collided {
        assert(game.grid.symbol(head).passable());
        assert(!game.grid.on_border(head));
        let base = if game.outcome(intent) == Outcome::Ate {
            game.grid.put(next_food, Symbol::Food, FOOD_COLOUR)
        } else {
            game.grid
        };
        let nodes = if game.outcome(intent) == Outcome::Ate {
            moved.dirty
        } else {
            moved.cut_tail().dirty
        };
        assert(game.grid.interior(game.snake.body[game.snake.body.len() - 1]));
        lemma_place_food_inv(game, next_food);
        assert forall|i: int| 0 <= i < nodes.len() implies base.interior(#[trigger] nodes[i].0) by {}
        assert(base.contains_all(nodes));
        lemma_apply_frame(base, nodes);
        assert(after.grid == base.apply(nodes));
        assert(after.grid.bordered()) by {
            assert forall|p: (i32, i32)| #[trigger] after.grid.on_border(p) implies after.grid.symbol(
                p,
            ) == Symbol::Border by {
                assert(base.on_border(p));
                assert(game.grid.on_border(p));
                assert forall|i: int| 0 <= i < nodes.len() implies (#[trigger] nodes[i]).0 != p by {
                    assert(base.interior(nodes[i].0));
                }
            }
        }
        assert(after.coiled_inside()) by {
            assert forall|i: int| 0 <= i < after.snake.body.len() implies after.grid.interior(
                #[trigger] after.snake.body[i],
            ) by {
                if i > 0 {
                    assert(after.snake.body[i] == game.snake.body[i - 1]);
                    assert(game.grid.interior(game.snake.body[i - 1]));
                }
            }
        }
    }
}

/// A request to reverse is never followed: asked for the opposite of its
/// heading, the snake keeps its heading.
pub proof fn lemma_reversal_rejected(current: Direction)
    ensures
        resolve(current, Some(current.opposite())) == current,
        resolve(current, Some(current.opposite())) != current.opposite(),
{
}

} // verus!
