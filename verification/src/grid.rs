//! The playing field: a dense rectangle of cells, each a symbol with a
//! colour.

use crate::symbol::{Symbol, BORDER_COLOUR};
use vstd::prelude::*;

verus! {

/// A pending change of one cell: where, the new symbol, the new colour.
pub type Node = ((i32, i32), Symbol, i16);

/// The mathematical content of a [`Grid`].
pub struct GridView {
    /// Number of columns.
    pub width: int,
    /// Number of rows.
    pub height: int,
    /// Symbol and colour of every cell, keyed by `(column, row)`.
    pub cells: Map<(i32, i32), (Symbol, i16)>,
    /// Whether every cell is drawn two columns wide.
    pub double_row: bool,
}

impl GridView {
    /// Whether `pos` names a cell of the grid.
    pub open spec fn contains(self, pos: (i32, i32)) -> bool {
        0 <= pos.0 < self.width && 0 <= pos.1 < self.height
    }

    /// Whether `pos` lies on the outermost ring of the grid.
    pub open spec fn on_border(self, pos: (i32, i32)) -> bool {
        self.contains(pos) && (pos.0 == 0 || pos.0 == self.width - 1 || pos.1 == 0 || pos.1
            == self.height - 1)
    }

    /// Whether `pos` names a cell inside the outermost ring.
    pub open spec fn interior(self, pos: (i32, i32)) -> bool {
        1 <= pos.0 < self.width - 1 && 1 <= pos.1 < self.height - 1
    }

    /// Every coordinate of the rectangle holds exactly one cell, and nothing
    /// else does.
    pub open spec fn wf(self) -> bool {
        &&& 0 <= self.width <= i32::MAX
        &&& 0 <= self.height <= i32::MAX
        &&& forall|pos: (i32, i32)| #[trigger] self.cells.dom().contains(pos) <==> self.contains(pos)
    }

    /// The symbol shown at `pos`.
    pub open spec fn symbol(self, pos: (i32, i32)) -> Symbol {
        self.cells[pos].0
    }

    /// The colour shown at `pos`.
    pub open spec fn colour(self, pos: (i32, i32)) -> i16 {
        self.cells[pos].1
    }

    /// The grid of the given size with every cell empty and of colour 0.
    pub open spec fn blank(width: int, height: int) -> GridView {
        GridView {
            width,
            height,
            cells: Map::new(
                |pos: (i32, i32)| 0 <= pos.0 < width && 0 <= pos.1 < height,
                |pos: (i32, i32)| (Symbol::Empty, 0i16),
            ),
            double_row: true,
        }
    }

    /// This grid with one cell overwritten.
    pub open spec fn put(self, pos: (i32, i32), sym: Symbol, colour: i16) -> GridView {
        GridView { cells: self.cells.insert(pos, (sym, colour)), ..self }
    }

    /// This grid after the changes in `nodes`, applied first to last, so
    /// that of two changes to one cell the later one stays.
    pub open spec fn apply(self, nodes: Seq<Node>) -> GridView
        decreases nodes.len(),
    {
        if nodes.len() == 0 {
            self
        } else {
            let last = nodes.last();
            self.apply(nodes.drop_last()).put(last.0, last.1, last.2)
        }
    }

    /// This grid with the wall written into every cell of the outermost ring.
    pub open spec fn with_border(self) -> GridView {
        GridView {
            cells: Map::new(
                |pos: (i32, i32)| self.contains(pos),
                |pos: (i32, i32)|
                    if self.on_border(pos) {
                        (Symbol::Border, BORDER_COLOUR)
                    } else {
                        self.cells[pos]
                    },
            ),
            ..self
        }
    }

    /// Whether every cell of the outermost ring shows the wall.
    pub open spec fn bordered(self) -> bool {
        forall|pos: (i32, i32)| #[trigger] self.on_border(pos) ==> self.symbol(pos) == Symbol::Border
    }

    /// Whether every change in `nodes` names a cell of the grid.
    pub open spec fn contains_all(self, nodes: Seq<Node>) -> bool {
        forall|i: int| 0 <= i < nodes.len() ==> self.contains(#[trigger] nodes[i].0)
    }

    /// What the display is handed for row `y`: the cells left to right, each
    /// followed by its filler where cells are two columns wide.
    pub open spec fn rendered_row(self, y: int) -> Seq<(Symbol, i16)> {
        if self.double_row {
            Seq::new(
                (2 * self.width) as nat,
                |k: int|
                    {
                        let cell = self.cells[((k / 2) as i32, y as i32)];
                        if k % 2 == 0 {
                            cell
                        } else {
                            (cell.0.filler(), cell.1)
                        }
                    },
            )
        } else {
            Seq::new(self.width as nat, |k: int| self.cells[(k as i32, y as i32)])
        }
    }
}

/// A dense `width` by `height` rectangle of cells.
pub struct Grid {
    width: i32,
    height: i32,
    display: Vec<Vec<(Symbol, i16)>>,
    double_row: bool,
}

impl View for Grid {
    type V = GridView;

    closed spec fn view(&self) -> GridView {
        GridView {
            width: self.width as int,
            height: self.height as int,
            cells: Map::new(
                |pos: (i32, i32)| 0 <= pos.0 < self.width && 0 <= pos.1 < self.height,
                |pos: (i32, i32)| self.display@[pos.1 as int]@[pos.0 as int],
            ),
            double_row: self.double_row,
        }
    }
}

impl Grid {
    /// The buffer has one row per line and one entry per column.
    pub closed spec fn wf(&self) -> bool {
        &&& 0 <= self.width
        &&& 0 <= self.height
        &&& self.display@.len() == self.height
        &&& forall|y: int| 0 <= y < self.height ==> (#[trigger] self.display@[y])@.len() == self.width
    }

    /// A well-formed grid has a well-formed view.
    pub proof fn lemma_view_wf(&self)
        requires
            self.wf(),
        ensures
            self@.wf(),
    {
    }

    /// Allocates a grid with every cell empty and of colour 0.
    pub fn new(width: i32, height: i32) -> (grid: Grid)
        requires
            0 <= width,
            0 <= height,
        ensures
            grid.wf(),
            grid@ == GridView::blank(width as int, height as int),
    {
        let mut display: Vec<Vec<(Symbol, i16)>> = Vec::new();
        let mut y: i32 = 0;
        while y < height
            invariant
                0 <= y <= height,
                0 <= width,
                display@.len() == y,
                forall|j: int| 0 <= j < y ==> (#[trigger] display@[j])@.len() == width,
                forall|j: int, i: int|
                    0 <= j < y && 0 <= i < width ==> (#[trigger] display@[j]@[i]) == (
                        Symbol::Empty,
                        0i16,
                    ),
            decreases height - y,
        {
            let mut row: Vec<(Symbol, i16)> = Vec::new();
            let mut x: i32 = 0;
            while x < width
                invariant
                    0 <= x <= width,
                    row@.len() == x,
                    forall|i: int| 0 <= i < x ==> (#[trigger] row@[i]) == (Symbol::Empty, 0i16),
                decreases width - x,
            {
                row.push((Symbol::Empty, 0));
                x += 1;
            }
            display.push(row);
            y += 1;
        }
        let grid = Grid { width, height, display, double_row: true };
        proof {
            assert(grid@.cells =~= GridView::blank(width as int, height as int).cells);
        }
        grid
    }

    /// Number of columns.
    pub fn width(&self) -> (w: i32)
        ensures
            w == self@.width,
    {
        self.width
    }

    /// Number of rows.
    pub fn height(&self) -> (h: i32)
        ensures
            h == self@.height,
    {
        self.height
    }

    /// Writes one cell.
    pub fn update(&mut self, pos: (i32, i32), sym: Symbol, colour: i16)
        requires
            old(self).wf(),
            old(self)@.contains(pos),
        ensures
            final(self).wf(),
            final(self)@ == old(self)@.put(pos, sym, colour),
    {
        let (x, y) = pos;
        self.display[y as usize][x as usize] = (sym, colour);
        proof {
            assert(self@.cells =~= old(self)@.cells.insert(pos, (sym, colour)));
        }
    }

    /// Applies every change in `nodes`, first to last.
    pub fn update_nodes(&mut self, nodes: &Vec<Node>)
        requires
            old(self).wf(),
            old(self)@.contains_all(nodes@),
        ensures
            final(self).wf(),
            final(self)@ == old(self)@.apply(nodes@),
    {
        let mut i: usize = 0;
        while i < nodes.len()
            invariant
                i <= nodes@.len(),
                self.wf(),
                self@ == old(self)@.apply(nodes@.take(i as int)),
                self@.width == old(self)@.width,
                self@.height == old(self)@.height,
                old(self)@.contains_all(nodes@),
            decreases nodes@.len() - i,
        {
            let node = nodes[i];
            assert(old(self)@.contains(nodes@[i as int].0));
            self.update(node.0, node.1, node.2);
            proof {
                assert(nodes@.take(i + 1).drop_last() =~= nodes@.take(i as int));
            }
            i += 1;
        }
        proof {
            assert(nodes@.take(nodes@.len() as int) =~= nodes@);
        }
    }

    /// Writes the wall into every cell of the outermost ring: the top and
    /// the bottom row, the first and the last column.
    pub fn add_border(&mut self)
        requires
            old(self).wf(),
            old(self)@.width > 0 <==> old(self)@.height > 0,
        ensures
            final(self).wf(),
            final(self)@ == old(self)@.with_border(),
    {
        let mut nodes: Vec<Node> = Vec::new();
        let width = self.width;
        let height = self.height;
        let mut x: i32 = 0;
        while x < width
            invariant
                0 <= x <= width,
                width > 0 ==> height > 0,
                nodes@.len() == 2 * x,
                forall|i: int|
                    0 <= i < nodes@.len() ==> #[trigger] nodes@[i] == border_node(
                        width as int,
                        height as int,
                        i,
                    ),
            decreases width - x,
        {
            nodes.push(((x, 0), Symbol::Border, BORDER_COLOUR));
            nodes.push(((x, height - 1), Symbol::Border, BORDER_COLOUR));
            x += 1;
        }
        let mut y: i32 = 0;
        while y < height
            invariant
                0 <= y <= height,
                0 <= width,
                height > 0 ==> width > 0,
                nodes@.len() == 2 * width + 2 * y,
                forall|i: int|
                    0 <= i < nodes@.len() ==> #[trigger] nodes@[i] == border_node(
                        width as int,
                        height as int,
                        i,
                    ),
            decreases height - y,
        {
            nodes.push(((width - 1, y), Symbol::Border, BORDER_COLOUR));
            nodes.push(((0, y), Symbol::Border, BORDER_COLOUR));
            y += 1;
        }
        proof {
            assert(nodes@ =~= border_nodes(width as int, height as int));
            lemma_apply_border_nodes(self@);
        }
        self.update_nodes(&nodes);
    }

    /// Lays the grid out for the display, top row first: for every cell its
    /// symbol and colour, followed by its filler where cells are drawn two
    /// columns wide.
    pub fn drawgrid(&self) -> (rows: Vec<Vec<(Symbol, i16)>>)
        requires
            self.wf(),
        ensures
            rows@.len() == self@.height,
            forall|y: int| 0 <= y < self@.height ==> (#[trigger] rows@[y])@ == self@.rendered_row(y),
    {
        let mut rows: Vec<Vec<(Symbol, i16)>> = Vec::new();
        let mut y: usize = 0;
        while y < self.display.len()
            invariant
                self.wf(),
                y <= self.display@.len(),
                rows@.len() == y,
                forall|j: int| 0 <= j < y ==> (#[trigger] rows@[j])@ == self@.rendered_row(j),
            decreases self.display@.len() - y,
        {
            let line = &self.display[y];
            let mut row: Vec<(Symbol, i16)> = Vec::new();
            let mut x: usize = 0;
            while x < line.len()
                invariant
                    self.wf(),
                    y < self.display@.len(),
                    line@ == self.display@[y as int]@,
                    x <= line@.len(),
                    row@.len() == (if self.double_row {
                        2 * x
                    } else {
                        x as int
                    }),
                    forall|k: int| 0 <= k < row@.len() ==> (#[trigger] row@[k]) == self@.rendered_row(y as int)[k],
                decreases line@.len() - x,
            {
                let cell = line[x];
                proof {
                    let pos = (x as i32, y as i32);
                    assert(self@.cells[pos] == cell);
                }
                row.push(cell);
                if self.double_row {
                    row.push((cell.0.filler(), cell.1));
                }
                x += 1;
            }
            proof {
                assert(row@ =~= self@.rendered_row(y as int));
            }
            rows.push(row);
            y += 1;
        }
        rows
    }

    /// Reads the symbol of one cell.
    pub fn symbol(&self, pos: (i32, i32)) -> (sym: Symbol)
        requires
            self.wf(),
            self@.contains(pos),
        ensures
            sym == self@.symbol(pos),
    {
        let (x, y) = pos;
        self.display[y as usize][x as usize].0
    }

    /// Reads the colour of one cell.
    pub fn colour(&self, pos: (i32, i32)) -> (colour: i16)
        requires
            self.wf(),
            self@.contains(pos),
        ensures
            colour == self@.colour(pos),
    {
        let (x, y) = pos;
        self.display[y as usize][x as usize].1
    }
}

/// The `i`-th change that draws the border of a `width` by `height` grid:
/// first, column by column, the cell of the top row and the cell of the
/// bottom row; then, row by row, the cell of the last column and the cell of
/// the first column.
pub open spec fn border_node(width: int, height: int, i: int) -> Node {
    let pos = if i < 2 * width {
        if i % 2 == 0 {
            ((i / 2) as i32, 0i32)
        } else {
            ((i / 2) as i32, (height - 1) as i32)
        }
    } else {
        let j = i - 2 * width;
        if j % 2 == 0 {
            ((width - 1) as i32, (j / 2) as i32)
        } else {
            (0i32, (j / 2) as i32)
        }
    };
    (pos, Symbol::Border, BORDER_COLOUR)
}

/// The changes that draw the border of a `width` by `height` grid, in the
/// order in which they are applied.
pub open spec fn border_nodes(width: int, height: int) -> Seq<Node> {
    Seq::new((2 * width + 2 * height) as nat, |i: int| border_node(width, height, i))
}

/// Applying changes keeps the size of the grid and the way it is drawn, and
/// leaves every cell that no change names as it was.
pub proof fn lemma_apply_frame(grid: GridView, nodes: Seq<Node>)
    requires
        grid.wf(),
        grid.contains_all(nodes),
    ensures
        grid.apply(nodes).wf(),
        grid.apply(nodes).width == grid.width,
        grid.apply(nodes).height == grid.height,
        grid.apply(nodes).double_row == grid.double_row,
        forall|pos: (i32, i32)|
            (forall|i: int| 0 <= i < nodes.len() ==> (#[trigger] nodes[i]).0 != pos)
                ==> #[trigger] grid.apply(nodes).cells[pos] == grid.cells[pos],
    decreases nodes.len(),
{
    if nodes.len() > 0 {
        let front = nodes.drop_last();
        assert(grid.contains_all(front)) by {
            assert forall|i: int| 0 <= i < front.len() implies grid.contains(
                #[trigger] front[i].0,
            ) by {
                assert(front[i] == nodes[i]);
            }
        }
        lemma_apply_frame(grid, front);
        assert(grid.contains(nodes[nodes.len() - 1].0));
        assert forall|pos: (i32, i32)|
            (forall|i: int| 0 <= i < nodes.len() ==> (#[trigger] nodes[i]).0 != pos)
                implies #[trigger] grid.apply(nodes).cells[pos] == grid.cells[pos] by {
            assert(nodes[nodes.len() - 1].0 != pos);
            assert forall|i: int| 0 <= i < front.len() implies (#[trigger] front[i]).0 != pos by {
                assert(front[i] == nodes[i]);
            }
        }
    }
}

/// A cell that some change names, where every change that names it writes
/// the same symbol and colour, ends up showing them.
pub proof fn lemma_apply_written(grid: GridView, nodes: Seq<Node>, i: int)
    requires
        0 <= i < nodes.len(),
        forall|j: int|
            0 <= j < nodes.len() && (#[trigger] nodes[j]).0 == nodes[i].0 ==> nodes[j].1
                == nodes[i].1 && nodes[j].2 == nodes[i].2,
    ensures
        grid.apply(nodes).cells[nodes[i].0] == (nodes[i].1, nodes[i].2),
    decreases nodes.len(),
{
    let last = nodes[nodes.len() - 1];
    if last.0 != nodes[i].0 {
        let front = nodes.drop_last();
        assert(front[i] == nodes[i]);
        assert forall|j: int|
            0 <= j < front.len() && (#[trigger] front[j]).0 == front[i].0 implies front[j].1
            == front[i].1 && front[j].2 == front[i].2 by {
            assert(front[j] == nodes[j]);
        }
        lemma_apply_written(grid, front, i);
    }
}

/// Applying the border changes writes the wall into every cell of the
/// outermost ring and leaves every other cell as it was.
pub proof fn lemma_apply_border_nodes(grid: GridView)
    requires
        grid.wf(),
        grid.width > 0 <==> grid.height > 0,
    ensures
        grid.contains_all(border_nodes(grid.width, grid.height)),
        grid.apply(border_nodes(grid.width, grid.height)) == grid.with_border(),
{
    let w = grid.width;
    let h = grid.height;
    let nodes = border_nodes(w, h);
    assert forall|i: int| 0 <= i < nodes.len() implies grid.on_border(#[trigger] nodes[i].0) by {
        assert(nodes[i] == border_node(w, h, i));
    }
    assert(grid.contains_all(nodes));
    lemma_apply_frame(grid, nodes);
    let after = grid.apply(nodes);
    let goal = grid.with_border();
    assert forall|pos: (i32, i32)| grid.contains(pos) implies after.cells[pos]
        == goal.cells[pos] by {
        if grid.on_border(pos) {
            let i: int = if pos.1 == 0 {
                2 * pos.0
            } else if pos.1 == h - 1 {
                2 * pos.0 + 1
            } else if pos.0 == w - 1 {
                2 * w + 2 * pos.1
            } else {
                2 * w + 2 * pos.1 + 1
            };
            assert(nodes[i] == border_node(w, h, i));
            assert(nodes[i].0 == pos);
            lemma_apply_written(grid, nodes, i);
        } else {
            assert forall|i: int| 0 <= i < nodes.len() implies (#[trigger] nodes[i]).0 != pos by {
                assert(grid.on_border(nodes[i].0));
            }
            assert(after.cells[pos] == grid.cells[pos]);
        }
    }
    assert(after.cells =~= goal.cells);
}

} // verus!
