//! Topology of the background spring grid: which nodes are pinned and which
//! node pairs are joined by springs.
//!
//! Nodes are numbered row-major (`y * cols + x`). Border nodes are pinned so
//! the grid doesn't drift; every node is joined to its right neighbour and
//! to the neighbour below it.
use vstd::prelude::*;

verus! {

/// Node number of column `x`, row `y`.
pub open spec fn node_index(cols: int, x: int, y: int) -> int {
    y * cols + x
}

/// Whether the node at column `x`, row `y` lies on the border.
pub open spec fn on_border(cols: int, rows: int, x: int, y: int) -> bool {
    x == 0 || y == 0 || x == cols - 1 || y == rows - 1
}

/// The springs of one node, in the order they are built: to the right
/// neighbour (if any), then to the neighbour below (if any).
pub open spec fn node_springs(cols: int, rows: int, x: int, y: int) -> Seq<(u32, u32)> {
    let here = node_index(cols, x, y) as u32;
    let right = if x + 1 < cols { seq![(here, node_index(cols, x + 1, y) as u32)] } else { Seq::empty() };
    let down = if y + 1 < rows { seq![(here, node_index(cols, x, y + 1) as u32)] } else { Seq::empty() };
    right + down
}

/// The springs of the first `x` nodes of row `y`.
pub open spec fn row_springs(cols: int, rows: int, y: int, x: int) -> Seq<(u32, u32)>
    decreases x,
{
    if x <= 0 {
        Seq::empty()
    } else {
        row_springs(cols, rows, y, x - 1) + node_springs(cols, rows, x - 1, y)
    }
}

/// The springs of the first `y` rows.
pub open spec fn grid_springs(cols: int, rows: int, y: int) -> Seq<(u32, u32)>
    decreases y,
{
    if y <= 0 {
        Seq::empty()
    } else {
        grid_springs(cols, rows, y - 1) + row_springs(cols, rows, y - 1, cols)
    }
}

/// Number of springs of a `cols × rows` grid.
pub open spec fn spring_total(cols: int, rows: int) -> int {
    (cols - 1) * rows + cols * (rows - 1)
}

/// Grid sizes the engine builds: at least 2×2, with node and spring counts
/// that fit a `u32`.
pub open spec fn grid_size_ok(cols: u32, rows: u32) -> bool {
    &&& cols >= 2
    &&& rows >= 2
    &&& cols * rows <= u32::MAX
    &&& spring_total(cols as int, rows as int) <= u32::MAX
}

/// A grid's topology: per node (row-major) whether it is pinned, and the
/// springs as pairs of node numbers.
pub struct GridTopology {
    pub pinned: Vec<bool>,
    pub springs: Vec<(u32, u32)>,
}

proof fn lemma_row_len(cols: int, rows: int, y: int, x: int)
    requires
        cols >= 1,
        0 <= x <= cols,
    ensures
        row_springs(cols, rows, y, x).len() == (if x == cols { x - 1 } else { x }) + (if y + 1 < rows { x } else { 0 }),
    decreases x,
{
    if x > 0 {
        lemma_row_len(cols, rows, y, x - 1);
        let ns = node_springs(cols, rows, x - 1, y);
        assert(ns.len() == (if x < cols { 1int } else { 0int }) + (if y + 1 < rows { 1int } else { 0int }));
        assert(row_springs(cols, rows, y, x).len() == row_springs(cols, rows, y, x - 1).len() + ns.len());
    }
}

proof fn lemma_grid_len(cols: int, rows: int, y: int)
    requires
        cols >= 1,
        rows >= 1,
        0 <= y <= rows,
    ensures
        grid_springs(cols, rows, y).len() == y * (cols - 1) + (if y == rows { y - 1 } else { y }) * cols,
    decreases y,
{
    if y > 0 {
        lemma_grid_len(cols, rows, y - 1);
        lemma_row_len(cols, rows, y - 1, cols);
        let a = grid_springs(cols, rows, y - 1).len();
        let b = row_springs(cols, rows, y - 1, cols).len();
        assert(a == (y - 1) * (cols - 1) + (y - 1) * cols);
        assert(b == (cols - 1) + (if y < rows { cols } else { 0 }));
        assert(grid_springs(cols, rows, y).len() == a + b);
        assert(y * (cols - 1) == (y - 1) * (cols - 1) + (cols - 1)) by (nonlinear_arith);
        assert((y - 1) * cols + cols == y * cols) by (nonlinear_arith);
    } else {
        assert(y * (cols - 1) == 0 && y * cols == 0) by (nonlinear_arith)
            requires
                y == 0,
        ;
    }
}

/// Build the topology of a `cols × rows` grid.
pub fn build_topology(cols: u32, rows: u32) -> (r: GridTopology)
    requires
        grid_size_ok(cols, rows),
    ensures
        r.pinned@.len() == cols * rows,
        forall|x: int, y: int|
            0 <= x < cols && 0 <= y < rows ==> r.pinned@[#[trigger] node_index(cols as int, x, y)]
                == on_border(cols as int, rows as int, x, y),
        r.springs@ == grid_springs(cols as int, rows as int, rows as int),
{
    let mut pinned: Vec<bool> = Vec::new();
    let mut y: u32 = 0;
    while y < rows
        invariant
            grid_size_ok(cols, rows),
            y <= rows,
            pinned@.len() == y * cols,
            forall|xx: int, yy: int|
                0 <= xx < cols && 0 <= yy < y ==> pinned@[#[trigger] node_index(cols as int, xx, yy)]
                    == on_border(cols as int, rows as int, xx, yy),
        decreases rows - y,
    {
        let mut x: u32 = 0;
        while x < cols
            invariant
                grid_size_ok(cols, rows),
                y < rows,
                x <= cols,
                pinned@.len() == y * cols + x,
                forall|xx: int, yy: int|
                    0 <= xx < cols && 0 <= yy < y ==> pinned@[#[trigger] node_index(cols as int, xx, yy)]
                        == on_border(cols as int, rows as int, xx, yy),
                forall|xx: int| 0 <= xx < x ==> pinned@[#[trigger] node_index(cols as int, xx, y as int)]
                    == on_border(cols as int, rows as int, xx, y as int),
            decreases cols - x,
        {
            let ghost before = pinned@;
            pinned.push(x == 0 || y == 0 || x == cols - 1 || y == rows - 1);
            proof {
                assert forall|xx: int, yy: int|
                    0 <= xx < cols && 0 <= yy < y implies pinned@[#[trigger] node_index(cols as int, xx, yy)]
                        == on_border(cols as int, rows as int, xx, yy) by {
                    assert(node_index(cols as int, xx, yy) < y * cols) by (nonlinear_arith)
                        requires
                            0 <= xx < cols,
                            0 <= yy < y,
                    ;
                    assert(before[node_index(cols as int, xx, yy)] == pinned@[node_index(cols as int, xx, yy)]);
                }
                assert forall|xx: int| 0 <= xx < x + 1 implies pinned@[#[trigger] node_index(cols as int, xx, y as int)]
                    == on_border(cols as int, rows as int, xx, y as int) by {
                    if xx < x {
                        assert(before[node_index(cols as int, xx, y as int)] == pinned@[node_index(cols as int, xx, y as int)]);
                    }
                }
            }
            x = x + 1;
        }
        proof {
            assert((y + 1) * cols == y * cols + cols) by (nonlinear_arith);
            assert forall|xx: int, yy: int|
                0 <= xx < cols && 0 <= yy < y + 1 implies pinned@[#[trigger] node_index(cols as int, xx, yy)]
                    == on_border(cols as int, rows as int, xx, yy) by {
            }
        }
        y = y + 1;
    }

    assert(pinned@.len() == cols * rows) by (nonlinear_arith)
        requires
            pinned@.len() == rows * cols,
    ;
    let mut springs: Vec<(u32, u32)> = Vec::new();
    let mut y: u32 = 0;
    while y < rows
        invariant
            grid_size_ok(cols, rows),
            y <= rows,
            springs@ == grid_springs(cols as int, rows as int, y as int),
        decreases rows - y,
    {
        let mut x: u32 = 0;
        while x < cols
            invariant
                grid_size_ok(cols, rows),
                y < rows,
                x <= cols,
                springs@ == grid_springs(cols as int, rows as int, y as int) + row_springs(cols as int, rows as int, y as int, x as int),
            decreases cols - x,
        {
            proof {
                assert(y * cols + x + cols < cols * rows + cols) by (nonlinear_arith)
                    requires
                        y < rows,
                        x < cols,
                ;
                assert((y + 1) * cols + x < cols * rows || y + 1 >= rows) by (nonlinear_arith)
                    requires
                        y < rows,
                        x < cols,
                ;
            }
            let here = y * cols + x;
            let ghost before = springs@;
            if x + 1 < cols {
                springs.push((here, y * cols + x + 1));
            }
            if y + 1 < rows {
                springs.push((here, (y + 1) * cols + x));
            }
            proof {
                assert(springs@ =~= before + node_springs(cols as int, rows as int, x as int, y as int));
            }
            x = x + 1;
        }
        y = y + 1;
    }
    GridTopology { pinned, springs }
}

/// A `cols × rows` grid has `(cols - 1) * rows + cols * (rows - 1)` springs.
pub proof fn law_spring_count(cols: u32, rows: u32)
    requires
        cols >= 1,
        rows >= 1,
    ensures
        grid_springs(cols as int, rows as int, rows as int).len() == spring_total(cols as int, rows as int),
{
    lemma_grid_len(cols as int, rows as int, rows as int);
    assert(rows * (cols - 1) == (cols - 1) * rows) by (nonlinear_arith);
    assert((rows - 1) * cols == cols * (rows - 1)) by (nonlinear_arith);
}

} // verus!
