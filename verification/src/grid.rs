//! The mathematical model of the frame buffer, and the laws of diffing,
//! committing and resizing.

use vstd::prelude::*;
use crate::arith::{lemma_index_bound, lemma_row_bound, lemma_row_column, lemma_split};
use crate::cell::Cell;
use crate::error::BError;
use crate::geometry::{Coords, Point, Rect, Size};

verus! {

/// The mathematical model of a frame buffer: its frame and its cells, row
/// after row.
pub struct Grid {
    pub frame: Rect,
    pub cells: Seq<Cell>,
}

impl Grid {
    pub open spec fn width(self) -> int {
        self.frame.width as int
    }

    pub open spec fn height(self) -> int {
        self.frame.height as int
    }

    pub open spec fn size(self) -> Size {
        Coords { x: self.frame.width, y: self.frame.height }
    }

    /// There is exactly one cell for each position of the frame.
    pub open spec fn wf(self) -> bool {
        self.cells.len() == self.width() * self.height()
    }

    /// Whether column `x`, row `y` is a position of the grid.
    pub open spec fn has(self, x: int, y: int) -> bool {
        0 <= x < self.width() && 0 <= y < self.height()
    }

    /// The cell in column `x`, row `y`.
    pub open spec fn cell(self, x: int, y: int) -> Cell {
        self.cells[y * self.width() + x]
    }

    /// A grid of blank cells.
    pub open spec fn blank(frame: Rect) -> Grid {
        Grid { frame, cells: Seq::new((frame.width * frame.height) as nat, |i: int| Cell::blank()) }
    }

    /// Whether `content` can be committed to `rect`: the region lies on the
    /// grid and the content has one cell for each of its positions.
    pub open spec fn accepts(self, rect: Rect, content: Seq<Cell>) -> bool {
        rect.fits(self.size()) && content.len() == rect.width * rect.height
    }

    /// The content of a region as positions on the grid, each with the cell
    /// proposed for it, row by row.
    pub open spec fn proposals(rect: Rect, content: Seq<Cell>) -> Seq<(Point, Cell)> {
        Seq::new(content.len(), |k: int| (rect.point_of(k), content[k]))
    }

    /// Whether a proposed cell is another than the one the grid holds at its
    /// position.
    pub open spec fn differs(self, proposal: (Point, Cell)) -> bool {
        proposal.1 != self.cell(proposal.0.x as int, proposal.0.y as int)
    }

    /// The changes that `content` makes to the region `rect`: the proposals
    /// that differ from the grid, in their order.
    pub open spec fn changes(self, rect: Rect, content: Seq<Cell>) -> Seq<(Point, Cell)> {
        Grid::proposals(rect, content).filter(|p: (Point, Cell)| self.differs(p))
    }

    /// The grid with `content` in the region `rect` and every other cell as it
    /// was.
    pub open spec fn committed(self, rect: Rect, content: Seq<Cell>) -> Grid {
        Grid {
            frame: self.frame,
            cells: Seq::new(
                self.cells.len(),
                |i: int|
                    {
                        let x = i % self.width();
                        let y = i / self.width();
                        if rect.covers(x, y) {
                            content[rect.offset_of(x, y)]
                        } else {
                            self.cells[i]
                        }
                    },
            ),
        }
    }

    /// The grid cut or padded to `size`: what lies on both grids stays in
    /// place, every other cell is blank.
    pub open spec fn resized(self, size: Size) -> Grid {
        Grid {
            frame: Rect { point: self.frame.point, width: size.x, height: size.y },
            cells: Seq::new(
                (size.x * size.y) as nat,
                |i: int|
                    {
                        let x = i % (size.x as int);
                        let y = i / (size.x as int);
                        if self.has(x, y) {
                            self.cell(x, y)
                        } else {
                            Cell::blank()
                        }
                    },
            ),
        }
    }

    /// What a diff of `content` against the grid answers: an error for a
    /// region off the grid or content of the wrong length, nothing where no
    /// cell changes, and the changes otherwise.
    pub open spec fn answer(
        self,
        rect: Rect,
        content: Seq<Cell>,
        r: Result<Option<Vec<(Point, Cell)>>, BError>,
    ) -> bool {
        if !rect.fits(self.size()) {
            r matches Err(BError::OutOfBounds)
        } else if content.len() != rect.width * rect.height {
            r matches Err(BError::ContentLength)
        } else if self.changes(rect, content).len() == 0 {
            r matches Ok(None)
        } else {
            r matches Ok(Some(v)) && v@ == self.changes(rect, content)
        }
    }
}

/// The cell of a committed grid at a position is the content's cell for that
/// position where the region covers it, and the cell from before elsewhere.
pub proof fn lemma_committed_cells(grid: Grid, rect: Rect, content: Seq<Cell>)
    requires
        grid.wf(),
        grid.accepts(rect, content),
    ensures
        grid.committed(rect, content).wf(),
        grid.committed(rect, content).frame == grid.frame,
        forall|x: int, y: int|
            grid.has(x, y) ==> #[trigger] grid.committed(rect, content).cell(x, y) == if rect.covers(
                x,
                y,
            ) {
                content[rect.offset_of(x, y)]
            } else {
                grid.cell(x, y)
            },
{
    let after = grid.committed(rect, content);
    assert forall|x: int, y: int| grid.has(x, y) implies #[trigger] after.cell(x, y)
        == if rect.covers(x, y) {
        content[rect.offset_of(x, y)]
    } else {
        grid.cell(x, y)
    } by {
        lemma_row_column(y, x, grid.width());
        lemma_index_bound(y, x, grid.width(), grid.height());
    }
}

/// The `k`-th position of a region that lies on the grid is covered by the
/// region, lies on the grid, and is at place `k` in the region.
pub proof fn lemma_point_of(grid: Grid, rect: Rect, k: int)
    requires
        rect.fits(grid.size()),
        0 <= k < rect.width * rect.height,
    ensures
        rect.covers(rect.point_of(k).x as int, rect.point_of(k).y as int),
        grid.has(rect.point_of(k).x as int, rect.point_of(k).y as int),
        rect.offset_of(rect.point_of(k).x as int, rect.point_of(k).y as int) == k,
{
    lemma_row_bound(k, rect.width as int, rect.height as int);
    vstd::arithmetic::div_mod::lemma_fundamental_div_mod(k, rect.width as int);
    assert((rect.width as int) * (k / (rect.width as int)) == (k / (rect.width as int)) * (
    rect.width as int)) by (nonlinear_arith);
}

/// The place in the region of the position that a proposal is for.
pub open spec fn place(rect: Rect, proposal: (Point, Cell)) -> int {
    rect.offset_of(proposal.0.x as int, proposal.0.y as int)
}

/// Of the changes among the first `n` proposals: each is the proposal at its
/// place and differs from the grid, they stand in the order of their places,
/// and no differing proposal is missing.
proof fn lemma_changes_among(grid: Grid, rect: Rect, content: Seq<Cell>, n: int)
    requires
        grid.accepts(rect, content),
        0 <= n <= content.len(),
    ensures
        ({
            let proposals = Grid::proposals(rect, content);
            let found = proposals.take(n).filter(|p: (Point, Cell)| grid.differs(p));
            &&& forall|j: int|
                0 <= j < found.len() ==> 0 <= place(rect, #[trigger] found[j]) < n && found[j]
                    == proposals[place(rect, found[j])] && grid.differs(found[j])
            &&& forall|i: int, j: int|
                0 <= i < j < found.len() ==> place(rect, #[trigger] found[i]) < place(
                    rect,
                    #[trigger] found[j],
                )
            &&& forall|k: int|
                0 <= k < n && grid.differs(#[trigger] proposals[k]) ==> found.contains(proposals[k])
        }),
    decreases n,
{
    reveal(Seq::filter);
    let proposals = Grid::proposals(rect, content);
    let pred = |p: (Point, Cell)| grid.differs(p);
    let found = proposals.take(n).filter(pred);
    if n > 0 {
        lemma_changes_among(grid, rect, content, n - 1);
        lemma_point_of(grid, rect, n - 1);
        let shorter = proposals.take(n - 1).filter(pred);
        let last = proposals[n - 1];
        assert(proposals.take(n).drop_last() =~= proposals.take(n - 1));
        assert(proposals.take(n).last() == last);
        assert(place(rect, last) == n - 1);
        if grid.differs(last) {
            assert(found == shorter.push(last));
            assert(found[shorter.len() as int] == last);
            assert forall|k: int| 0 <= k < n && grid.differs(
                #[trigger] proposals[k],
            ) implies found.contains(proposals[k]) by {
                if k < n - 1 {
                    assert(shorter.contains(proposals[k]));
                    let j = choose|j: int| 0 <= j < shorter.len() && shorter[j] == proposals[k];
                    assert(found[j] == proposals[k]);
                }
            }
        } else {
            assert(found == shorter);
        }
    }
}

/// The changes of a diff are exactly the cells of the content that are other
/// than the grid's cell at their position, each with its position, in the
/// order in which the region holds them row by row.
pub proof fn lemma_changes_exact(grid: Grid, rect: Rect, content: Seq<Cell>)
    requires
        grid.wf(),
        grid.accepts(rect, content),
    ensures
        ({
            let changes = grid.changes(rect, content);
            &&& forall|j: int|
                0 <= j < changes.len() ==> {
                    let x = (#[trigger] changes[j]).0.x as int;
                    let y = changes[j].0.y as int;
                    &&& rect.covers(x, y)
                    &&& changes[j].1 == content[rect.offset_of(x, y)]
                    &&& changes[j].1 != grid.cell(x, y)
                }
            &&& forall|i: int, j: int|
                0 <= i < j < changes.len() ==> place(rect, #[trigger] changes[i]) < place(
                    rect,
                    #[trigger] changes[j],
                )
            &&& forall|x: int, y: int|
                rect.covers(x, y) && content[#[trigger] rect.offset_of(x, y)] != grid.cell(x, y)
                    ==> changes.contains(
                    (Coords { x: x as u16, y: y as u16 }, content[rect.offset_of(x, y)]),
                )
        }),
{
    let proposals = Grid::proposals(rect, content);
    let changes = grid.changes(rect, content);
    lemma_changes_among(grid, rect, content, content.len() as int);
    assert(proposals.take(content.len() as int) =~= proposals);
    assert forall|j: int| 0 <= j < changes.len() implies {
        let x = (#[trigger] changes[j]).0.x as int;
        let y = changes[j].0.y as int;
        &&& rect.covers(x, y)
        &&& changes[j].1 == content[rect.offset_of(x, y)]
        &&& changes[j].1 != grid.cell(x, y)
    } by {
        lemma_point_of(grid, rect, place(rect, changes[j]));
    }
    assert forall|x: int, y: int|
        rect.covers(x, y) && content[#[trigger] rect.offset_of(x, y)] != grid.cell(
            x,
            y,
        ) implies changes.contains(
        (Coords { x: x as u16, y: y as u16 }, content[rect.offset_of(x, y)]),
    ) by {
        let k = rect.offset_of(x, y);
        lemma_index_bound(
            y - rect.point.y,
            x - rect.point.x,
            rect.width as int,
            rect.height as int,
        );
        lemma_row_column(y - rect.point.y, x - rect.point.x, rect.width as int);
        assert(rect.point_of(k) == Coords { x: x as u16, y: y as u16 });
        assert(grid.differs(proposals[k]));
    }
}

/// A sequence none of whose members satisfies a predicate has nothing left
/// after filtering by it.
proof fn lemma_filter_none<A>(s: Seq<A>, pred: spec_fn(A) -> bool)
    requires
        forall|i: int| 0 <= i < s.len() ==> !pred(#[trigger] s[i]),
    ensures
        s.filter(pred).len() == 0,
    decreases s.len(),
{
    reveal(Seq::filter);
    if s.len() > 0 {
        lemma_filter_none(s.drop_last(), pred);
    }
}

/// Committing the same content to the same region a second time changes
/// nothing: the second diff is empty and the grid stays as it is.
pub proof fn lemma_commit_idempotent(grid: Grid, rect: Rect, content: Seq<Cell>)
    requires
        grid.wf(),
        grid.accepts(rect, content),
    ensures
        grid.committed(rect, content).accepts(rect, content),
        grid.committed(rect, content).changes(rect, content).len() == 0,
        grid.committed(rect, content).committed(rect, content) == grid.committed(rect, content),
{
    let once = grid.committed(rect, content);
    let twice = once.committed(rect, content);
    let proposals = Grid::proposals(rect, content);
    lemma_committed_cells(grid, rect, content);
    assert forall|k: int| 0 <= k < proposals.len() implies !once.differs(
        #[trigger] proposals[k],
    ) by {
        lemma_point_of(grid, rect, k);
    }
    lemma_filter_none(proposals, |p: (Point, Cell)| once.differs(p));
    assert(twice.cells =~= once.cells);
}

/// A resized grid has the new size, keeps the cell of every position that
/// lies on both the old and the new grid, and is blank everywhere else.
pub proof fn lemma_resized_cells(grid: Grid, size: Size)
    requires
        grid.wf(),
    ensures
        grid.resized(size).wf(),
        grid.resized(size).size() == size,
        grid.resized(size).frame.point == grid.frame.point,
        forall|x: int, y: int|
            0 <= x < size.x && 0 <= y < size.y ==> #[trigger] grid.resized(size).cell(x, y) == if x
                < grid.width() && y < grid.height() {
                grid.cell(x, y)
            } else {
                Cell::blank()
            },
{
    let after = grid.resized(size);
    assert(size.x * size.y >= 0) by (nonlinear_arith)
        requires
            size.x >= 0,
            size.y >= 0,
    ;
    assert forall|x: int, y: int| 0 <= x < size.x && 0 <= y < size.y implies #[trigger] after.cell(
        x,
        y,
    ) == if x < grid.width() && y < grid.height() {
        grid.cell(x, y)
    } else {
        Cell::blank()
    } by {
        lemma_row_column(y, x, size.x as int);
        lemma_index_bound(y, x, size.x as int, size.y as int);
    }
}

/// Committing content that changes no cell leaves the grid as it is.
pub proof fn lemma_commit_without_changes(grid: Grid, rect: Rect, content: Seq<Cell>)
    requires
        grid.wf(),
        grid.accepts(rect, content),
        grid.changes(rect, content).len() == 0,
    ensures
        grid.committed(rect, content) == grid,
{
    let after = grid.committed(rect, content);
    lemma_changes_exact(grid, rect, content);
    assert forall|i: int| 0 <= i < grid.cells.len() implies after.cells[i] == grid.cells[i] by {
        let x = i % grid.width();
        let y = i / grid.width();
        lemma_row_bound(i, grid.width(), grid.height());
        lemma_split(i, grid.width());
        if rect.covers(x, y) && content[rect.offset_of(x, y)] != grid.cell(x, y) {
            let change = (Coords { x: x as u16, y: y as u16 }, content[rect.offset_of(x, y)]);
            assert(grid.changes(rect, content).contains(change));
        }
    }
    assert(after.cells =~= grid.cells);
}

/// Resizing a grid to the size it has changes nothing.
pub proof fn lemma_resized_to_same(grid: Grid)
    requires
        grid.wf(),
    ensures
        grid.resized(grid.size()) == grid,
{
    let after = grid.resized(grid.size());
    assert forall|i: int| 0 <= i < grid.cells.len() implies after.cells[i] == grid.cells[i] by {
        lemma_row_bound(i, grid.width(), grid.height());
        lemma_split(i, grid.width());
    }
    assert(after.cells =~= grid.cells);
}

} // verus!
