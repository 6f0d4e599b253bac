//! The frame buffer: what is on screen now, and what a new frame changes.

use vstd::prelude::*;
use crate::arith::{lemma_index_bound, lemma_row_bound, lemma_row_column, lemma_split};
use crate::cell::Cell;
use crate::error::BError;
use crate::geometry::{Coords, Point, Rect, Size};
use crate::grid::{lemma_commit_without_changes, Grid};

verus! {

/// Collection of cells that mirrors what the backend has rendered.
pub struct Buffer {
    frame: Rect,
    cells: Vec<Cell>,
}

impl View for Buffer {
    type V = Grid;

    closed spec fn view(&self) -> Grid {
        Grid { frame: self.frame, cells: self.cells@ }
    }
}

impl Buffer {
    /// The buffer holds one cell for each position of its frame.
    #[verifier::type_invariant]
    pub open spec fn inv(&self) -> bool {
        self@.wf()
    }

    /// A buffer of blank cells.
    pub fn new(frame: Rect) -> (b: Self)
        ensures
            b@.wf(),
            b@ == Grid::blank(frame),
    {
        let area: usize = frame.area();
        let mut cells: Vec<Cell> = Vec::new();
        let mut i: usize = 0;
        while i < area
            invariant
                i <= area,
                cells@.len() == i,
                forall|j: int| 0 <= j < i ==> cells@[j] == Cell::blank(),
            decreases area - i,
        {
            cells.push(Cell::default());
            i += 1;
        }
        assert(cells@ =~= Grid::blank(frame).cells);
        Buffer { frame, cells }
    }

    pub fn frame(&self) -> (r: Rect)
        ensures
            self@.wf(),
            r == self@.frame,
    {
        proof {
            use_type_invariant(self);
        }
        self.frame
    }

    pub fn size(&self) -> (s: Size)
        ensures
            self@.wf(),
            s == self@.size(),
    {
        proof {
            use_type_invariant(self);
        }
        self.frame.size()
    }

    /// The cell at a position, if the position is on the grid.
    pub fn cell_at(&self, point: Point) -> (c: Option<Cell>)
        ensures
            self@.wf(),
            c == if self@.has(point.x as int, point.y as int) {
                Some(self@.cell(point.x as int, point.y as int))
            } else {
                None
            },
    {
        proof {
            use_type_invariant(self);
        }
        if point.x < self.frame.width && point.y < self.frame.height {
            proof {
                lemma_index_bound(
                    point.y as int,
                    point.x as int,
                    self.frame.width as int,
                    self.frame.height as int,
                );
            }
            Some(self.get_at(point.to_index(self.frame.size())))
        } else {
            None
        }
    }

    /// The cell at a row-major index.
    pub fn get_at(&self, index: usize) -> (c: Cell)
        requires
            index < self@.cells.len(),
        ensures
            c == self@.cells[index as int],
    {
        self.cells[index]
    }

    /// Makes every cell blank.
    pub fn clear(&mut self)
        ensures
            old(self)@.wf(),
            final(self)@.wf(),
            final(self)@ == Grid::blank(old(self)@.frame),
    {
        proof {
            use_type_invariant(&*self);
        }
        *self = Buffer::new(self.frame);
    }

    /// Compares `content`, the cells proposed for the region `rect` row by
    /// row, with the buffer, and returns the positions whose cell would
    /// change, each with its new cell. The buffer stays as it is.
    pub fn diff(&self, rect: Rect, content: &Vec<Cell>) -> (r: Result<
        Option<Vec<(Point, Cell)>>,
        BError,
    >)
        ensures
            self@.wf(),
            self@.answer(rect, content@, r),
    {
        proof {
            use_type_invariant(self);
        }
        let left: usize = rect.point.x as usize;
        let top: usize = rect.point.y as usize;
        let width: usize = rect.width as usize;
        if left + width > self.frame.width as usize || top + rect.height as usize
            > self.frame.height as usize {
            return Err(BError::OutOfBounds);
        }
        let n: usize = content.len();
        if n != rect.area() {
            return Err(BError::ContentLength);
        }
        let size: Size = self.frame.size();
        let ghost proposals = Grid::proposals(rect, content@);
        let ghost differs = |p: (Point, Cell)| self@.differs(p);
        let mut changes: Vec<(Point, Cell)> = Vec::new();
        let mut k: usize = 0;
        proof {
            reveal(Seq::filter);
            assert(proposals.take(0).len() == 0);
        }
        while k < n
            invariant
                self@.wf(),
                rect.fits(self@.size()),
                n == content@.len(),
                n == rect.width * rect.height,
                size == self@.size(),
                left == rect.point.x,
                top == rect.point.y,
                width == rect.width,
                proposals == Grid::proposals(rect, content@),
                differs == (|p: (Point, Cell)| self@.differs(p)),
                k <= n,
                changes@ == proposals.take(k as int).filter(differs),
            decreases n - k,
        {
            proof {
                lemma_row_bound(k as int, rect.width as int, rect.height as int);
            }
            let x: usize = left + k % width;
            let y: usize = top + k / width;
            proof {
                lemma_index_bound(
                    y as int,
                    x as int,
                    self.frame.width as int,
                    self.frame.height as int,
                );
            }
            let point: Point = Coords { x: x as u16, y: y as u16 };
            let cell: Cell = content[k];
            let stored: Cell = self.get_at(point.to_index(size));
            if cell != stored {
                changes.push((point, cell));
            }
            proof {
                reveal(Seq::filter);
                let longer = proposals.take(k + 1);
                assert(longer.drop_last() =~= proposals.take(k as int));
                assert(longer.last() == (point, cell));
                assert(differs(longer.last()) == (cell != stored));
            }
            k += 1;
        }
        assert(proposals.take(n as int) =~= proposals);
        if changes.len() == 0 {
            Ok(None)
        } else {
            Ok(Some(changes))
        }
    }

    /// Copies `content` into the region `rect`, row by row.
    fn store(&mut self, rect: Rect, content: &Vec<Cell>)
        requires
            old(self)@.accepts(rect, content@),
        ensures
            final(self)@ == old(self)@.committed(rect, content@),
    {
        proof {
            use_type_invariant(&*self);
        }
        let size: Size = self.frame.size();
        let left: usize = rect.point.x as usize;
        let top: usize = rect.point.y as usize;
        let width: usize = rect.width as usize;
        let n: usize = content.len();
        let ghost before = self@;
        let ghost w = before.width();
        let mut k: usize = 0;
        while k < n
            invariant
                before.wf(),
                before.accepts(rect, content@),
                w == before.width(),
                self.frame == before.frame,
                self.cells@.len() == before.cells.len(),
                n == content@.len(),
                size == before.size(),
                left == rect.point.x,
                top == rect.point.y,
                width == rect.width,
                k <= n,
                forall|i: int|
                    0 <= i < before.cells.len() ==> #[trigger] self.cells@[i] == if rect.covers(
                        i % w,
                        i / w,
                    ) && rect.offset_of(i % w, i / w) < k {
                        content@[rect.offset_of(i % w, i / w)]
                    } else {
                        before.cells[i]
                    },
            decreases n - k,
        {
            proof {
                lemma_row_bound(k as int, rect.width as int, rect.height as int);
            }
            let x: usize = left + k % width;
            let y: usize = top + k / width;
            proof {
                lemma_index_bound(y as int, x as int, w, before.height());
            }
            let point: Point = Coords { x: x as u16, y: y as u16 };
            let index: usize = point.to_index(size);
            let ghost earlier = self.cells@;
            self.cells[index] = content[k];
            proof {
                lemma_row_column(y as int, x as int, w);
                lemma_row_column(k as int / width as int, k as int % width as int, width as int);
                lemma_split(k as int, width as int);
                assert forall|i: int| 0 <= i < before.cells.len() implies #[trigger] self.cells@[i]
                    == if rect.covers(i % w, i / w) && rect.offset_of(i % w, i / w) < k + 1 {
                    content@[rect.offset_of(i % w, i / w)]
                } else {
                    before.cells[i]
                } by {
                    assert(earlier[i] == if rect.covers(i % w, i / w) && rect.offset_of(
                        i % w,
                        i / w,
                    ) < k {
                        content@[rect.offset_of(i % w, i / w)]
                    } else {
                        before.cells[i]
                    });
                    if i != index && rect.covers(i % w, i / w) {
                        lemma_split(i, w);
                        lemma_row_column(
                            i / w - rect.point.y,
                            i % w - rect.point.x,
                            rect.width as int,
                        );
                        assert(rect.offset_of(i % w, i / w) != k);
                    }
                }
            }
            k += 1;
        }
        proof {
            let after = before.committed(rect, content@);
            assert forall|i: int| 0 <= i < before.cells.len() implies self.cells@[i]
                == after.cells[i] by {
                if rect.covers(i % w, i / w) {
                    lemma_index_bound(
                        i / w - rect.point.y,
                        i % w - rect.point.x,
                        rect.width as int,
                        rect.height as int,
                    );
                }
            }
            assert(self.cells@ =~= after.cells);
        }
    }

    /// Takes `content` as the new cells of the region `rect`, and returns the
    /// positions whose cell has changed, each with its new cell, row by row.
    /// A region that reaches beyond the grid, or content of another length
    /// than the region's area, is an error and leaves the buffer as it was.
    pub fn commit(&mut self, rect: Rect, content: &Vec<Cell>) -> (r: Result<
        Option<Vec<(Point, Cell)>>,
        BError,
    >)
        ensures
            old(self)@.wf(),
            final(self)@.wf(),
            old(self)@.answer(rect, content@, r),
            r is Ok <==> old(self)@.accepts(rect, content@),
            final(self)@ == if old(self)@.accepts(rect, content@) {
                old(self)@.committed(rect, content@)
            } else {
                old(self)@
            },
    {
        proof {
            use_type_invariant(&*self);
        }
        let r = self.diff(rect, content);
        match &r {
            Ok(Some(_)) => {
                self.store(rect, content);
            },
            Ok(None) => {
                proof {
                    lemma_commit_without_changes(self@, rect, content@);
                }
            },
            Err(_) => {},
        }
        r
    }

    /// Gives the buffer a new size. Cells at positions that lie on both the
    /// old and the new grid stay; every other cell of the new grid is blank.
    pub fn resize(&mut self, size: Size)
        ensures
            old(self)@.wf(),
            final(self)@.wf(),
            final(self)@ == old(self)@.resized(size),
    {
        proof {
            use_type_invariant(&*self);
        }
        let frame = Rect { point: self.frame.point, width: size.x, height: size.y };
        let area: usize = frame.area();
        let width: usize = size.x as usize;
        let old_size: Size = self.frame.size();
        let ghost after = self@.resized(size);
        let mut cells: Vec<Cell> = Vec::new();
        let mut i: usize = 0;
        while i < area
            invariant
                self@.wf(),
                after == self@.resized(size),
                area == size.x * size.y,
                width == size.x,
                old_size == self@.size(),
                i <= area,
                cells@.len() == i,
                forall|j: int| 0 <= j < i ==> cells@[j] == after.cells[j],
            decreases area - i,
        {
            proof {
                lemma_row_bound(i as int, size.x as int, size.y as int);
            }
            let x: usize = i % width;
            let y: usize = i / width;
            if x < old_size.x as usize && y < old_size.y as usize {
                proof {
                    lemma_index_bound(y as int, x as int, old_size.x as int, old_size.y as int);
                }
                let point: Point = Coords { x: x as u16, y: y as u16 };
                cells.push(self.get_at(point.to_index(old_size)));
            } else {
                cells.push(Cell::default());
            }
            i += 1;
        }
        assert(cells@ =~= after.cells);
        *self = Buffer { frame, cells };
    }
}

impl Default for Buffer {
    /// A buffer without any cell.
    fn default() -> (b: Self)
        ensures
            b@.wf(),
            b@ == Grid::blank(Rect { point: Coords { x: 0, y: 0 }, width: 0, height: 0 }),
    {
        Buffer::new(Rect { point: Coords { x: 0, y: 0 }, width: 0, height: 0 })
    }
}

} // verus!
