//! The grid: a rectangle of cells kept row by row in one buffer.

use vstd::prelude::*;

use crate::math::{Position, Size};

verus! {

/// What becomes of the cells when a grid changes its size.
#[derive(Copy, Clone, Default, Debug, PartialEq, Eq, Structural)]
pub enum ResizeMode {
    /// The cells that lie within both the old and the new size stay.
    Keep,
    /// Every cell is reset.
    #[default]
    Discard,
}

/// A grid of cells of a fixed size, with a value that new cells start with.
#[derive(Debug)]
pub struct Surface<T> {
    pos: Position<i32>,
    size: Size<u32>,
    default: T,
    pixels: Vec<T>,
}

/// The place in a row-major buffer of the cell in column `x` of row `y`,
/// for rows of `width` cells.
pub open spec fn cell_index(width: int, x: int, y: int) -> int {
    y * width + x
}

/// The place in the buffer of a grid of size `size` that a position stands
/// for once `offset` is added to it, or `None` where that lies outside the
/// grid.
pub open spec fn index_at(size: Size<u32>, offset: Position<i32>, pos: Position<i32>) -> Option<
    int,
> {
    let x = pos.x + offset.x;
    let y = pos.y + offset.y;
    if 0 <= x < size.width && 0 <= y < size.height {
        Some(cell_index(size.width as int, x, y))
    } else {
        None
    }
}

/// A cell index within a grid lies within its buffer.
pub proof fn lemma_cell_index_in_range(width: int, height: int, x: int, y: int)
    requires
        0 <= x < width,
        0 <= y < height,
    ensures
        0 <= cell_index(width, x, y) < width * height,
{
    assert(y * width + x < width * height) by (nonlinear_arith)
        requires
            0 <= x < width,
            0 <= y < height,
    ;
    assert(0 <= y * width) by (nonlinear_arith)
        requires
            0 <= y,
            0 <= width,
    ;
}

impl<T> View for Surface<T> {
    type V = Seq<T>;

    /// The cells, row by row.
    closed spec fn view(&self) -> Seq<T> {
        self.pixels@
    }
}

impl<T> Surface<T> {
    /// The size of the grid.
    pub closed spec fn extent(&self) -> Size<u32> {
        self.size
    }

    /// What is added to a position before it is looked up.
    pub closed spec fn offset(&self) -> Position<i32> {
        self.pos
    }

    /// The value that new cells start with.
    pub closed spec fn fallback(&self) -> T {
        self.default
    }

    /// The buffer holds exactly one cell for each place of the grid.
    pub open spec fn wf(&self) -> bool {
        self@.len() == self.extent().width * self.extent().height
    }

    /// The cell in column `x` of row `y`.
    pub open spec fn cell(&self, x: int, y: int) -> T {
        self@[cell_index(self.extent().width as int, x, y)]
    }

    /// The place in the buffer that `pos` stands for, if it lies in the grid.
    pub open spec fn spec_index(&self, pos: Position<i32>) -> Option<int> {
        index_at(self.extent(), self.offset(), pos)
    }

    /// A position that lies in the grid stands for a place in the buffer.
    pub proof fn lemma_spec_index(&self, pos: Position<i32>)
        requires
            self.wf(),
        ensures
            self.spec_index(pos) matches Some(i) ==> 0 <= i < self@.len(),
    {
        if self.spec_index(pos) is Some {
            lemma_cell_index_in_range(
                self.extent().width as int,
                self.extent().height as int,
                pos.x + self.offset().x,
                pos.y + self.offset().y,
            );
        }
    }

    /// The same grid with `pos` added to every position that is looked up.
    pub fn with_offset(self, pos: Position<i32>) -> (r: Self)
        ensures
            r@ == self@,
            r.extent() == self.extent(),
            r.fallback() == self.fallback(),
            r.offset() == pos,
    {
        let mut this = self;
        this.pos = pos;
        this
    }

    pub fn position(&self) -> (r: Position<i32>)
        ensures
            r == self.offset(),
    {
        self.pos
    }

    pub fn size(&self) -> (r: Size<u32>)
        ensures
            r == self.extent(),
    {
        self.size
    }

    /// The place in the buffer that `pos` stands for, if it lies in the grid.
    fn pos_of(&self, pos: Position<i32>) -> (r: Option<usize>)
        requires
            self.wf(),
        ensures
            r is Some <==> self.spec_index(pos) is Some,
            r is Some ==> r.unwrap() == self.spec_index(pos).unwrap() && r.unwrap() < self@.len(),
    {
        let x: i64 = pos.x as i64 + self.pos.x as i64;
        let y: i64 = pos.y as i64 + self.pos.y as i64;
        if x < 0 || y < 0 || x >= self.size.width as i64 || y >= self.size.height as i64 {
            return None;
        }
        proof {
            lemma_cell_index_in_range(
                self.size.width as int,
                self.size.height as int,
                x as int,
                y as int,
            );
        }
        Some(flat_index(self.size.width, x as u32, y as u32, self.pixels.len()))
    }

    /// The cell at `pos`, or `None` where `pos` lies outside the grid.
    pub fn get(&self, pos: Position<i32>) -> (r: Option<&T>)
        requires
            self.wf(),
        ensures
            match self.spec_index(pos) {
                Some(i) => r == Some(&self@[i]),
                None => r is None,
            },
    {
        match self.pos_of(pos) {
            Some(index) => Some(&self.pixels[index]),
            None => None,
        }
    }

    /// The cell at `pos` for writing, or `None` where `pos` lies outside the
    /// grid.
    pub fn get_mut(&mut self, pos: Position<i32>) -> (r: Option<&mut T>)
        requires
            old(self).wf(),
        ensures
            final(self).extent() == old(self).extent(),
            final(self).offset() == old(self).offset(),
            final(self).fallback() == old(self).fallback(),
            match old(self).spec_index(pos) {
                Some(i) => r is Some && *r.unwrap() == old(self)@[i] && final(self)@ == old(
                    self,
                )@.update(i, *final(r.unwrap())),
                None => r is None && final(self)@ == old(self)@,
            },
    {
        match self.pos_of(pos) {
            Some(index) => Some(&mut self.pixels[index]),
            None => None,
        }
    }

    /// Writes `value` to the cell at `pos` and hands back what was there; a
    /// position outside the grid is ignored and gives `None`.
    pub fn replace(&mut self, pos: Position<i32>, value: T) -> (r: Option<T>)
        requires
            old(self).wf(),
        ensures
            final(self).wf(),
            final(self).extent() == old(self).extent(),
            final(self).offset() == old(self).offset(),
            final(self).fallback() == old(self).fallback(),
            match old(self).spec_index(pos) {
                Some(i) => r == Some(old(self)@[i]) && final(self)@ == old(self)@.update(i, value),
                None => r is None && final(self)@ == old(self)@,
            },
    {
        match self.pos_of(pos) {
            Some(index) => {
                let mut value = value;
                std::mem::swap(&mut self.pixels[index], &mut value);
                Some(value)
            },
            None => None,
        }
    }

    /// Writes `value` to the cell at `pos`; a position outside the grid is
    /// ignored.
    pub fn set(&mut self, pos: Position<i32>, value: T)
        requires
            old(self).wf(),
        ensures
            final(self).wf(),
            final(self).extent() == old(self).extent(),
            final(self).offset() == old(self).offset(),
            final(self).fallback() == old(self).fallback(),
            final(self)@ == (match old(self).spec_index(pos) {
                Some(i) => old(self)@.update(i, value),
                None => old(self)@,
            }),
    {
        match self.pos_of(pos) {
            Some(index) => {
                self.pixels[index] = value;
            },
            None => {},
        }
    }
}

impl<T> Surface<T> {
    /// Every cell with its position, row by row.
    pub fn iter(&self) -> (r: Vec<(Position<i32>, &T)>)
        requires
            self.wf(),
            self.extent().width <= i32::MAX,
            self.extent().height <= i32::MAX,
        ensures
            r@.len() == self@.len(),
            forall|i: int|
                0 <= i < r@.len() ==> (#[trigger] r@[i]).0 == (Position {
                    x: (i % (self.extent().width as int)) as i32,
                    y: (i / (self.extent().width as int)) as i32,
                }) && *r@[i].1 == self@[i],
    {
        let mut out: Vec<(Position<i32>, &T)> = Vec::new();
        let width: usize = self.size.width as usize;
        let mut i: usize = 0;
        while i < self.pixels.len()
            invariant
                self.wf(),
                self.extent().width <= i32::MAX,
                self.extent().height <= i32::MAX,
                width == self.extent().width,
                i <= self@.len(),
                out@.len() == i,
                forall|k: int|
                    0 <= k < i ==> (#[trigger] out@[k]).0 == (Position {
                        x: (k % (self.extent().width as int)) as i32,
                        y: (k / (self.extent().width as int)) as i32,
                    }) && *out@[k].1 == self@[k],
            decreases self@.len() - i,
        {
            proof {
                if width == 0 {
                    assert(self.extent().width * self.extent().height == 0) by (nonlinear_arith)
                        requires
                            self.extent().width == 0,
                    ;
                }
                lemma_index_to_cell(
                    self.extent().width as int,
                    self.extent().height as int,
                    i as int,
                );
            }
            let x: usize = i % width;
            let y: usize = i / width;
            out.push((Position { x: x as i32, y: y as i32 }, &self.pixels[i]));
            i += 1;
        }
        out
    }

    /// Every row with its number, from the top.
    pub fn rows(&self) -> (r: Vec<(u32, &[T])>)
        requires
            self.wf(),
        ensures
            r@.len() == self.extent().height,
            forall|y: int|
                0 <= y < r@.len() ==> (#[trigger] r@[y]).0 == y && r@[y].1@ == self@.subrange(
                    y * self.extent().width,
                    y * self.extent().width + self.extent().width,
                ),
    {
        let mut out: Vec<(u32, &[T])> = Vec::new();
        let width: usize = self.size.width as usize;
        let len: usize = self.pixels.len();
        let mut y: u32 = 0;
        while y < self.size.height
            invariant
                self.wf(),
                width == self.extent().width,
                len == self@.len(),
                y <= self.extent().height,
                out@.len() == y,
                forall|k: int|
                    0 <= k < y ==> (#[trigger] out@[k]).0 == k && out@[k].1@ == self@.subrange(
                        k * self.extent().width,
                        k * self.extent().width + self.extent().width,
                    ),
            decreases self.extent().height - y,
        {
            proof {
                assert(0 <= y * width && y * width + width <= self.extent().width
                    * self.extent().height) by (nonlinear_arith)
                    requires
                        0 <= y < self.extent().height,
                        width == self.extent().width,
                        0 <= width,
                ;
            }
            let start: usize = y as usize * width;
            let row = vstd::slice::slice_subrange(self.pixels.as_slice(), start, start + width);
            out.push((y, row));
            y += 1;
        }
        out
    }
}

impl<T> std::ops::Index<Position<i32>> for Surface<T> {
    type Output = T;

    /// The cell at a position that lies in the grid.
    fn index(&self, index: Position<i32>) -> (r: &T)
        ensures
            *r == self@[self.spec_index(index).unwrap()],
    {
        match self.pos_of(index) {
            Some(i) => &self.pixels[i],
            None => unreached(),
        }
    }
}

impl<T> vstd::std_specs::core::IndexSpecImpl<Position<i32>> for Surface<T> {
    open spec fn index_req(&self, index: &Position<i32>) -> bool {
        self.wf() && index.x >= 0 && index.y >= 0 && self.spec_index(*index) is Some
    }
}

/// A position with unsigned coordinates as one with signed coordinates.
pub open spec fn signed(index: Position<u32>) -> Position<i32> {
    Position { x: index.x as i32, y: index.y as i32 }
}

impl<T> std::ops::Index<Position<u32>> for Surface<T> {
    type Output = T;

    /// The cell at a position that lies in the grid.
    fn index(&self, index: Position<u32>) -> (r: &T)
        ensures
            *r == self@[self.spec_index(signed(index)).unwrap()],
    {
        match self.pos_of(Position { x: index.x as i32, y: index.y as i32 }) {
            Some(i) => &self.pixels[i],
            None => unreached(),
        }
    }
}

impl<T> vstd::std_specs::core::IndexSpecImpl<Position<u32>> for Surface<T> {
    open spec fn index_req(&self, index: &Position<u32>) -> bool {
        self.wf() && index.x <= i32::MAX && index.y <= i32::MAX && self.spec_index(signed(*index))
            is Some
    }
}

/// A place in the buffer of a grid is the place of a cell: of the one in
/// the column and the row that the place gives, which lie within the grid.
pub proof fn lemma_index_to_cell(width: int, height: int, i: int)
    requires
        0 <= i < width * height,
        0 < width,
    ensures
        0 <= i % width < width,
        0 <= i / width < height,
        cell_index(width, i % width, i / width) == i,
{
    vstd::arithmetic::div_mod::lemma_fundamental_div_mod(i, width);
    vstd::arithmetic::div_mod::lemma_div_pos_is_pos(i, width);
    vstd::arithmetic::div_mod::lemma_mod_bound(i, width);
    assert(width * (i / width) == (i / width) * width) by (nonlinear_arith);
    if i / width >= height {
        assert((i / width) * width >= height * width) by (nonlinear_arith)
            requires
                i / width >= height,
                0 < width,
        ;
        assert(height * width == width * height) by (nonlinear_arith);
    }
}

/// The place of a cell in the buffer gives back the cell's column and row.
pub proof fn lemma_cell_to_index(width: int, x: int, y: int)
    requires
        0 <= x < width,
        0 <= y,
    ensures
        (cell_index(width, x, y)) % width == x,
        (cell_index(width, x, y)) / width == y,
{
    vstd::arithmetic::div_mod::lemma_fundamental_div_mod_converse(
        cell_index(width, x, y),
        width,
        y,
        x,
    );
}

/// The cells of an earlier row come before those of a later one, and those
/// of one row in the order of their columns.
pub proof fn lemma_cell_index_order(width: int, x1: int, y1: int, x2: int, y2: int)
    requires
        0 <= x1 < width,
        0 <= x2 < width,
        0 <= y1,
        0 <= y2,
        y1 < y2 || (y1 == y2 && x1 < x2),
    ensures
        0 <= cell_index(width, x1, y1) < cell_index(width, x2, y2),
{
    if y1 < y2 {
        assert(y1 * width + width <= y2 * width) by (nonlinear_arith)
            requires
                y1 + 1 <= y2,
                0 <= width,
        ;
    }
    assert(0 <= y1 * width) by (nonlinear_arith)
        requires
            0 <= y1,
            0 <= width,
    ;
}

/// What the cell in column `x` of row `y` starts from when a grid with the
/// cells `old` of size `from` is resized: its old value where the mode keeps
/// cells and the place exists in the old grid, else the grid's default.
pub open spec fn resized_source<T>(
    old: Seq<T>,
    from: Size<u32>,
    fallback: T,
    mode: ResizeMode,
    x: int,
    y: int,
) -> T {
    if mode == ResizeMode::Keep && x < from.width && y < from.height {
        old[cell_index(from.width as int, x, y)]
    } else {
        fallback
    }
}

impl<T: Clone> Surface<T> {
    /// A grid of the given size in which every cell is a copy of `default`.
    pub fn new(size: Size<u32>, default: T) -> (r: Self)
        requires
            size.width * size.height <= u32::MAX,
        ensures
            r.wf(),
            r.extent() == size,
            r.offset() == (Position { x: 0i32, y: 0i32 }),
            r.fallback() == default,
            forall|i: int| 0 <= i < r@.len() ==> cloned(default, #[trigger] r@[i]),
    {
        assert(0 <= size.width * size.height) by (nonlinear_arith);
        let area: usize = (size.width as u64 * size.height as u64) as usize;
        let pixels: Vec<T> = filled(&default, area);
        Self { pos: Position { x: 0, y: 0 }, size, default, pixels }
    }

    /// Resets every cell to a copy of the grid's default.
    pub fn clear(&mut self)
        ensures
            final(self).extent() == old(self).extent(),
            final(self).offset() == old(self).offset(),
            final(self).fallback() == old(self).fallback(),
            final(self)@.len() == old(self)@.len(),
            forall|i: int|
                0 <= i < final(self)@.len() ==> cloned(old(self).fallback(), #[trigger] final(self)@[i]),
    {
        let n: usize = self.pixels.len();
        self.pixels = filled(&self.default, n);
    }

    /// Sets every cell to a copy of `value`.
    pub fn fill(&mut self, value: T)
        ensures
            final(self).extent() == old(self).extent(),
            final(self).offset() == old(self).offset(),
            final(self).fallback() == old(self).fallback(),
            final(self)@.len() == old(self)@.len(),
            forall|i: int| 0 <= i < final(self)@.len() ==> cloned(value, #[trigger] final(self)@[i]),
    {
        let n: usize = self.pixels.len();
        self.pixels = filled(&value, n);
    }

    /// Gives the grid a new size.
    ///
    /// With `Keep` a cell that lies within both the old and the new size
    /// keeps its value, at the same column and row; every other cell is a
    /// copy of the default. With `Discard` every cell is a copy of the
    /// default.
    pub fn resize(&mut self, size: Size<u32>, mode: ResizeMode)
        requires
            old(self).wf(),
            size.width * size.height <= u32::MAX,
        ensures
            final(self).wf(),
            final(self).extent() == size,
            final(self).offset() == old(self).offset(),
            final(self).fallback() == old(self).fallback(),
            forall|x: int, y: int|
                0 <= x < size.width && 0 <= y < size.height ==> cloned(
                    resized_source(
                        old(self)@,
                        old(self).extent(),
                        old(self).fallback(),
                        mode,
                        x,
                        y,
                    ),
                    #[trigger] final(self)@[cell_index(size.width as int, x, y)],
                ),
    {
        let ghost before = self.pixels@;
        let from: Size<u32> = self.size;
        let keep: bool = match mode {
            ResizeMode::Keep => true,
            ResizeMode::Discard => false,
        };
        let mut new: Vec<T> = Vec::new();
        let mut y: u32 = 0;
        while y < size.height
            invariant
                self.wf(),
                *self == *old(self),
                before == self.pixels@,
                from == self.size,
                keep == (mode == ResizeMode::Keep),
                size.width * size.height <= u32::MAX,
                y <= size.height,
                new@.len() == y * size.width,
                forall|cx: int, cy: int|
                    0 <= cx < size.width && 0 <= cy < y ==> cloned(
                        resized_source(before, from, self.default, mode, cx, cy),
                        #[trigger] new@[cell_index(size.width as int, cx, cy)],
                    ),
            decreases size.height - y,
        {
            let mut x: u32 = 0;
            while x < size.width
                invariant
                    self.wf(),
                    *self == *old(self),
                    before == self.pixels@,
                    from == self.size,
                    keep == (mode == ResizeMode::Keep),
                    size.width * size.height <= u32::MAX,
                    y < size.height,
                    x <= size.width,
                    new@.len() == y * size.width + x,
                    forall|cx: int, cy: int|
                        0 <= cx < size.width && (0 <= cy < y || (cy == y && cx < x)) ==> cloned(
                            resized_source(before, from, self.default, mode, cx, cy),
                            #[trigger] new@[cell_index(size.width as int, cx, cy)],
                        ),
                decreases size.width - x,
            {
                let ghost len = new@.len() as int;
                let ghost prior = new@;
                let cell: T = if keep && x < from.width && y < from.height {
                    proof {
                        lemma_cell_index_in_range(
                            from.width as int,
                            from.height as int,
                            x as int,
                            y as int,
                        );
                    }
                    let at: usize = flat_index(from.width, x, y, self.pixels.len());
                    self.pixels[at].clone()
                } else {
                    self.default.clone()
                };
                new.push(cell);
                assert forall|cx: int, cy: int|
                    0 <= cx < size.width && (0 <= cy < y || (cy == y && cx < x + 1)) implies cloned(
                    resized_source(before, from, self.default, mode, cx, cy),
                    #[trigger] new@[cell_index(size.width as int, cx, cy)],
                ) by {
                    if cy == y && cx == x {
                        assert(cell_index(size.width as int, cx, cy) == len);
                    } else {
                        lemma_cell_index_order(size.width as int, cx, cy, x as int, y as int);
                        assert(new@[cell_index(size.width as int, cx, cy)] == prior[cell_index(
                            size.width as int,
                            cx,
                            cy,
                        )]);
                    }
                }
                x += 1;
            }
            assert((y + 1) * size.width == y * size.width + size.width) by (nonlinear_arith);
            y += 1;
        }
        assert(size.height * size.width == size.width * size.height) by (nonlinear_arith);
        self.pixels = new;
        self.size = size;
    }

    /// Copies the start of `row` over the cells from `pos` on, in buffer
    /// order: as many cells as a row of the grid has, or `row` has, or are
    /// left in the buffer, whichever is least. A position outside the grid
    /// is ignored. The grid's offset plays no part.
    pub fn clone_row(&mut self, pos: Position<i32>, row: &[T])
        requires
            old(self).wf(),
        ensures
            final(self).wf(),
            final(self).extent() == old(self).extent(),
            final(self).offset() == old(self).offset(),
            final(self).fallback() == old(self).fallback(),
            final(self)@.len() == old(self)@.len(),
            forall|i: int|
                0 <= i < final(self)@.len() ==> (if row_covers(
                    old(self).extent(),
                    old(self)@.len() as int,
                    pos,
                    row@.len() as int,
                    i,
                ) {
                    cloned(
                        row@[i - cell_index(old(self).extent().width as int, pos.x as int, pos.y as int)],
                        #[trigger] final(self)@[i],
                    )
                } else {
                    final(self)@[i] == old(self)@[i]
                }),
    {
        if pos.x < 0 || pos.y < 0 {
            return ;
        }
        let x: u32 = pos.x as u32;
        let y: u32 = pos.y as u32;
        if x >= self.size.width || y >= self.size.height {
            return ;
        }
        proof {
            lemma_cell_index_in_range(
                self.size.width as int,
                self.size.height as int,
                x as int,
                y as int,
            );
        }
        let len: usize = self.pixels.len();
        let w: usize = self.size.width as usize;
        let start: usize = flat_index(self.size.width, x, y, len);
        let stride: usize = if w <= row.len() {
            w
        } else {
            row.len()
        };
        let count: usize = if stride <= len - start {
            stride
        } else {
            len - start
        };
        let mut k: usize = 0;
        while k < count
            invariant
                k <= count,
                count <= row@.len(),
                start + count <= len,
                len == self.pixels@.len(),
                len == old(self)@.len(),
                self.size == old(self).size,
                self.pos == old(self).pos,
                self.default == old(self).default,
                forall|i: int|
                    0 <= i < len ==> (if start <= i < start + k {
                        cloned(row@[i - start], #[trigger] self.pixels@[i])
                    } else {
                        self.pixels@[i] == old(self)@[i]
                    }),
            decreases count - k,
        {
            let value: T = row[k].clone();
            self.pixels[start + k] = value;
            k += 1;
        }
    }
}

/// Whether writing a row at `pos` reaches buffer place `i` of a grid of the
/// given size whose buffer has `len` cells.
pub open spec fn row_covers(size: Size<u32>, len: int, pos: Position<i32>, row_len: int, i: int) -> bool {
    let start = cell_index(size.width as int, pos.x as int, pos.y as int);
    let stride = if size.width <= row_len {
        size.width as int
    } else {
        row_len
    };
    let count = if stride <= len - start {
        stride
    } else {
        len - start
    };
    &&& 0 <= pos.x < size.width
    &&& 0 <= pos.y < size.height
    &&& start <= i < start + count
}

impl<T: Copy> Surface<T> {
    /// Copies the start of `row` over the cells from `pos` on, as
    /// [`Surface::clone_row`] does.
    pub fn copy_row(&mut self, pos: Position<i32>, row: &[T])
        requires
            old(self).wf(),
        ensures
            final(self).wf(),
            final(self).extent() == old(self).extent(),
            final(self).offset() == old(self).offset(),
            final(self).fallback() == old(self).fallback(),
            final(self)@.len() == old(self)@.len(),
            forall|i: int|
                0 <= i < final(self)@.len() ==> #[trigger] final(self)@[i] == (if row_covers(
                    old(self).extent(),
                    old(self)@.len() as int,
                    pos,
                    row@.len() as int,
                    i,
                ) {
                    row@[i - cell_index(old(self).extent().width as int, pos.x as int, pos.y as int)]
                } else {
                    old(self)@[i]
                }),
    {
        if pos.x < 0 || pos.y < 0 {
            return ;
        }
        let x: u32 = pos.x as u32;
        let y: u32 = pos.y as u32;
        if x >= self.size.width || y >= self.size.height {
            return ;
        }
        proof {
            lemma_cell_index_in_range(
                self.size.width as int,
                self.size.height as int,
                x as int,
                y as int,
            );
        }
        let len: usize = self.pixels.len();
        let w: usize = self.size.width as usize;
        let start: usize = flat_index(self.size.width, x, y, len);
        let stride: usize = if w <= row.len() {
            w
        } else {
            row.len()
        };
        let count: usize = if stride <= len - start {
            stride
        } else {
            len - start
        };
        let mut k: usize = 0;
        while k < count
            invariant
                k <= count,
                count <= row@.len(),
                start + count <= len,
                len == self.pixels@.len(),
                len == old(self)@.len(),
                self.size == old(self).size,
                self.pos == old(self).pos,
                self.default == old(self).default,
                forall|i: int|
                    0 <= i < len ==> #[trigger] self.pixels@[i] == (if start <= i < start + k {
                        row@[i - start]
                    } else {
                        old(self)@[i]
                    }),
            decreases count - k,
        {
            self.pixels[start + k] = row[k];
            k += 1;
        }
    }
}

/// The place of the cell in column `x` of row `y` in a row-major buffer of
/// `len` cells that holds it.
fn flat_index(width: u32, x: u32, y: u32, len: usize) -> (r: usize)
    requires
        cell_index(width as int, x as int, y as int) < len,
    ensures
        r == cell_index(width as int, x as int, y as int),
{
    assert(0 <= y * width) by (nonlinear_arith)
        requires
            0 <= y,
            0 <= width,
    ;
    y as usize * width as usize + x as usize
}

/// A buffer of `n` copies of `value`.
fn filled<T: Clone>(value: &T, n: usize) -> (v: Vec<T>)
    ensures
        v@.len() == n,
        forall|i: int| 0 <= i < n ==> cloned(*value, #[trigger] v@[i]),
{
    let mut v: Vec<T> = Vec::new();
    let mut i: usize = 0;
    while i < n
        invariant
            i <= n,
            v@.len() == i,
            forall|k: int| 0 <= k < i ==> cloned(*value, #[trigger] v@[k]),
        decreases n - i,
    {
        v.push(value.clone());
        i += 1;
    }
    v
}

} // verus!
