//! The compositor: a front grid that the next frame is drawn into, and a
//! back grid that holds what the terminal shows.

use vstd::prelude::*;

use super::diff::{
    cell_commands, cell_state, differs, frame_commands, lemma_cut_short_in_frame, position_of,
    scan_commands, scan_state, write_cell, State,
};
use super::{merged_at, BlendMode, Placement, Placer, Renderer, RendererSetup};
use crate::color::Color;
use crate::math::{Position, Size};
use crate::pixel::{dirty_view, empty_view, Pixel, PixelView};
use crate::rasterizer::{cut_short, stopped, Command, Rasterizer};
use crate::surface::{
    cell_index, index_at, lemma_cell_index_in_range, lemma_cell_to_index, lemma_index_to_cell,
    resized_source, ResizeMode, Surface,
};

verus! {

/// The cells of a grid as mathematical values.
pub open spec fn views(cells: Seq<Pixel>) -> Seq<PixelView> {
    cells.map_values(|p: Pixel| p@)
}

/// The colour that a compositor keeps as a default: a default cannot itself
/// be left to what lies beneath.
pub open spec fn as_default(color: Color) -> Color {
    if color == Color::Transparent {
        Color::Default
    } else {
        color
    }
}

/// The front grid once the scan has passed its first `n` cells: those are
/// blank again, the rest is as drawn.
pub open spec fn swept(front: Seq<PixelView>, n: int) -> Seq<PixelView> {
    Seq::new(front.len(), |i: int| if i < n { empty_view() } else { front[i] })
}

/// The back grid once the scan has passed its first `n` cells: those show
/// what was drawn, the rest what the terminal showed before.
pub open spec fn committed(front: Seq<PixelView>, back: Seq<PixelView>, n: int) -> Seq<PixelView> {
    Seq::new(back.len(), |i: int| if i < n { front[i] } else { back[i] })
}

/// Whether the grids `front_after` and `back_after` are what a rendering of
/// `front` over `back` leaves that the sink stopped: the scan had passed
/// some cells, which are blank in the front grid and show what was drawn in
/// the back grid; the cell at which it stopped, if it was at a cell, is
/// blank in the front grid and unchanged in the back grid; the rest is as
/// it was.
pub open spec fn left_off(
    front: Seq<PixelView>,
    back: Seq<PixelView>,
    front_after: Seq<PixelView>,
    back_after: Seq<PixelView>,
) -> bool {
    exists|n: int|
        0 <= n <= front.len() && front_after == #[trigger] swept(front, n + 1) && back_after
            == committed(front, back, n)
}

/// A compositor that emits only the cells that changed since the last frame.
pub struct SurfaceRenderer {
    size: Size<u32>,
    front: Surface<Pixel>,
    back: Surface<Pixel>,
    default_fg: Color,
    default_bg: Color,
}

/// Writing one cell changes the one mathematical value that stands for it.
pub proof fn lemma_views_update(cells: Seq<Pixel>, i: int, value: Pixel)
    requires
        0 <= i < cells.len(),
    ensures
        views(cells.update(i, value)) == views(cells).update(i, value@),
{
    assert(views(cells.update(i, value)) =~= views(cells).update(i, value@));
}

impl SurfaceRenderer {
    /// The size of both grids.
    pub closed spec fn extent(&self) -> Size<u32> {
        self.size
    }

    /// The cells drawn for the next frame, row by row.
    pub closed spec fn front_cells(&self) -> Seq<PixelView> {
        views(self.front@)
    }

    /// The cells that the terminal shows, row by row.
    pub closed spec fn back_cells(&self) -> Seq<PixelView> {
        views(self.back@)
    }

    /// The colour that stands in for a default foreground.
    pub closed spec fn spec_default_fg(&self) -> Color {
        self.default_fg
    }

    /// The colour that stands in for a default background.
    pub closed spec fn spec_default_bg(&self) -> Color {
        self.default_bg
    }

    /// The two grids have the compositor's size and no offset, every cell
    /// can be addressed with signed coordinates, and no default colour is
    /// transparent.
    pub closed spec fn wf(&self) -> bool {
        &&& self.front.wf()
        &&& self.back.wf()
        &&& self.front.extent() == self.size
        &&& self.back.extent() == self.size
        &&& self.front.offset() == (Position { x: 0i32, y: 0i32 })
        &&& self.back.offset() == (Position { x: 0i32, y: 0i32 })
        &&& self.front.fallback()@ == empty_view()
        &&& self.back.fallback()@ == dirty_view()
        &&& self.size.width <= i32::MAX
        &&& self.size.height <= i32::MAX
        &&& self.size.width * self.size.height <= u32::MAX
        &&& self.default_fg != Color::Transparent
        &&& self.default_bg != Color::Transparent
    }

    /// The place in the grids that `pos` stands for, if it lies in them.
    pub open spec fn spec_index(&self, pos: Position<i32>) -> Option<int> {
        index_at(self.extent(), Position { x: 0i32, y: 0i32 }, pos)
    }

    /// The cells of the next frame after `pixel` was written at `pos`.
    pub open spec fn spec_put(&self, pos: Position<i32>, pixel: PixelView, blend: BlendMode) -> Seq<
        PixelView,
    > {
        merged_at(self.front_cells(), self.extent(), Placement { pos, pixel, blend })
    }

    /// The commands that rendering the next frame emits.
    pub open spec fn spec_frame(&self) -> Seq<Command> {
        frame_commands(
            self.front_cells(),
            self.back_cells(),
            self.extent().width as int,
            self.spec_default_fg(),
            self.spec_default_bg(),
        )
    }

    /// What a well-formed compositor's size says of its grids.
    pub proof fn lemma_wf(&self)
        requires
            self.wf(),
        ensures
            self.front_cells().len() == self.extent().width * self.extent().height,
            self.back_cells().len() == self.extent().width * self.extent().height,
            self.extent().width <= i32::MAX,
            self.extent().height <= i32::MAX,
            self.spec_default_fg() != Color::Transparent,
            self.spec_default_bg() != Color::Transparent,
    {
    }

    /// A compositor of the given size: nothing is drawn yet, and the back
    /// grid holds in every cell a value that no drawing produces, so that
    /// the first frame paints every cell.
    pub fn new(size: Size<u32>) -> (r: Self)
        requires
            size.width <= i32::MAX,
            size.height <= i32::MAX,
            size.width * size.height <= u32::MAX,
        ensures
            r.wf(),
            r.extent() == size,
            r.spec_default_fg() == Color::Default,
            r.spec_default_bg() == Color::Default,
            r.front_cells() == Seq::new((size.width * size.height) as nat, |i: int| empty_view()),
            r.back_cells() == Seq::new((size.width * size.height) as nat, |i: int| dirty_view()),
    {
        let front = Surface::new(size, Pixel::empty());
        let back = Surface::new(size, Pixel::dirty());
        let r = Self { size, front, back, default_fg: Color::Default, default_bg: Color::Default };
        assert(r.front_cells() =~= Seq::new(
            (size.width * size.height) as nat,
            |i: int| empty_view(),
        ));
        assert(r.back_cells() =~= Seq::new(
            (size.width * size.height) as nat,
            |i: int| dirty_view(),
        ));
        r
    }

    /// The same compositor with another default foreground.
    pub fn default_fg(self, default_fg: Color) -> (r: Self)
        requires
            self.wf(),
        ensures
            r.wf(),
            r.extent() == self.extent(),
            r.front_cells() == self.front_cells(),
            r.back_cells() == self.back_cells(),
            r.spec_default_fg() == as_default(default_fg),
            r.spec_default_bg() == self.spec_default_bg(),
    {
        let mut this = self;
        this.set_default_fg(default_fg);
        this
    }

    /// The same compositor with another default background.
    pub fn default_bg(self, default_bg: Color) -> (r: Self)
        requires
            self.wf(),
        ensures
            r.wf(),
            r.extent() == self.extent(),
            r.front_cells() == self.front_cells(),
            r.back_cells() == self.back_cells(),
            r.spec_default_fg() == self.spec_default_fg(),
            r.spec_default_bg() == as_default(default_bg),
    {
        let mut this = self;
        this.set_default_bg(default_bg);
        this
    }

    /// Sets the colour that stands in for a default foreground.
    pub fn set_default_fg(&mut self, default_fg: Color)
        requires
            old(self).wf(),
        ensures
            final(self).wf(),
            final(self).extent() == old(self).extent(),
            final(self).front_cells() == old(self).front_cells(),
            final(self).back_cells() == old(self).back_cells(),
            final(self).spec_default_fg() == as_default(default_fg),
            final(self).spec_default_bg() == old(self).spec_default_bg(),
    {
        self.default_fg = match default_fg {
            Color::Transparent => Color::Default,
            other => other,
        };
    }

    /// Sets the colour that stands in for a default background.
    pub fn set_default_bg(&mut self, default_bg: Color)
        requires
            old(self).wf(),
        ensures
            final(self).wf(),
            final(self).extent() == old(self).extent(),
            final(self).front_cells() == old(self).front_cells(),
            final(self).back_cells() == old(self).back_cells(),
            final(self).spec_default_fg() == old(self).spec_default_fg(),
            final(self).spec_default_bg() == as_default(default_bg),
    {
        self.default_bg = match default_bg {
            Color::Transparent => Color::Default,
            other => other,
        };
    }

    pub fn size(&self) -> (r: Size<u32>)
        ensures
            r == self.extent(),
    {
        self.size
    }

    /// Writes `pixel` over the cell at `pos` of the next frame, in the given
    /// mode. A position outside the grid is ignored.
    pub fn put(&mut self, pos: Position<i32>, pixel: Pixel, blend: BlendMode)
        requires
            old(self).wf(),
        ensures
            final(self).wf(),
            final(self).extent() == old(self).extent(),
            final(self).spec_default_fg() == old(self).spec_default_fg(),
            final(self).spec_default_bg() == old(self).spec_default_bg(),
            final(self).back_cells() == old(self).back_cells(),
            final(self).front_cells() == old(self).spec_put(pos, pixel@, blend),
    {
        let ghost before = self.front@;
        match self.front.replace(pos, Pixel::empty()) {
            Some(lower) => {
                let ghost i = old(self).spec_index(pos).unwrap();
                let cell = lower.merge_with(pixel, blend);
                self.front.set(pos, cell);
                proof {
                    old(self).front.lemma_spec_index(pos);
                    assert(self.front@ =~= before.update(i, cell));
                    lemma_views_update(before, i, cell);
                    assert(views(before)[i] == lower@);
                }
            },
            None => {},
        }
    }

    /// The cell of the next frame at `pos`, or `None` where `pos` lies
    /// outside the grid.
    pub fn get(&self, pos: Position<i32>) -> (r: Option<&Pixel>)
        requires
            self.wf(),
        ensures
            match self.spec_index(pos) {
                Some(i) => r is Some && r.unwrap()@ == self.front_cells()[i],
                None => r is None,
            },
    {
        proof {
            self.front.lemma_spec_index(pos);
        }
        self.front.get(pos)
    }

    /// The cell of the next frame at `pos` for writing, or `None` where
    /// `pos` lies outside the grid.
    pub fn get_mut(&mut self, pos: Position<i32>) -> (r: Option<&mut Pixel>)
        requires
            old(self).wf(),
        ensures
            final(self).wf(),
            final(self).extent() == old(self).extent(),
            final(self).spec_default_fg() == old(self).spec_default_fg(),
            final(self).spec_default_bg() == old(self).spec_default_bg(),
            final(self).back_cells() == old(self).back_cells(),
            match old(self).spec_index(pos) {
                Some(i) => {
                    &&& r is Some
                    &&& (*r.unwrap())@ == old(self).front_cells()[i]
                    &&& final(self).front_cells() == old(self).front_cells().update(
                        i,
                        (*final(r.unwrap()))@,
                    )
                },
                None => r is None && final(self).front_cells() == old(self).front_cells(),
            },
    {
        proof {
            self.front.lemma_spec_index(pos);
        }
        let ghost before = self.front@;
        let r = self.front.get_mut(pos);
        proof {
            if let Some(i) = old(self).spec_index(pos) {
                lemma_views_update(before, i, *final(r.unwrap()));
            }
        }
        r
    }

    /// The cells of a grid after a change of size from `from` to `to` that
    /// keeps what lies within both sizes and fills the rest with `fill`.
    pub open spec fn kept(cells: Seq<PixelView>, from: Size<u32>, to: Size<u32>, fill: PixelView) -> Seq<
        PixelView,
    > {
        Seq::new(
            (to.width * to.height) as nat,
            |i: int|
                {
                    let x = i % (to.width as int);
                    let y = i / (to.width as int);
                    if x < from.width && y < from.height {
                        cells[cell_index(from.width as int, x, y)]
                    } else {
                        fill
                    }
                },
        )
    }

    /// The cells of the back grid after a change of size from `from` to
    /// `to`: with `Discard` no cell counts as painted any more, so that the
    /// next frame paints every cell; with `Keep` the cells within both sizes
    /// stay and the new ones are unpainted.
    pub open spec fn resized_back(
        cells: Seq<PixelView>,
        from: Size<u32>,
        to: Size<u32>,
        mode: ResizeMode,
    ) -> Seq<PixelView> {
        if mode == ResizeMode::Discard {
            Seq::new((to.width * to.height) as nat, |i: int| dirty_view())
        } else {
            Self::kept(cells, from, to, dirty_view())
        }
    }

    /// The cells of the front grid after a change of size from `from` to
    /// `to`: with `Keep` the cells within both sizes stay; every other cell
    /// is blank.
    pub open spec fn resized_front(
        cells: Seq<PixelView>,
        from: Size<u32>,
        to: Size<u32>,
        mode: ResizeMode,
    ) -> Seq<PixelView> {
        if mode == ResizeMode::Keep {
            Self::kept(cells, from, to, empty_view())
        } else {
            Seq::new((to.width * to.height) as nat, |i: int| empty_view())
        }
    }

    /// Gives both grids a new size. A call with the size that the
    /// compositor has changes nothing. With `Keep` what was drawn and what
    /// the terminal shows stay within both sizes; with `Discard` nothing
    /// stays, and the next frame paints every cell.
    pub fn resize(&mut self, size: Size<u32>, mode: ResizeMode)
        requires
            old(self).wf(),
            size.width <= i32::MAX,
            size.height <= i32::MAX,
            size.width * size.height <= u32::MAX,
        ensures
            final(self).wf(),
            final(self).extent() == size,
            final(self).spec_default_fg() == old(self).spec_default_fg(),
            final(self).spec_default_bg() == old(self).spec_default_bg(),
            size == old(self).extent() ==> final(self).front_cells() == old(self).front_cells()
                && final(self).back_cells() == old(self).back_cells(),
            size != old(self).extent() ==> final(self).front_cells() == Self::resized_front(
                old(self).front_cells(),
                old(self).extent(),
                size,
                mode,
            ) && final(self).back_cells() == Self::resized_back(
                old(self).back_cells(),
                old(self).extent(),
                size,
                mode,
            ),
    {
        if self.size.width == size.width && self.size.height == size.height {
            return ;
        }
        let ghost from = self.size;
        let ghost front = self.front@;
        let ghost back = self.back@;
        self.size = size;
        match mode {
            ResizeMode::Keep => {
                self.front.resize(size, mode);
                self.back.resize(size, mode);
                proof {
                    lemma_kept(front, self.front@, from, size, self.front.fallback());
                    lemma_kept(back, self.back@, from, size, self.back.fallback());
                }
            },
            ResizeMode::Discard => {
                self.front.resize(size, mode);
                proof {
                    lemma_reset(self.front@, size, self.front.fallback());
                }
                self.back.resize(size, mode);
                proof {
                    lemma_reset(self.back@, size, self.back.fallback());
                }
            },
        }
    }

    /// Passes the scan over the cell in column `x` of row `y`: the cell is
    /// taken from the front grid, which gets a blank one in its place, and,
    /// where it differs from what the terminal shows, written to the sink
    /// and to the back grid.
    fn render_cell<R: Rasterizer>(
        &mut self,
        state: &mut State,
        rasterizer: &mut R,
        x: u32,
        y: u32,
    ) -> (r: Result<(), R::Error>)
        requires
            old(self).wf(),
            x < old(self).extent().width,
            y < old(self).extent().height,
        ensures
            final(self).wf(),
            final(self).extent() == old(self).extent(),
            final(self).spec_default_fg() == old(self).spec_default_fg(),
            final(self).spec_default_bg() == old(self).spec_default_bg(),
            !differs(
                old(self).front_cells()[cell_index(
                    old(self).extent().width as int,
                    x as int,
                    y as int,
                )],
                old(self).back_cells()[cell_index(
                    old(self).extent().width as int,
                    x as int,
                    y as int,
                )],
            ) ==> r is Ok,
            r is Ok <==> final(rasterizer).refusals() == old(rasterizer).refusals(),
            r matches Err(e) ==> stopped(
                *old(rasterizer),
                *final(rasterizer),
                cell_commands(
                    *old(state),
                    Position { x: x as i32, y: y as i32 },
                    old(self).front_cells()[cell_index(
                        old(self).extent().width as int,
                        x as int,
                        y as int,
                    )],
                    old(self).spec_default_fg(),
                    old(self).spec_default_bg(),
                ),
                e,
            ),
            r is Err ==> final(self).back_cells() == old(self).back_cells()
                && final(self).front_cells() == old(self).front_cells().update(
                cell_index(old(self).extent().width as int, x as int, y as int),
                empty_view(),
            ),
            r is Ok ==> ({
                let n = cell_index(old(self).extent().width as int, x as int, y as int);
                let front = old(self).front_cells();
                let back = old(self).back_cells();
                let pos = Position { x: x as i32, y: y as i32 };
                &&& 0 <= n < front.len()
                &&& final(self).front_cells() == front.update(n, empty_view())
                &&& final(self).back_cells() == back.update(n, front[n])
                &&& !differs(front[n], back[n]) ==> final(rasterizer).commands() == old(
                    rasterizer,
                ).commands() && *final(state) == *old(state)
                &&& differs(front[n], back[n]) ==> final(rasterizer).commands() == old(
                    rasterizer,
                ).commands() + cell_commands(
                    *old(state),
                    pos,
                    front[n],
                    old(self).spec_default_fg(),
                    old(self).spec_default_bg(),
                ) && *final(state) == cell_state(
                    *old(state),
                    pos,
                    front[n],
                    old(self).spec_default_fg(),
                    old(self).spec_default_bg(),
                )
            }),
    {
        let pos = Position { x: x as i32, y: y as i32 };
        let ghost n = cell_index(self.size.width as int, x as int, y as int);
        let ghost front = self.front@;
        let ghost back = self.back@;
        proof {
            self.front.lemma_spec_index(pos);
            self.back.lemma_spec_index(pos);
        }
        let blank = Pixel::empty();
        let ghost blank_cell = blank;
        let pixel = match self.front.replace(pos, blank) {
            Some(pixel) => pixel,
            None => unreached(),
        };
        proof {
            lemma_views_update(front, n, blank_cell);
        }
        let same: bool = match self.back.get(pos) {
            Some(shown) => !shown.is_dirty() && pixel == *shown,
            None => unreached(),
        };
        if same {
            assert(views(back) =~= views(back).update(n, views(front)[n]));
            return Ok(());
        }
        if let Err(e) = write_cell(state, rasterizer, pos, &pixel, self.default_fg, self.default_bg) {
            return Err(e);
        }
        self.back.set(pos, pixel);
        proof {
            lemma_views_update(back, n, pixel);
        }
        Ok(())
    }

    /// Emits the difference between the next frame and what the terminal
    /// shows, then takes the frame as shown and clears the front grid for
    /// the frame after it.
    ///
    /// A cell is written where it differs from what the terminal shows, and
    /// in any case where the terminal's cell was never painted. A frame
    /// without any such cell emits nothing and succeeds, and so does every
    /// frame on a sink that refuses nothing. The first command that the
    /// sink refuses ends the rendering with the sink's error: the sink has
    /// then taken the commands of the frame before that one, has been handed
    /// none after it, and the grids stay as far as the scan got.
    pub fn render<R: Rasterizer>(&mut self, rasterizer: &mut R) -> (r: Result<(), R::Error>)
        requires
            old(self).wf(),
        ensures
            final(self).wf(),
            final(self).extent() == old(self).extent(),
            final(self).spec_default_fg() == old(self).spec_default_fg(),
            final(self).spec_default_bg() == old(self).spec_default_bg(),
            old(self).spec_frame().len() == 0 ==> r is Ok,
            r is Ok ==> final(rasterizer).commands() == old(rasterizer).commands() + old(
                self,
            ).spec_frame(),
            r is Ok <==> final(rasterizer).refusals() == old(rasterizer).refusals(),
            r matches Err(e) ==> stopped(
                *old(rasterizer),
                *final(rasterizer),
                old(self).spec_frame(),
                e,
            ),
            r is Ok ==> final(self).back_cells() == old(self).front_cells(),
            r is Ok ==> final(self).front_cells() == Seq::new(
                old(self).front_cells().len(),
                |i: int| empty_view(),
            ),
            r is Err ==> left_off(
                old(self).front_cells(),
                old(self).back_cells(),
                final(self).front_cells(),
                final(self).back_cells(),
            ),
    {
        let ghost front = self.front_cells();
        let ghost back = self.back_cells();
        let ghost start = rasterizer.commands();
        let width: u32 = self.size.width;
        let height: u32 = self.size.height;
        let default_fg = self.default_fg;
        let default_bg = self.default_bg;
        let mut state = State::new(default_fg, default_bg);
        let mut y: u32 = 0;
        while y < height
            invariant
                self.wf(),
                self.extent() == old(self).extent(),
                self.spec_default_fg() == default_fg,
                self.spec_default_bg() == default_bg,
                old(self).spec_default_fg() == default_fg,
                old(self).spec_default_bg() == default_bg,
                width == self.extent().width,
                height == self.extent().height,
                front == old(self).front_cells(),
                start == old(rasterizer).commands(),
                rasterizer.refusals() == old(rasterizer).refusals(),
                back == old(self).back_cells(),
                front.len() == width * height,
                back.len() == width * height,
                y <= height,
                self.front_cells() == swept(front, y * width),
                self.back_cells() == committed(front, back, y * width),
                state == scan_state(front, back, width as int, default_fg, default_bg, (y * width) as nat),
                rasterizer.commands() == start + scan_commands(
                    front,
                    back,
                    width as int,
                    default_fg,
                    default_bg,
                    (y * width) as nat,
                ),
            decreases height - y,
        {
            let mut x: u32 = 0;
            proof {
                assert(0 <= y * width) by (nonlinear_arith)
                    requires
                        0 <= y,
                        0 <= width,
                ;
            }
            while x < width
                invariant
                    self.wf(),
                    self.extent() == old(self).extent(),
                    self.spec_default_fg() == default_fg,
                    self.spec_default_bg() == default_bg,
                    old(self).spec_default_fg() == default_fg,
                    old(self).spec_default_bg() == default_bg,
                    width == self.extent().width,
                    height == self.extent().height,
                    front == old(self).front_cells(),
                    start == old(rasterizer).commands(),
                    rasterizer.refusals() == old(rasterizer).refusals(),
                    back == old(self).back_cells(),
                    front.len() == width * height,
                    back.len() == width * height,
                    y < height,
                    x <= width,
                    0 <= y * width,
                    self.front_cells() == swept(front, y * width + x),
                    self.back_cells() == committed(front, back, y * width + x),
                    state == scan_state(
                        front,
                        back,
                        width as int,
                        default_fg,
                        default_bg,
                        (y * width + x) as nat,
                    ),
                    rasterizer.commands() == start + scan_commands(
                        front,
                        back,
                        width as int,
                        default_fg,
                        default_bg,
                        (y * width + x) as nat,
                    ),
                decreases width - x,
            {
                let ghost n = cell_index(width as int, x as int, y as int);
                let ghost before = rasterizer.commands();
                let ghost done = scan_commands(
                    front,
                    back,
                    width as int,
                    default_fg,
                    default_bg,
                    n as nat,
                );
                let ghost prior = state;
                proof {
                    lemma_cell_to_index(width as int, x as int, y as int);
                    lemma_cell_index_in_range(width as int, height as int, x as int, y as int);
                    assert(self.front_cells()[n] == front[n]);
                    assert(self.back_cells()[n] == back[n]);
                    assert(position_of(width as int, n) == (Position { x: x as i32, y: y as i32 }));
                }
                match self.render_cell(&mut state, rasterizer, x, y) {
                    Ok(()) => {},
                    Err(e) => {
                        proof {
                            assert(self.front_cells() =~= swept(front, n + 1));
                            assert(self.back_cells() =~= committed(front, back, n));
                            assert(differs(front[n], back[n]));
                            lemma_silent_frame(front, back, width as int, default_fg, default_bg);
                            lemma_cut_short_in_frame(
                                front,
                                back,
                                width as int,
                                default_fg,
                                default_bg,
                                n as nat,
                                start,
                                before,
                                rasterizer.commands(),
                            );
                        }
                        return Err(e);
                    },
                }
                proof {
                    assert(self.front_cells() =~= swept(front, n + 1));
                    assert(self.back_cells() =~= committed(front, back, n + 1));
                    if differs(front[n], back[n]) {
                        assert(rasterizer.commands() =~= start + (done + cell_commands(
                            prior,
                            position_of(width as int, n),
                            front[n],
                            default_fg,
                            default_bg,
                        )));
                    }
                }
                x += 1;
            }
            proof {
                assert((y + 1) * width == y * width + width) by (nonlinear_arith);
            }
            y += 1;
        }
        proof {
            assert(height * width == width * height) by (nonlinear_arith);
            assert(self.front_cells() =~= Seq::new(front.len(), |i: int| empty_view()));
            assert(self.back_cells() =~= front);
        }
        if state.seen {
            match rasterizer.end() {
                Ok(()) => {},
                Err(e) => {
                    proof {
                        let frame = old(self).spec_frame();
                        assert(rasterizer.commands() =~= start + frame.take(frame.len() - 1));
                        assert(self.front_cells() =~= swept(front, front.len() as int + 1));
                        assert(self.back_cells() =~= committed(front, back, front.len() as int));
                    }
                    return Err(e);
                },
            }
            assert(rasterizer.commands() =~= start + old(self).spec_frame());
        } else {
            assert(rasterizer.commands() =~= start + old(self).spec_frame());
        }
        Ok(())
    }
}

/// After a grid was resized keeping its cells, its cells as mathematical
/// values are the kept ones.
proof fn lemma_kept(
    old_cells: Seq<Pixel>,
    new_cells: Seq<Pixel>,
    from: Size<u32>,
    to: Size<u32>,
    fallback: Pixel,
)
    requires
        old_cells.len() == from.width * from.height,
        new_cells.len() == to.width * to.height,
        forall|x: int, y: int|
            0 <= x < to.width && 0 <= y < to.height ==> cloned(
                resized_source(old_cells, from, fallback, ResizeMode::Keep, x, y),
                #[trigger] new_cells[cell_index(to.width as int, x, y)],
            ),
    ensures
        views(new_cells) == SurfaceRenderer::kept(views(old_cells), from, to, fallback@),
{
    let expected = SurfaceRenderer::kept(views(old_cells), from, to, fallback@);
    assert forall|i: int| 0 <= i < new_cells.len() implies views(new_cells)[i] == expected[i] by {
        let w = to.width as int;
        if w == 0 {
            assert(to.width * to.height == 0) by (nonlinear_arith)
                requires
                    to.width == 0,
            ;
        }
        lemma_index_to_cell(w, to.height as int, i);
        let x = i % w;
        let y = i / w;
        assert(cloned(
            resized_source(old_cells, from, fallback, ResizeMode::Keep, x, y),
            new_cells[cell_index(w, x, y)],
        ));
        if x < from.width && y < from.height {
            lemma_cell_index_in_range(from.width as int, from.height as int, x, y);
        }
    }
    assert(views(new_cells) =~= expected);
}

/// After a grid was resized discarding its cells, every cell is the grid's
/// default.
proof fn lemma_reset(new_cells: Seq<Pixel>, to: Size<u32>, fallback: Pixel)
    requires
        new_cells.len() == to.width * to.height,
        forall|x: int, y: int|
            0 <= x < to.width && 0 <= y < to.height ==> cloned(
                fallback,
                #[trigger] new_cells[cell_index(to.width as int, x, y)],
            ),
    ensures
        views(new_cells) == Seq::new((to.width * to.height) as nat, |i: int| fallback@),
{
    let expected = Seq::new((to.width * to.height) as nat, |i: int| fallback@);
    assert forall|i: int| 0 <= i < new_cells.len() implies views(new_cells)[i] == expected[i] by {
        let w = to.width as int;
        if w == 0 {
            assert(to.width * to.height == 0) by (nonlinear_arith)
                requires
                    to.width == 0,
            ;
        }
        lemma_index_to_cell(w, to.height as int, i);
        assert(cloned(fallback, new_cells[cell_index(w, i % w, i / w)]));
    }
    assert(views(new_cells) =~= expected);
}

impl Placer for SurfaceRenderer {
    type Canvas = Seq<PixelView>;

    open spec fn inv(&self) -> bool {
        self.wf()
    }

    open spec fn extent(&self) -> Size<u32> {
        SurfaceRenderer::extent(self)
    }

    /// The cells drawn for the next frame.
    open spec fn canvas(&self) -> Seq<PixelView> {
        self.front_cells()
    }

    open spec fn applied(&self, canvas: Seq<PixelView>, item: Placement) -> Seq<PixelView> {
        merged_at(canvas, SurfaceRenderer::extent(self), item)
    }

    fn put(&mut self, pos: Position<i32>, pixel: Pixel, blend: BlendMode) {
        SurfaceRenderer::put(self, pos, pixel, blend);
    }

    fn size(&self) -> (r: Size<u32>) {
        SurfaceRenderer::size(self)
    }
}

impl RendererSetup for SurfaceRenderer {
    open spec fn ready(&self) -> bool {
        self.wf()
    }

    open spec fn defaults(&self) -> (Color, Color) {
        (self.spec_default_fg(), self.spec_default_bg())
    }

    fn default_colors(&self) -> (r: (Color, Color)) {
        (self.default_fg, self.default_bg)
    }

    fn set_default_fg(&mut self, default_fg: Color) {
        SurfaceRenderer::set_default_fg(self, default_fg)
    }

    fn set_default_bg(&mut self, default_bg: Color) {
        SurfaceRenderer::set_default_bg(self, default_bg)
    }
}

impl Renderer for SurfaceRenderer {
    open spec fn frame(&self) -> Seq<Command> {
        self.spec_frame()
    }

    proof fn lemma_grid(&self) {
        self.lemma_wf();
    }

    /// A blank cell in the compositor's default colours.
    open spec fn blank(&self) -> PixelView {
        PixelView {
            foreground: self.spec_default_fg(),
            background: self.spec_default_bg(),
            ..empty_view()
        }
    }

    fn clear(&mut self) {
        let size = SurfaceRenderer::size(self);
        let pixel = Pixel::empty().fg(self.default_fg).bg(self.default_bg);
        self.fill(Position { x: 0, y: 0 }, size, pixel, BlendMode::Replace);
    }

    fn get(&self, pos: Position<i32>) -> (r: Option<&Pixel>) {
        SurfaceRenderer::get(self, pos)
    }

    fn replace(&mut self, pos: Position<i32>, pixel: Pixel) -> (r: Option<Pixel>) {
        let ghost cells = self.front@;
        proof {
            self.front.lemma_spec_index(pos);
        }
        let r = self.front.replace(pos, pixel);
        proof {
            if r is Some {
                lemma_views_update(cells, old(self).spec_index(pos).unwrap(), pixel);
            }
        }
        r
    }

    fn render<R: Rasterizer>(&mut self, rasterizer: &mut R) -> (r: Result<(), R::Error>) {
        SurfaceRenderer::render(self, rasterizer)
    }
}

/// Whether none of the first `n` cells differs from what the terminal shows.
pub open spec fn frame_prefix_silent(front: Seq<PixelView>, back: Seq<PixelView>, n: int) -> bool {
    forall|i: int| 0 <= i < n ==> !differs(front[i], back[i])
}

/// The scan emits something for a frame exactly if some cell differs from
/// what the terminal shows.
pub proof fn lemma_silent_frame(
    front: Seq<PixelView>,
    back: Seq<PixelView>,
    width: int,
    default_fg: Color,
    default_bg: Color,
)
    requires
        front.len() == back.len(),
    ensures
        frame_commands(front, back, width, default_fg, default_bg).len() == 0
            <==> frame_prefix_silent(front, back, front.len() as int),
{
    lemma_silent_scan(front, back, width, default_fg, default_bg, front.len());
}

/// The scan has emitted nothing, and written no cell, after the first `n`
/// cells exactly if none of them differs from what the terminal shows.
pub proof fn lemma_silent_scan(
    front: Seq<PixelView>,
    back: Seq<PixelView>,
    width: int,
    default_fg: Color,
    default_bg: Color,
    n: nat,
)
    requires
        n <= front.len(),
        front.len() == back.len(),
    ensures
        scan_commands(front, back, width, default_fg, default_bg, n).len() == 0
            <==> frame_prefix_silent(front, back, n as int),
        scan_state(front, back, width, default_fg, default_bg, n).seen <==> !frame_prefix_silent(
            front,
            back,
            n as int,
        ),
    decreases n,
{
    if n > 0 {
        lemma_silent_scan(front, back, width, default_fg, default_bg, (n - 1) as nat);
        if !frame_prefix_silent(front, back, n - 1) {
            let i = choose|i: int| 0 <= i < n - 1 && differs(front[i], back[i]);
            assert(differs(front[i], back[i]));
        }
    }
}

} // verus!
