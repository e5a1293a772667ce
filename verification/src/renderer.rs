//! Compositors, and what content needs of the thing it is drawn on.

use vstd::prelude::*;

use crate::color::Color;
use crate::drawable::Drawable;
use crate::math::{Axis, Position, Size};
use crate::pixel::{Pixel, PixelView};
use crate::rasterizer::{Command, Rasterizer};
use crate::surface::index_at;

pub mod basic_renderer;
pub mod diff;
pub mod laws;
pub mod recorder;
pub mod surface_renderer;

pub use basic_renderer::BasicRenderer;
pub use recorder::Recorder;
pub use surface_renderer::SurfaceRenderer;

verus! {

/// How a cell that is written relates to the cell that is already there.
#[derive(Copy, Clone, Default, Debug, PartialEq, Eq, Structural)]
pub enum BlendMode {
    /// The colours of the new cell are blended over the old ones by their
    /// alpha.
    Blend,
    /// The new cell replaces the old one.
    #[default]
    Replace,
}

/// One cell that is put somewhere, as a mathematical value.
pub struct Placement {
    pub pos: Position<i32>,
    pub pixel: PixelView,
    pub blend: BlendMode,
}

/// Something that cells can be put on.
///
/// What a placer holds is its canvas, and `applied` says what putting one
/// cell makes of a canvas. A put changes the canvas accordingly and leaves
/// the size and the rule itself as they are.
pub trait Placer: Sized {
    /// What the placer holds, as a mathematical value.
    type Canvas;

    /// Whether the placer is in a state in which it can be used.
    spec fn inv(&self) -> bool;

    /// The size of the area that can be drawn on.
    spec fn extent(&self) -> Size<u32>;

    /// What the placer holds.
    spec fn canvas(&self) -> Self::Canvas;

    /// What putting `item` makes of `canvas`.
    spec fn applied(&self, canvas: Self::Canvas, item: Placement) -> Self::Canvas;

    fn put(&mut self, pos: Position<i32>, pixel: Pixel, blend: BlendMode)
        requires
            old(self).inv(),
        ensures
            final(self).inv(),
            final(self).extent() == old(self).extent(),
            final(self).canvas() == old(self).applied(
                old(self).canvas(),
                Placement { pos, pixel: pixel@, blend },
            ),
            forall|canvas: Self::Canvas, item: Placement| #[trigger]
                final(self).applied(canvas, item) == old(self).applied(canvas, item),
    ;

    fn size(&self) -> (r: Size<u32>)
        requires
            self.inv(),
        ensures
            r == self.extent(),
    ;
}

/// Whether putting a cell means the same to both placers.
pub open spec fn same_rules<P: Placer>(a: &P, b: &P) -> bool {
    forall|canvas: P::Canvas, item: Placement| #[trigger]
        a.applied(canvas, item) == b.applied(canvas, item)
}

/// What putting `items` one after the other makes of `canvas`.
pub open spec fn drawn<P: Placer>(placer: &P, canvas: P::Canvas, items: Seq<Placement>) -> P::Canvas
    decreases items.len(),
{
    if items.len() == 0 {
        canvas
    } else {
        placer.applied(drawn(placer, canvas, items.drop_last()), items.last())
    }
}

/// Putting one more cell after a sequence of cells.
pub proof fn lemma_drawn_push<P: Placer>(
    placer: &P,
    canvas: P::Canvas,
    items: Seq<Placement>,
    item: Placement,
)
    ensures
        drawn(placer, canvas, items.push(item)) == placer.applied(
            drawn(placer, canvas, items),
            item,
        ),
{
    assert(items.push(item).drop_last() =~= items);
}

/// What a grid of cells of the given size becomes when `item` is written
/// over the cell at its position in its mode; a position outside the grid
/// leaves the grid as it is.
pub open spec fn merged_at(cells: Seq<PixelView>, extent: Size<u32>, item: Placement) -> Seq<
    PixelView,
> {
    match index_at(extent, Position { x: 0i32, y: 0i32 }, item.pos) {
        Some(i) => cells.update(i, crate::pixel::merged(cells[i], item.pixel, item.blend)),
        None => cells,
    }
}

/// What a grid of cells of the given size becomes when `item` replaces the
/// cell at its position; a position outside the grid leaves the grid as it
/// is.
pub open spec fn replaced_at(cells: Seq<PixelView>, extent: Size<u32>, item: Placement) -> Seq<
    PixelView,
> {
    match index_at(extent, Position { x: 0i32, y: 0i32 }, item.pos) {
        Some(i) => cells.update(i, item.pixel),
        None => cells,
    }
}

/// The default colours of a compositor.
pub trait RendererSetup {
    /// Whether the compositor is in a state in which it can be used.
    spec fn ready(&self) -> bool;

    /// The colours that stand in for a default foreground and background.
    spec fn defaults(&self) -> (Color, Color);

    fn default_colors(&self) -> (r: (Color, Color))
        requires
            self.ready(),
        ensures
            r == self.defaults(),
    ;

    /// Sets the default foreground. A transparent colour cannot be a
    /// default and counts as `Color::Default`.
    fn set_default_fg(&mut self, default_fg: Color)
        requires
            old(self).ready(),
        ensures
            final(self).ready(),
            final(self).defaults() == (
                crate::renderer::surface_renderer::as_default(default_fg),
                old(self).defaults().1,
            ),
    ;

    /// Sets the default background. A transparent colour cannot be a
    /// default and counts as `Color::Default`.
    fn set_default_bg(&mut self, default_bg: Color)
        requires
            old(self).ready(),
        ensures
            final(self).ready(),
            final(self).defaults() == (
                old(self).defaults().0,
                crate::renderer::surface_renderer::as_default(default_bg),
            ),
    ;
}

/// The cells of the rectangle from column `x0` up to `x1` and from row `y0`
/// up to `y1`, row by row, each holding `pixel`.
pub open spec fn rect_items(
    x0: int,
    x1: int,
    y0: int,
    y1: int,
    pixel: PixelView,
    blend: BlendMode,
) -> Seq<Placement> {
    if x0 < x1 && y0 < y1 {
        Seq::new(
            ((x1 - x0) * (y1 - y0)) as nat,
            |k: int|
                Placement {
                    pos: Position { x: (x0 + k % (x1 - x0)) as i32, y: (y0 + k / (x1 - x0)) as i32 },
                    pixel,
                    blend,
                },
        )
    } else {
        Seq::empty()
    }
}

/// Puts a copy of `pixel` on every cell of the rectangle from column `x0` up
/// to `x1` and from row `y0` up to `y1`, row by row.
pub fn put_rect<P: Placer>(
    placer: &mut P,
    x0: i64,
    x1: i64,
    y0: i64,
    y1: i64,
    pixel: &Pixel,
    blend: BlendMode,
)
    requires
        old(placer).inv(),
        i32::MIN <= x0,
        x1 <= i32::MAX + 1,
        i32::MIN <= y0,
        y1 <= i32::MAX + 1,
    ensures
        final(placer).inv(),
        final(placer).extent() == old(placer).extent(),
        same_rules(final(placer), old(placer)),
        final(placer).canvas() == drawn(
            old(placer),
            old(placer).canvas(),
            rect_items(x0 as int, x1 as int, y0 as int, y1 as int, pixel@, blend),
        ),
{
    if x0 >= x1 || y0 >= y1 {
        return ;
    }
    let ghost all = rect_items(x0 as int, x1 as int, y0 as int, y1 as int, pixel@, blend);
    let ghost w = (x1 - x0) as int;
    let mut y: i64 = y0;
    while y < y1
        invariant
            x0 < x1,
            y0 <= y <= y1,
            i32::MIN <= x0,
            x1 <= i32::MAX + 1,
            i32::MIN <= y0,
            y1 <= i32::MAX + 1,
            w == x1 - x0,
            all == rect_items(x0 as int, x1 as int, y0 as int, y1 as int, pixel@, blend),
            all.len() == w * (y1 - y0),
            placer.inv(),
            placer.extent() == old(placer).extent(),
            same_rules(placer, old(placer)),
            0 <= (y - y0) * w <= all.len(),
            placer.canvas() == drawn(old(placer), old(placer).canvas(), all.take((y - y0) * w)),
        decreases y1 - y,
    {
        let mut x: i64 = x0;
        proof {
            assert((y - y0) * w + w <= w * (y1 - y0)) by (nonlinear_arith)
                requires
                    y - y0 + 1 <= y1 - y0,
                    0 < w,
            ;
        }
        while x < x1
            invariant
                x0 <= x <= x1,
                y0 <= y < y1,
                i32::MIN <= x0,
                x1 <= i32::MAX + 1,
                i32::MIN <= y0,
                y1 <= i32::MAX + 1,
                w == x1 - x0,
                all == rect_items(x0 as int, x1 as int, y0 as int, y1 as int, pixel@, blend),
                all.len() == w * (y1 - y0),
                placer.inv(),
                placer.extent() == old(placer).extent(),
                same_rules(placer, old(placer)),
                0 <= (y - y0) * w,
                (y - y0) * w + w <= all.len(),
                placer.canvas() == drawn(
                    old(placer),
                    old(placer).canvas(),
                    all.take((y - y0) * w + (x - x0)),
                ),
            decreases x1 - x,
        {
            let ghost k = (y - y0) * w + (x - x0);
            let ghost before = *placer;
            placer.put(Position { x: x as i32, y: y as i32 }, pixel.clone(), blend);
            proof {
                vstd::arithmetic::div_mod::lemma_fundamental_div_mod_converse(
                    k,
                    w,
                    (y - y0) as int,
                    (x - x0) as int,
                );
                assert(all[k] == (Placement {
                    pos: Position { x: x as i32, y: y as i32 },
                    pixel: pixel@,
                    blend,
                }));
                assert(all.take(k + 1) =~= all.take(k).push(all[k]));
                lemma_drawn_push(old(placer), old(placer).canvas(), all.take(k), all[k]);
                assert(before.applied(before.canvas(), all[k]) == old(placer).applied(
                    before.canvas(),
                    all[k],
                ));
            }
            x += 1;
        }
        proof {
            assert((y + 1 - y0) * w == (y - y0) * w + w) by (nonlinear_arith);
        }
        y += 1;
    }
    proof {
        assert((y1 - y0) * w == w * (y1 - y0)) by (nonlinear_arith);
        assert(all.take(all.len() as int) =~= all);
    }
}

/// The smaller of the two numbers.
fn at_most(a: u32, b: u32) -> (r: u32)
    ensures
        r == (if a <= b {
            a
        } else {
            b
        }),
{
    if a <= b {
        a
    } else {
        b
    }
}

/// A compositor: a grid of cells that content is drawn on and that is
/// rendered to a sink.
pub trait Renderer: RendererSetup + Placer<Canvas = Seq<PixelView>> {
    /// The commands that rendering emits.
    spec fn frame(&self) -> Seq<Command>;

    /// The canvas holds one cell for each place of the grid, and every
    /// place can be addressed with signed coordinates.
    proof fn lemma_grid(&self)
        requires
            self.inv(),
        ensures
            self.canvas().len() == self.extent().width * self.extent().height,
            self.extent().width <= i32::MAX,
            self.extent().height <= i32::MAX,
    ;

    /// The cell at `pos`, or `None` where `pos` lies outside the grid.
    fn get(&self, pos: Position<i32>) -> (r: Option<&Pixel>)
        requires
            self.inv(),
        ensures
            match index_at(self.extent(), Position { x: 0i32, y: 0i32 }, pos) {
                Some(i) => r is Some && r.unwrap()@ == self.canvas()[i],
                None => r is None,
            },
    ;

    /// Puts `pixel` in the place of the cell at `pos` and hands back what
    /// was there; a position outside the grid is ignored and gives `None`.
    fn replace(&mut self, pos: Position<i32>, pixel: Pixel) -> (r: Option<Pixel>)
        requires
            old(self).inv(),
        ensures
            final(self).inv(),
            final(self).extent() == old(self).extent(),
            same_rules(final(self), old(self)),
            match index_at(old(self).extent(), Position { x: 0i32, y: 0i32 }, pos) {
                Some(i) => r is Some && r.unwrap()@ == old(self).canvas()[i] && final(self).canvas()
                    == old(self).canvas().update(i, pixel@),
                None => r is None && final(self).canvas() == old(self).canvas(),
            },
    ;

    /// Replaces the cell at `pos` by what `patch` makes of it. A position
    /// outside the grid is ignored.
    fn patch<F: Fn(Pixel) -> Pixel>(&mut self, pos: Position<i32>, patch: F)
        requires
            old(self).inv(),
            forall|p: Pixel| call_requires(patch, (p,)),
        ensures
            final(self).inv(),
            final(self).extent() == old(self).extent(),
            same_rules(final(self), old(self)),
            match index_at(old(self).extent(), Position { x: 0i32, y: 0i32 }, pos) {
                Some(i) => exists|before: Pixel, after: Pixel|
                    {
                        &&& before@ == old(self).canvas()[i]
                        &&& call_ensures(patch, (before,), after)
                        &&& final(self).canvas() == old(self).canvas().update(i, after@)
                    },
                None => final(self).canvas() == old(self).canvas(),
            },
    {
        proof {
            self.lemma_grid();
            lemma_index_at(self.extent(), pos);
        }
        match self.replace(pos, Pixel::empty()) {
            Some(before) => {
                let ghost taken = before;
                let ghost i = index_at(self.extent(), Position { x: 0i32, y: 0i32 }, pos).unwrap();
                let after = patch(before);
                self.replace(pos, after);
                proof {
                    assert(self.canvas() =~= old(self).canvas().update(i, after@));
                    assert(call_ensures(patch, (taken,), after));
                }
            },
            None => {},
        }
    }

    /// The cell that clearing puts everywhere.
    spec fn blank(&self) -> PixelView;

    /// Puts a blank cell everywhere.
    fn clear(&mut self)
        requires
            old(self).inv(),
        ensures
            final(self).inv(),
            final(self).extent() == old(self).extent(),
            same_rules(final(self), old(self)),
            final(self).canvas() == drawn(
                old(self),
                old(self).canvas(),
                rect_items(
                    0,
                    old(self).extent().width as int,
                    0,
                    old(self).extent().height as int,
                    old(self).blank(),
                    BlendMode::Replace,
                ),
            ),
    ;

    /// Puts a copy of `pixel` on every cell from `pos` up to the column and
    /// the row that `size` names, and no further than the grid goes. A `pos`
    /// with a negative coordinate is ignored.
    fn fill(&mut self, pos: Position<i32>, size: Size<u32>, pixel: Pixel, blend: BlendMode)
        requires
            old(self).inv(),
        ensures
            final(self).inv(),
            final(self).extent() == old(self).extent(),
            same_rules(final(self), old(self)),
            final(self).canvas() == drawn(
                old(self),
                old(self).canvas(),
                fill_items(old(self).extent(), pos, size, pixel@, blend),
            ),
    {
        if pos.x < 0 || pos.y < 0 {
            return ;
        }
        let ours = self.size();
        proof {
            self.lemma_grid();
        }
        let w = at_most(size.width, ours.width);
        let h = at_most(size.height, ours.height);
        put_rect(self, pos.x as i64, w as i64, pos.y as i64, h as i64, &pixel, blend);
    }

    /// Replaces every cell from `pos` up to the column and the row that
    /// `size` names, and no further than the grid goes, by what `patch`
    /// makes of the cell and its position. A `pos` with a negative coordinate
    /// is ignored.
    fn patch_area<F: Fn(Position<i32>, Pixel) -> Pixel>(
        &mut self,
        pos: Position<i32>,
        size: Size<u32>,
        patch: F,
    )
        requires
            old(self).inv(),
            forall|at: Position<i32>, p: Pixel| call_requires(patch, (at, p)),
        ensures
            final(self).inv(),
            final(self).extent() == old(self).extent(),
            same_rules(final(self), old(self)),
            final(self).canvas().len() == old(self).canvas().len(),
            forall|i: int|
                0 <= i < old(self).canvas().len() ==> (if area_covers(
                    old(self).extent(),
                    pos,
                    size,
                    i,
                ) {
                    patched(
                        patch,
                        cell_position(old(self).extent(), i),
                        old(self).canvas()[i],
                        #[trigger] final(self).canvas()[i],
                    )
                } else {
                    final(self).canvas()[i] == old(self).canvas()[i]
                }),
    {
        if pos.x < 0 || pos.y < 0 {
            return ;
        }
        let ours = self.size();
        proof {
            self.lemma_grid();
        }
        let w = at_most(size.width, ours.width);
        let h = at_most(size.height, ours.height);
        let ghost cells = self.canvas();
        let mut y: u32 = pos.y as u32;
        while y < h
            invariant
                self.inv(),
                self.extent() == old(self).extent(),
                ours == self.extent(),
                same_rules(self, old(self)),
                cells == old(self).canvas(),
                self.canvas().len() == cells.len(),
                cells.len() == ours.width * ours.height,
                ours.width <= i32::MAX,
                ours.height <= i32::MAX,
                pos.x >= 0,
                pos.y >= 0,
                w == (if size.width <= ours.width {
                    size.width
                } else {
                    ours.width
                }),
                h == (if size.height <= ours.height {
                    size.height
                } else {
                    ours.height
                }),
                forall|at: Position<i32>, p: Pixel| call_requires(patch, (at, p)),
                pos.y <= y,
                forall|i: int|
                    0 <= i < cells.len() ==> (if area_covers(ours, pos, size, i) && i / (
                    ours.width as int) < y {
                        patched(patch, cell_position(ours, i), cells[i], #[trigger] self.canvas()[i])
                    } else {
                        self.canvas()[i] == cells[i]
                    }),
            decreases h - y,
        {
            let mut x: u32 = pos.x as u32;
            while x < w
                invariant
                    self.inv(),
                    self.extent() == old(self).extent(),
                    ours == self.extent(),
                    same_rules(self, old(self)),
                    cells == old(self).canvas(),
                    self.canvas().len() == cells.len(),
                    cells.len() == ours.width * ours.height,
                    ours.width <= i32::MAX,
                    ours.height <= i32::MAX,
                    pos.x >= 0,
                    pos.y >= 0,
                    w == (if size.width <= ours.width {
                        size.width
                    } else {
                        ours.width
                    }),
                    h == (if size.height <= ours.height {
                        size.height
                    } else {
                        ours.height
                    }),
                    forall|at: Position<i32>, p: Pixel| call_requires(patch, (at, p)),
                    pos.y <= y < h,
                    pos.x <= x,
                    forall|i: int|
                        0 <= i < cells.len() ==> (if area_covers(ours, pos, size, i) && (i / (
                        ours.width as int) < y || (i / (ours.width as int) == y && i % (
                        ours.width as int) < x)) {
                            patched(
                                patch,
                                cell_position(ours, i),
                                cells[i],
                                #[trigger] self.canvas()[i],
                            )
                        } else {
                            self.canvas()[i] == cells[i]
                        }),
                decreases w - x,
            {
                let at = Position { x: x as i32, y: y as i32 };
                let ghost n = crate::surface::cell_index(ours.width as int, x as int, y as int);
                let ghost before = self.canvas();
                proof {
                    crate::surface::lemma_cell_index_in_range(
                        ours.width as int,
                        ours.height as int,
                        x as int,
                        y as int,
                    );
                    vstd::arithmetic::div_mod::lemma_fundamental_div_mod_converse(
                        n,
                        ours.width as int,
                        y as int,
                        x as int,
                    );
                }
                proof {
                    assert(index_at(ours, Position { x: 0i32, y: 0i32 }, at) == Some(n));
                }
                match self.replace(at, Pixel::empty()) {
                    Some(taken) => {
                        let ghost shown = taken;
                        let after = patch(at, taken);
                        self.replace(at, after);
                        proof {
                            assert(self.canvas() =~= before.update(n, after@));
                            assert(shown@ == cells[n]);
                            assert(call_ensures(patch, (at, shown), after));
                        }
                    },
                    None => {},
                }
                proof {
                    assert(cell_position(ours, n) == at);
                    assert(area_covers(ours, pos, size, n));
                    assert(patched(patch, at, cells[n], self.canvas()[n]));
                    assert forall|i: int| 0 <= i < cells.len() implies (if area_covers(
                        ours,
                        pos,
                        size,
                        i,
                    ) && (i / (ours.width as int) < y || (i / (ours.width as int) == y && i % (
                    ours.width as int) < x + 1)) {
                        patched(patch, cell_position(ours, i), cells[i], #[trigger] self.canvas()[i])
                    } else {
                        self.canvas()[i] == cells[i]
                    }) by {
                        crate::surface::lemma_index_to_cell(
                            ours.width as int,
                            ours.height as int,
                            i,
                        );
                        if i != n {
                            assert(self.canvas()[i] == before[i]);
                            vstd::arithmetic::div_mod::lemma_fundamental_div_mod(
                                i,
                                ours.width as int,
                            );
                            assert(ours.width * (i / (ours.width as int)) == (i / (
                            ours.width as int)) * ours.width) by (nonlinear_arith);
                        }
                    }
                }
                x += 1;
            }
            proof {
                assert forall|i: int| 0 <= i < cells.len() implies (if area_covers(ours, pos, size, i) && i / (
                ours.width as int) < y + 1 {
                    patched(patch, cell_position(ours, i), cells[i], #[trigger] self.canvas()[i])
                } else {
                    self.canvas()[i] == cells[i]
                }) by {
                    crate::surface::lemma_index_to_cell(ours.width as int, ours.height as int, i);
                }
            }
            y += 1;
        }
        proof {
            assert forall|i: int| 0 <= i < cells.len() implies (if area_covers(ours, pos, size, i) {
                patched(patch, cell_position(ours, i), cells[i], #[trigger] self.canvas()[i])
            } else {
                self.canvas()[i] == cells[i]
            }) by {
                crate::surface::lemma_index_to_cell(ours.width as int, ours.height as int, i);
            }
        }
    }

    /// Replaces every cell of the grid from `origin` up to the column and
    /// the row that `size` names by what `with` gives for its position.
    fn fill_with<F: Fn(Position<u32>) -> Pixel>(
        &mut self,
        origin: Position<u32>,
        size: Size<u32>,
        with: F,
    )
        requires
            old(self).inv(),
            forall|at: Position<u32>| call_requires(with, (at,)),
        ensures
            final(self).inv(),
            final(self).extent() == old(self).extent(),
            same_rules(final(self), old(self)),
            final(self).canvas().len() == old(self).canvas().len(),
            forall|i: int|
                0 <= i < old(self).canvas().len() ==> (if span_covers(
                    old(self).extent(),
                    origin,
                    size,
                    i,
                ) {
                    given(
                        with,
                        unsigned_position(old(self).extent(), i),
                        #[trigger] final(self).canvas()[i],
                    )
                } else {
                    final(self).canvas()[i] == old(self).canvas()[i]
                }),
    {
        let ours = self.size();
        proof {
            self.lemma_grid();
        }
        let w = at_most(size.width, ours.width);
        let h = at_most(size.height, ours.height);
        let ghost cells = self.canvas();
        let mut y: u32 = origin.y;
        while y < h
            invariant
                self.inv(),
                self.extent() == old(self).extent(),
                ours == self.extent(),
                same_rules(self, old(self)),
                cells == old(self).canvas(),
                self.canvas().len() == cells.len(),
                cells.len() == ours.width * ours.height,
                ours.width <= i32::MAX,
                ours.height <= i32::MAX,
                w == (if size.width <= ours.width {
                    size.width
                } else {
                    ours.width
                }),
                h == (if size.height <= ours.height {
                    size.height
                } else {
                    ours.height
                }),
                forall|at: Position<u32>| call_requires(with, (at,)),
                origin.y <= y,
                forall|i: int|
                    0 <= i < cells.len() ==> (if span_covers(ours, origin, size, i) && i / (
                    ours.width as int) < y {
                        given(with, unsigned_position(ours, i), #[trigger] self.canvas()[i])
                    } else {
                        self.canvas()[i] == cells[i]
                    }),
            decreases h - y,
        {
            let mut x: u32 = origin.x;
            while x < w
                invariant
                    self.inv(),
                    self.extent() == old(self).extent(),
                    ours == self.extent(),
                    same_rules(self, old(self)),
                    cells == old(self).canvas(),
                    self.canvas().len() == cells.len(),
                    cells.len() == ours.width * ours.height,
                    ours.width <= i32::MAX,
                    ours.height <= i32::MAX,
                    w == (if size.width <= ours.width {
                        size.width
                    } else {
                        ours.width
                    }),
                    h == (if size.height <= ours.height {
                        size.height
                    } else {
                        ours.height
                    }),
                    forall|at: Position<u32>| call_requires(with, (at,)),
                    origin.y <= y < h,
                    origin.x <= x,
                    forall|i: int|
                        0 <= i < cells.len() ==> (if span_covers(ours, origin, size, i) && (i / (
                        ours.width as int) < y || (i / (ours.width as int) == y && i % (
                        ours.width as int) < x)) {
                            given(with, unsigned_position(ours, i), #[trigger] self.canvas()[i])
                        } else {
                            self.canvas()[i] == cells[i]
                        }),
                decreases w - x,
            {
                let place = Position { x, y };
                let at = Position { x: x as i32, y: y as i32 };
                let ghost n = crate::surface::cell_index(ours.width as int, x as int, y as int);
                let ghost before = self.canvas();
                proof {
                    crate::surface::lemma_cell_index_in_range(
                        ours.width as int,
                        ours.height as int,
                        x as int,
                        y as int,
                    );
                    vstd::arithmetic::div_mod::lemma_fundamental_div_mod_converse(
                        n,
                        ours.width as int,
                        y as int,
                        x as int,
                    );
                }
                proof {
                    assert(index_at(ours, Position { x: 0i32, y: 0i32 }, at) == Some(n));
                }
                let cell = with(place);
                let ghost made = cell;
                self.replace(at, cell);
                proof {
                    assert(self.canvas() =~= before.update(n, made@));
                    assert(call_ensures(with, (place,), made));
                    assert(unsigned_position(ours, n) == place);
                    assert(span_covers(ours, origin, size, n));
                    assert(given(with, place, self.canvas()[n]));
                    assert forall|i: int| 0 <= i < cells.len() implies (if span_covers(
                        ours,
                        origin,
                        size,
                        i,
                    ) && (i / (ours.width as int) < y || (i / (ours.width as int) == y && i % (
                    ours.width as int) < x + 1)) {
                        given(with, unsigned_position(ours, i), #[trigger] self.canvas()[i])
                    } else {
                        self.canvas()[i] == cells[i]
                    }) by {
                        crate::surface::lemma_index_to_cell(
                            ours.width as int,
                            ours.height as int,
                            i,
                        );
                        if i != n {
                            assert(self.canvas()[i] == before[i]);
                            vstd::arithmetic::div_mod::lemma_fundamental_div_mod(
                                i,
                                ours.width as int,
                            );
                            assert(ours.width * (i / (ours.width as int)) == (i / (
                            ours.width as int)) * ours.width) by (nonlinear_arith);
                        }
                    }
                }
                x += 1;
            }
            proof {
                assert forall|i: int| 0 <= i < cells.len() implies (if span_covers(ours, origin, size, i) && i / (
                ours.width as int) < y + 1 {
                    given(with, unsigned_position(ours, i), #[trigger] self.canvas()[i])
                } else {
                    self.canvas()[i] == cells[i]
                }) by {
                    crate::surface::lemma_index_to_cell(ours.width as int, ours.height as int, i);
                }
            }
            y += 1;
        }
        proof {
            assert forall|i: int| 0 <= i < cells.len() implies (if span_covers(ours, origin, size, i) {
                given(with, unsigned_position(ours, i), #[trigger] self.canvas()[i])
            } else {
                self.canvas()[i] == cells[i]
            }) by {
                crate::surface::lemma_index_to_cell(ours.width as int, ours.height as int, i);
            }
        }
    }

    /// Draws `render` at the top left corner.
    fn draw<D: Drawable>(&mut self, render: D, blend: BlendMode)
        requires
            old(self).inv(),
            render.fits(old(self).extent(), Position { x: 0i32, y: 0i32 }),
        ensures
            final(self).inv(),
            final(self).extent() == old(self).extent(),
            same_rules(final(self), old(self)),
            final(self).canvas() == drawn(
                old(self),
                old(self).canvas(),
                render.placements(old(self).extent(), Position { x: 0i32, y: 0i32 }, blend),
            ),
    {
        render.draw(self, Position { x: 0, y: 0 }, blend);
    }

    /// Emits the frame to `rasterizer`. What the frame is, and what becomes
    /// of the grid, is for each compositor to say. The first command that
    /// the sink refuses ends the rendering with the sink's error.
    fn render<R: Rasterizer>(&mut self, rasterizer: &mut R) -> (r: Result<(), R::Error>)
        requires
            old(self).inv(),
        ensures
            final(self).inv(),
            final(self).extent() == old(self).extent(),
            r is Ok ==> final(rasterizer).commands() == old(rasterizer).commands() + old(
                self,
            ).frame(),
            r is Ok <==> final(rasterizer).refusals() == old(rasterizer).refusals(),
            r matches Err(e) ==> crate::rasterizer::stopped(
                *old(rasterizer),
                *final(rasterizer),
                old(self).frame(),
                e,
            ),
    ;
}

/// A position that lies in a grid stands for a place in its buffer.
pub proof fn lemma_index_at(extent: Size<u32>, pos: Position<i32>)
    ensures
        index_at(extent, Position { x: 0i32, y: 0i32 }, pos) matches Some(i) ==> 0 <= i
            < extent.width * extent.height,
{
    if index_at(extent, Position { x: 0i32, y: 0i32 }, pos) is Some {
        crate::surface::lemma_cell_index_in_range(
            extent.width as int,
            extent.height as int,
            pos.x as int,
            pos.y as int,
        );
    }
}

/// The position of the `i`-th cell of a grid of the given extent.
pub open spec fn cell_position(extent: Size<u32>, i: int) -> Position<i32> {
    Position { x: (i % (extent.width as int)) as i32, y: (i / (extent.width as int)) as i32 }
}

/// The position of the `i`-th cell of a grid of the given extent, with
/// unsigned coordinates.
pub open spec fn unsigned_position(extent: Size<u32>, i: int) -> Position<u32> {
    Position { x: (i % (extent.width as int)) as u32, y: (i / (extent.width as int)) as u32 }
}

/// Whether the `i`-th cell of a grid of the given extent lies in the area
/// from `pos` up to the column and the row that `size` names.
pub open spec fn area_covers(extent: Size<u32>, pos: Position<i32>, size: Size<u32>, i: int) -> bool {
    let x = i % (extent.width as int);
    let y = i / (extent.width as int);
    &&& 0 <= pos.x <= x < size.width
    &&& 0 <= pos.y <= y < size.height
}

/// Whether the `i`-th cell of a grid of the given extent lies in the span
/// from `origin` up to the column and the row that `size` names.
pub open spec fn span_covers(extent: Size<u32>, origin: Position<u32>, size: Size<u32>, i: int) -> bool {
    let x = i % (extent.width as int);
    let y = i / (extent.width as int);
    &&& origin.x <= x < size.width
    &&& origin.y <= y < size.height
}

/// Whether `after` is what `patch` can make of a cell that shows `before`
/// at `at`.
pub open spec fn patched<F: Fn(Position<i32>, Pixel) -> Pixel>(
    patch: F,
    at: Position<i32>,
    before: PixelView,
    after: PixelView,
) -> bool {
    exists|b: Pixel, a: Pixel| b@ == before && call_ensures(patch, (at, b), a) && a@ == after
}

/// Whether `cell` is what `with` can give for the position `at`.
pub open spec fn given<F: Fn(Position<u32>) -> Pixel>(
    with: F,
    at: Position<u32>,
    cell: PixelView,
) -> bool {
    exists|p: Pixel| call_ensures(with, (at,), p) && p@ == cell
}

/// The cells that filling from `pos` up to `size` puts on a grid of the
/// given extent.
pub open spec fn fill_items(
    extent: Size<u32>,
    pos: Position<i32>,
    size: Size<u32>,
    pixel: PixelView,
    blend: BlendMode,
) -> Seq<Placement> {
    if pos.x < 0 || pos.y < 0 {
        Seq::empty()
    } else {
        rect_items(
            pos.x as int,
            (if size.width <= extent.width {
                size.width
            } else {
                extent.width
            }) as int,
            pos.y as int,
            (if size.height <= extent.height {
                size.height
            } else {
                extent.height
            }) as int,
            pixel,
            blend,
        )
    }
}

/// The cells of a line along `axis`: from `from` to `to`, both included,
/// along the axis, at the place across it that `offset` names.
pub open spec fn line_items(
    axis: Axis,
    offset: Position<i32>,
    from: i32,
    to: i32,
    pixel: PixelView,
    blend: BlendMode,
) -> Seq<Placement> {
    match axis {
        Axis::Horizontal => rect_items(
            from as int,
            to + 1,
            offset.y as int,
            offset.y + 1,
            pixel,
            blend,
        ),
        Axis::Vertical => rect_items(
            offset.x as int,
            offset.x + 1,
            from as int,
            to + 1,
            pixel,
            blend,
        ),
    }
}

/// Lines, for every placer.
pub trait PlacerExt: Placer {
    /// Puts one cell.
    fn set(&mut self, pos: Position<i32>, pixel: Pixel, blend: BlendMode)
        requires
            old(self).inv(),
        ensures
            final(self).inv(),
            final(self).extent() == old(self).extent(),
            same_rules(final(self), old(self)),
            final(self).canvas() == old(self).applied(
                old(self).canvas(),
                Placement { pos, pixel: pixel@, blend },
            ),
    {
        self.put(pos, pixel, blend);
    }

    /// Puts `pixel` on the cells of row `start.y` from column `from` to
    /// column `to`, both included.
    fn horizontal_line(
        &mut self,
        start: Position<i32>,
        from: i32,
        to: i32,
        pixel: Pixel,
        blend: BlendMode,
    )
        requires
            old(self).inv(),
        ensures
            final(self).inv(),
            final(self).extent() == old(self).extent(),
            same_rules(final(self), old(self)),
            final(self).canvas() == drawn(
                old(self),
                old(self).canvas(),
                line_items(Axis::Horizontal, start, from, to, pixel@, blend),
            ),
    {
        self.line(Axis::Horizontal, start, from, to, pixel, blend);
    }

    /// Puts `pixel` on the cells of column `start.x` from row `from` to row
    /// `to`, both included.
    fn vertical_line(
        &mut self,
        start: Position<i32>,
        from: i32,
        to: i32,
        pixel: Pixel,
        blend: BlendMode,
    )
        requires
            old(self).inv(),
        ensures
            final(self).inv(),
            final(self).extent() == old(self).extent(),
            same_rules(final(self), old(self)),
            final(self).canvas() == drawn(
                old(self),
                old(self).canvas(),
                line_items(Axis::Vertical, start, from, to, pixel@, blend),
            ),
    {
        self.line(Axis::Vertical, start, from, to, pixel, blend);
    }

    /// Puts `pixel` on the cells of a line along `axis`. A line whose end
    /// lies before its start has no cell.
    fn line(
        &mut self,
        axis: Axis,
        offset: Position<i32>,
        from: i32,
        to: i32,
        pixel: Pixel,
        blend: BlendMode,
    )
        requires
            old(self).inv(),
        ensures
            final(self).inv(),
            final(self).extent() == old(self).extent(),
            same_rules(final(self), old(self)),
            final(self).canvas() == drawn(
                old(self),
                old(self).canvas(),
                line_items(axis, offset, from, to, pixel@, blend),
            ),
    {
        let cross: i32 = axis.cross((offset.x, offset.y));
        let start: (i32, i32) = axis.pack(from, cross);
        let end: (i32, i32) = axis.pack(to, cross);
        put_rect(
            self,
            start.0 as i64,
            end.0 as i64 + 1,
            start.1 as i64,
            end.1 as i64 + 1,
            &pixel,
            blend,
        );
    }
}

impl<T: Placer> PlacerExt for T {
}

} // verus!
