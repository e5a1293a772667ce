//! A compositor that paints every cell on every frame.

use vstd::prelude::*;

use super::diff::{bg_commands, fg_commands};
use super::surface_renderer::{as_default, lemma_views_update, views};
use super::{replaced_at, BlendMode, Placement, Placer, Renderer, RendererSetup};
use crate::color::Color;
use crate::math::{Position, Size};
use crate::pixel::{empty_view, Pixel, PixelView};
use crate::rasterizer::{
    cut_short, lemma_cut_short_first, lemma_cut_short_second, refused_command, stopped, Command,
    Rasterizer,
};
use crate::surface::{
    cell_index, index_at, lemma_cell_index_in_range, lemma_cell_to_index, ResizeMode, Surface,
};

verus! {

/// What a full paint remembers of the cells it has written.
pub struct CursorState {
    /// The cell that was last written.
    pub previous: Option<Position<u32>>,
    /// The foreground colour that was last set.
    pub prev_fg: Color,
    /// The background colour that was last set.
    pub prev_bg: Color,
}

/// Whether the cursor has to be moved to reach `pos` after `previous` was
/// written: it has not where `pos` is the next cell to the right.
pub open spec fn needs_move(previous: Option<Position<u32>>, pos: Position<u32>) -> bool {
    match previous {
        Some(last) => last.y != pos.y || last.x + 1 != pos.x,
        None => true,
    }
}

/// The state in which a full paint starts.
pub open spec fn start_state() -> CursorState {
    CursorState { previous: None, prev_fg: Color::Default, prev_bg: Color::Default }
}

/// The commands that paint one cell, from the state `s`.
pub open spec fn paint_commands(
    s: CursorState,
    pos: Position<u32>,
    cell: PixelView,
    default_fg: Color,
    default_bg: Color,
) -> Seq<Command> {
    (if needs_move(s.previous, pos) {
        seq![Command::MoveTo(Position { x: pos.x as i32, y: pos.y as i32 })]
    } else {
        Seq::empty()
    }) + fg_commands(s.prev_fg, cell.foreground.spec_get_or_default(default_fg)) + bg_commands(
        s.prev_bg,
        cell.background.spec_get_or_default(default_bg),
    ) + seq![Command::Write(cell.data.text())]
}

/// The state after one cell was painted.
pub open spec fn paint_state(
    s: CursorState,
    pos: Position<u32>,
    cell: PixelView,
    default_fg: Color,
    default_bg: Color,
) -> CursorState {
    CursorState {
        previous: Some(pos),
        prev_fg: cell.foreground.spec_get_or_default(default_fg),
        prev_bg: cell.background.spec_get_or_default(default_bg),
    }
}

/// The position of the `i`-th cell of a grid with rows of `width` cells.
pub open spec fn place_of(width: int, i: int) -> Position<u32> {
    Position { x: (i % width) as u32, y: (i / width) as u32 }
}

/// The state of a full paint after the first `n` cells.
pub open spec fn painted_state(
    cells: Seq<PixelView>,
    width: int,
    default_fg: Color,
    default_bg: Color,
    n: nat,
) -> CursorState
    decreases n,
{
    if n == 0 {
        start_state()
    } else {
        paint_state(
            painted_state(cells, width, default_fg, default_bg, (n - 1) as nat),
            place_of(width, n - 1),
            cells[n - 1],
            default_fg,
            default_bg,
        )
    }
}

/// The commands that a full paint emits for the first `n` cells.
pub open spec fn painted(
    cells: Seq<PixelView>,
    width: int,
    default_fg: Color,
    default_bg: Color,
    n: nat,
) -> Seq<Command>
    decreases n,
{
    if n == 0 {
        Seq::empty()
    } else {
        painted(cells, width, default_fg, default_bg, (n - 1) as nat) + paint_commands(
            painted_state(cells, width, default_fg, default_bg, (n - 1) as nat),
            place_of(width, n - 1),
            cells[n - 1],
            default_fg,
            default_bg,
        )
    }
}

/// The commands of a full paint: the frame's start, every cell in turn, the
/// cursor's return to the top left corner, and the frame's end.
pub open spec fn full_frame(
    cells: Seq<PixelView>,
    width: int,
    default_fg: Color,
    default_bg: Color,
) -> Seq<Command> {
    seq![Command::Begin] + painted(cells, width, default_fg, default_bg, cells.len()) + seq![
        Command::MoveTo(Position { x: 0i32, y: 0i32 }),
        Command::End,
    ]
}

impl CursorState {
    pub fn new() -> (r: Self)
        ensures
            r == start_state(),
    {
        CursorState { previous: None, prev_fg: Color::Default, prev_bg: Color::Default }
    }

    /// Notes the cell that is written; tells whether the cursor has to be
    /// moved to it.
    pub fn maybe_move(&mut self, pos: Position<u32>) -> (r: bool)
        ensures
            r == needs_move(old(self).previous, pos),
            *final(self) == (CursorState { previous: Some(pos), ..*old(self) }),
    {
        let should_move = match self.previous {
            Some(last) => last.y != pos.y || pos.x == 0 || last.x != pos.x - 1,
            None => true,
        };
        self.previous = Some(pos);
        should_move
    }

    /// Notes the foreground colour of the cell that is written; gives it
    /// back where it has to be set.
    pub fn maybe_fg(&mut self, fg: Color) -> (r: Option<Color>)
        ensures
            r == (if old(self).prev_fg == fg {
                None
            } else {
                Some(fg)
            }),
            *final(self) == (CursorState { prev_fg: fg, ..*old(self) }),
    {
        if self.prev_fg != fg {
            self.prev_fg = fg;
            return Some(self.prev_fg);
        }
        None
    }

    /// Notes the background colour of the cell that is written; gives it
    /// back where it has to be set.
    pub fn maybe_bg(&mut self, bg: Color) -> (r: Option<Color>)
        ensures
            r == (if old(self).prev_bg == bg {
                None
            } else {
                Some(bg)
            }),
            *final(self) == (CursorState { prev_bg: bg, ..*old(self) }),
    {
        if self.prev_bg != bg {
            self.prev_bg = bg;
            return Some(self.prev_bg);
        }
        None
    }
}

/// What a full paint has emitted after some cells is the start of what it
/// has emitted after more.
pub proof fn lemma_painted_grows(
    cells: Seq<PixelView>,
    width: int,
    default_fg: Color,
    default_bg: Color,
    n: nat,
    m: nat,
)
    requires
        n <= m,
    ensures
        painted(cells, width, default_fg, default_bg, n).len() <= painted(
            cells,
            width,
            default_fg,
            default_bg,
            m,
        ).len(),
        painted(cells, width, default_fg, default_bg, m).take(
            painted(cells, width, default_fg, default_bg, n).len() as int,
        ) == painted(cells, width, default_fg, default_bg, n),
    decreases m,
{
    let short = painted(cells, width, default_fg, default_bg, n);
    let long = painted(cells, width, default_fg, default_bg, m);
    if n == m {
        assert(long.take(short.len() as int) =~= short);
    } else {
        lemma_painted_grows(cells, width, default_fg, default_bg, n, (m - 1) as nat);
        let before = painted(cells, width, default_fg, default_bg, (m - 1) as nat);
        assert(long.take(short.len() as int) =~= before.take(short.len() as int));
    }
}

/// What was cut short within the painting of cell `n`, after the frame's
/// start and the cells before it, was cut short within the frame.
proof fn lemma_cut_short_in_paint(
    cells: Seq<PixelView>,
    width: int,
    default_fg: Color,
    default_bg: Color,
    n: nat,
    start: Seq<Command>,
    between: Seq<Command>,
    after: Seq<Command>,
)
    requires
        n < cells.len(),
        between == start + seq![Command::Begin] + painted(cells, width, default_fg, default_bg, n),
        cut_short(
            between,
            after,
            paint_commands(
                painted_state(cells, width, default_fg, default_bg, n),
                place_of(width, n as int),
                cells[n as int],
                default_fg,
                default_bg,
            ),
        ),
    ensures
        cut_short(start, after, full_frame(cells, width, default_fg, default_bg)),
        refused_command(start, after, full_frame(cells, width, default_fg, default_bg))
            == refused_command(
            between,
            after,
            paint_commands(
                painted_state(cells, width, default_fg, default_bg, n),
                place_of(width, n as int),
                cells[n as int],
                default_fg,
                default_bg,
            ),
        ),
{
    let begin = seq![Command::Begin];
    let done = painted(cells, width, default_fg, default_bg, n);
    let cell = paint_commands(
        painted_state(cells, width, default_fg, default_bg, n),
        place_of(width, n as int),
        cells[n as int],
        default_fg,
        default_bg,
    );
    let next = painted(cells, width, default_fg, default_bg, n + 1);
    let all = painted(cells, width, default_fg, default_bg, cells.len());
    let frame = full_frame(cells, width, default_fg, default_bg);
    assert(next == done + cell);
    assert(between =~= start + (begin + done));
    lemma_cut_short_second(start, between, after, begin + done, cell);
    assert(begin + done + cell =~= begin + next);
    let k = choose|k: int|
        0 <= k < (begin + next).len() && after == start + #[trigger] (begin + next).take(k);
    lemma_painted_grows(cells, width, default_fg, default_bg, n + 1, cells.len());
    assert(all.take(next.len() as int) == next);
    assert(frame.take(k) =~= (begin + next).take(k)) by {
        assert forall|i: int| 0 <= i < k implies frame.take(k)[i] == (begin + next).take(k)[i] by {
            if i >= 1 {
                assert(frame[i] == all[i - 1]);
                assert(all.take(next.len() as int)[i - 1] == all[i - 1]);
            }
        }
    }
    assert(after.len() - start.len() == k);
    if k >= 1 {
        assert(frame[k] == all[k - 1]);
        assert(all.take(next.len() as int)[k - 1] == all[k - 1]);
    }
    assert(frame[k] == (begin + next)[k]);
}

/// Emits the commands that paint one cell, and notes in `state` what was
/// written. The first command that the sink refuses ends the painting with
/// the sink's error.
fn paint_cell<R: Rasterizer>(
    state: &mut CursorState,
    rasterizer: &mut R,
    pos: Position<u32>,
    pixel: &Pixel,
    default_fg: Color,
    default_bg: Color,
) -> (r: Result<(), R::Error>)
    requires
        pos.x <= i32::MAX,
        pos.y <= i32::MAX,
    ensures
        r is Ok ==> final(rasterizer).commands() == old(rasterizer).commands() + paint_commands(
            *old(state),
            pos,
            pixel@,
            default_fg,
            default_bg,
        ),
        r is Ok ==> *final(state) == paint_state(*old(state), pos, pixel@, default_fg, default_bg),
        r is Ok <==> final(rasterizer).refusals() == old(rasterizer).refusals(),
        r matches Err(e) ==> stopped(
            *old(rasterizer),
            *final(rasterizer),
            paint_commands(*old(state), pos, pixel@, default_fg, default_bg),
            e,
        ),
{
    let ghost start = rasterizer.commands();
    let ghost first = *state;
    let fg = pixel.foreground.get_or_default(default_fg);
    let bg = pixel.background.get_or_default(default_bg);
    let ghost a = if needs_move(first.previous, pos) {
        seq![Command::MoveTo(Position { x: pos.x as i32, y: pos.y as i32 })]
    } else {
        Seq::empty()
    };
    let ghost b = fg_commands(first.prev_fg, fg);
    let ghost c = bg_commands(first.prev_bg, bg);
    let ghost d = seq![Command::Write(pixel@.data.text())];
    if state.maybe_move(pos) {
        if let Err(e) = rasterizer.move_to(pos.to_signed()) {
            proof {
                assert(rasterizer.commands() =~= start + a.take(0));
                lemma_cut_short_first(start, rasterizer.commands(), a, b + c + d);
                assert(a + (b + c + d) =~= a + b + c + d);
            }
            return Err(e);
        }
    }
    assert(rasterizer.commands() =~= start + a);
    let ghost moved = rasterizer.commands();
    if let Some(color) = state.maybe_fg(fg) {
        if let Err(e) = rasterizer.set_fg(color) {
            proof {
                assert(rasterizer.commands() =~= moved + b.take(0));
                lemma_cut_short_first(moved, rasterizer.commands(), b, c + d);
                lemma_cut_short_second(start, moved, rasterizer.commands(), a, b + (c + d));
                assert(a + (b + (c + d)) =~= a + b + c + d);
            }
            return Err(e);
        }
    }
    assert(rasterizer.commands() =~= start + (a + b));
    let ghost fore = rasterizer.commands();
    if let Some(color) = state.maybe_bg(bg) {
        if let Err(e) = rasterizer.set_bg(color) {
            proof {
                assert(rasterizer.commands() =~= fore + c.take(0));
                lemma_cut_short_first(fore, rasterizer.commands(), c, d);
                lemma_cut_short_second(start, fore, rasterizer.commands(), a + b, c + d);
                assert(a + b + (c + d) =~= a + b + c + d);
            }
            return Err(e);
        }
    }
    assert(rasterizer.commands() =~= start + (a + b + c));
    let ghost coloured = rasterizer.commands();
    let text = pixel.text();
    if let Err(e) = rasterizer.write(text.as_str()) {
        proof {
            assert(rasterizer.commands() =~= coloured + d.take(0));
            lemma_cut_short_second(start, coloured, rasterizer.commands(), a + b + c, d);
        }
        return Err(e);
    }
    assert(rasterizer.commands() =~= start + paint_commands(
        first,
        pos,
        pixel@,
        default_fg,
        default_bg,
    ));
    Ok(())
}

/// A compositor with a single grid: every frame paints every cell.
#[derive(Debug)]
pub struct BasicRenderer {
    surface: Surface<Pixel>,
    size: Size<u32>,
    default_fg: Color,
    default_bg: Color,
}

impl BasicRenderer {
    /// The size of the grid.
    pub closed spec fn extent(&self) -> Size<u32> {
        self.size
    }

    /// The cells, row by row.
    pub closed spec fn cells(&self) -> Seq<PixelView> {
        views(self.surface@)
    }

    /// The colour that stands in for a default foreground.
    pub closed spec fn spec_default_fg(&self) -> Color {
        self.default_fg
    }

    /// The colour that stands in for a default background.
    pub closed spec fn spec_default_bg(&self) -> Color {
        self.default_bg
    }

    /// The grid has the compositor's size and no offset, every cell can be
    /// addressed with signed coordinates, and no default colour is
    /// transparent.
    pub closed spec fn wf(&self) -> bool {
        &&& self.surface.wf()
        &&& self.surface.extent() == self.size
        &&& self.surface.offset() == (Position { x: 0i32, y: 0i32 })
        &&& self.surface.fallback()@ == empty_view()
        &&& self.size.width <= i32::MAX
        &&& self.size.height <= i32::MAX
        &&& self.size.width * self.size.height <= u32::MAX
        &&& self.default_fg != Color::Transparent
        &&& self.default_bg != Color::Transparent
    }

    /// The cell that is left behind where one was painted: blank, in the
    /// default colours.
    pub open spec fn spec_blank(&self) -> PixelView {
        PixelView {
            foreground: self.spec_default_fg(),
            background: self.spec_default_bg(),
            ..empty_view()
        }
    }

    /// The commands that rendering emits.
    pub open spec fn spec_frame(&self) -> Seq<Command> {
        full_frame(
            self.cells(),
            self.extent().width as int,
            self.spec_default_fg(),
            self.spec_default_bg(),
        )
    }

    /// What a well-formed compositor's size says of its grid.
    pub proof fn lemma_wf(&self)
        requires
            self.wf(),
        ensures
            self.cells().len() == self.extent().width * self.extent().height,
            self.extent().width <= i32::MAX,
            self.extent().height <= i32::MAX,
            self.spec_default_fg() != Color::Transparent,
            self.spec_default_bg() != Color::Transparent,
    {
    }

    /// A compositor of the given size with a blank grid.
    pub fn new(size: Size<u32>) -> (r: Self)
        requires
            size.width <= i32::MAX,
            size.height <= i32::MAX,
            size.width * size.height <= u32::MAX,
        ensures
            r.wf(),
            r.extent() == size,
            r.spec_default_fg() == Color::Default,
            r.spec_default_bg() == Color::Default,
            r.cells() == Seq::new((size.width * size.height) as nat, |i: int| empty_view()),
    {
        let surface = Surface::new(size, Pixel::empty());
        let r = Self { surface, size, default_fg: Color::Default, default_bg: Color::Default };
        assert(r.cells() =~= Seq::new((size.width * size.height) as nat, |i: int| empty_view()));
        r
    }

    /// The same compositor with another default foreground.
    pub fn default_fg(self, default_fg: Color) -> (r: Self)
        requires
            self.wf(),
        ensures
            r.wf(),
            r.extent() == self.extent(),
            r.cells() == self.cells(),
            r.spec_default_fg() == as_default(default_fg),
            r.spec_default_bg() == self.spec_default_bg(),
    {
        let mut this = self;
        this.set_default_fg(default_fg);
        this
    }

    /// The same compositor with another default background.
    pub fn default_bg(self, default_bg: Color) -> (r: Self)
        requires
            self.wf(),
        ensures
            r.wf(),
            r.extent() == self.extent(),
            r.cells() == self.cells(),
            r.spec_default_fg() == self.spec_default_fg(),
            r.spec_default_bg() == as_default(default_bg),
    {
        let mut this = self;
        this.set_default_bg(default_bg);
        this
    }

    /// Sets the colour that stands in for a default foreground.
    pub fn set_default_fg(&mut self, default_fg: Color)
        requires
            old(self).wf(),
        ensures
            final(self).wf(),
            final(self).extent() == old(self).extent(),
            final(self).cells() == old(self).cells(),
            final(self).spec_default_fg() == as_default(default_fg),
            final(self).spec_default_bg() == old(self).spec_default_bg(),
    {
        self.default_fg = match default_fg {
            Color::Transparent => Color::Default,
            other => other,
        };
    }

    /// Sets the colour that stands in for a default background.
    pub fn set_default_bg(&mut self, default_bg: Color)
        requires
            old(self).wf(),
        ensures
            final(self).wf(),
            final(self).extent() == old(self).extent(),
            final(self).cells() == old(self).cells(),
            final(self).spec_default_fg() == old(self).spec_default_fg(),
            final(self).spec_default_bg() == as_default(default_bg),
    {
        self.default_bg = match default_bg {
            Color::Transparent => Color::Default,
            other => other,
        };
    }

    /// Gives the grid a new size and blanks it, whatever the mode. A call
    /// with the size that the compositor has changes nothing.
    pub fn resize(&mut self, size: Size<u32>, _mode: ResizeMode)
        requires
            old(self).wf(),
            size.width <= i32::MAX,
            size.height <= i32::MAX,
            size.width * size.height <= u32::MAX,
        ensures
            final(self).wf(),
            final(self).extent() == size,
            final(self).spec_default_fg() == old(self).spec_default_fg(),
            final(self).spec_default_bg() == old(self).spec_default_bg(),
            size == old(self).extent() ==> final(self).cells() == old(self).cells(),
            size != old(self).extent() ==> final(self).cells() == Seq::new(
                (size.width * size.height) as nat,
                |i: int| empty_view(),
            ),
    {
        if self.size.width == size.width && self.size.height == size.height {
            return ;
        }
        self.size = size;
        self.surface.resize(size, ResizeMode::Discard);
        self.surface.clear();
        assert(views(self.surface@) =~= Seq::new(
            (size.width * size.height) as nat,
            |i: int| empty_view(),
        ));
    }

    pub fn size(&self) -> (r: Size<u32>)
        ensures
            r == self.extent(),
    {
        self.size
    }

    /// Puts `pixel` in the cell at `pos`, whatever the mode. A position
    /// outside the grid is ignored.
    pub fn put(&mut self, pos: Position<i32>, pixel: Pixel, blend: BlendMode)
        requires
            old(self).wf(),
        ensures
            final(self).wf(),
            final(self).extent() == old(self).extent(),
            final(self).spec_default_fg() == old(self).spec_default_fg(),
            final(self).spec_default_bg() == old(self).spec_default_bg(),
            final(self).cells() == replaced_at(
                old(self).cells(),
                old(self).extent(),
                Placement { pos, pixel: pixel@, blend },
            ),
    {
        let ghost before = self.surface@;
        proof {
            self.surface.lemma_spec_index(pos);
        }
        self.surface.set(pos, pixel);
        proof {
            if let Some(i) = index_at(self.size, Position { x: 0i32, y: 0i32 }, pos) {
                lemma_views_update(before, i, pixel);
            }
        }
    }

    /// The cell at `pos`, or `None` where `pos` lies outside the grid.
    pub fn get(&self, pos: Position<i32>) -> (r: Option<&Pixel>)
        requires
            self.wf(),
        ensures
            match index_at(self.extent(), Position { x: 0i32, y: 0i32 }, pos) {
                Some(i) => r is Some && r.unwrap()@ == self.cells()[i],
                None => r is None,
            },
    {
        proof {
            self.surface.lemma_spec_index(pos);
        }
        self.surface.get(pos)
    }

    /// Paints every cell, row by row, and leaves the grid blank in the
    /// default colours.
    ///
    /// On a sink that refuses nothing the rendering succeeds. The first
    /// command that the sink refuses ends it with the sink's error: the sink
    /// has then taken the commands of the frame before that one, has been
    /// handed none after it, and the grid is blank as far as the painting
    /// got.
    pub fn render<R: Rasterizer>(&mut self, rasterizer: &mut R) -> (r: Result<(), R::Error>)
        requires
            old(self).wf(),
        ensures
            final(self).wf(),
            final(self).extent() == old(self).extent(),
            final(self).spec_default_fg() == old(self).spec_default_fg(),
            final(self).spec_default_bg() == old(self).spec_default_bg(),
            r is Ok ==> final(rasterizer).commands() == old(rasterizer).commands() + old(
                self,
            ).spec_frame(),
            r is Ok <==> final(rasterizer).refusals() == old(rasterizer).refusals(),
            r matches Err(e) ==> stopped(
                *old(rasterizer),
                *final(rasterizer),
                old(self).spec_frame(),
                e,
            ),
            r is Ok ==> final(self).cells() == Seq::new(
                old(self).cells().len(),
                |i: int| old(self).spec_blank(),
            ),
            r is Err ==> exists|n: int|
                0 <= n <= old(self).cells().len() && final(self).cells() == #[trigger] swept(
                    old(self).cells(),
                    n,
                    old(self).spec_blank(),
                ),
    {
        let ghost cells = self.cells();
        let ghost start = rasterizer.commands();
        let width: u32 = self.size.width;
        let height: u32 = self.size.height;
        let default_fg = self.default_fg;
        let default_bg = self.default_bg;
        let ghost blank = self.spec_blank();
        let mut state = CursorState::new();

        let ghost frame = self.spec_frame();
        if let Err(e) = rasterizer.begin() {
            assert(rasterizer.commands() =~= start + frame.take(0));
            assert(self.cells() =~= swept(cells, 0, blank));
            return Err(e);
        }

        let mut y: u32 = 0;
        while y < height
            invariant
                self.wf(),
                self.extent() == old(self).extent(),
                self.spec_default_fg() == default_fg,
                self.spec_default_bg() == default_bg,
                old(self).spec_default_fg() == default_fg,
                old(self).spec_default_bg() == default_bg,
                blank == old(self).spec_blank(),
                width == self.extent().width,
                height == self.extent().height,
                cells == old(self).cells(),
                start == old(rasterizer).commands(),
                rasterizer.refusals() == old(rasterizer).refusals(),
                cells.len() == width * height,
                y <= height,
                self.cells() == swept(cells, y * width, blank),
                state == painted_state(cells, width as int, default_fg, default_bg, (y * width) as nat),
                rasterizer.commands() == start + seq![Command::Begin] + painted(
                    cells,
                    width as int,
                    default_fg,
                    default_bg,
                    (y * width) as nat,
                ),
            decreases height - y,
        {
            let mut x: u32 = 0;
            proof {
                assert(0 <= y * width) by (nonlinear_arith)
                    requires
                        0 <= y,
                        0 <= width,
                ;
            }
            while x < width
                invariant
                    self.wf(),
                    self.extent() == old(self).extent(),
                    self.spec_default_fg() == default_fg,
                    self.spec_default_bg() == default_bg,
                    old(self).spec_default_fg() == default_fg,
                    old(self).spec_default_bg() == default_bg,
                    blank == old(self).spec_blank(),
                    width == self.extent().width,
                    height == self.extent().height,
                    cells == old(self).cells(),
                    start == old(rasterizer).commands(),
                    rasterizer.refusals() == old(rasterizer).refusals(),
                    cells.len() == width * height,
                    y < height,
                    x <= width,
                    0 <= y * width,
                    self.cells() == swept(cells, y * width + x, blank),
                    state == painted_state(
                        cells,
                        width as int,
                        default_fg,
                        default_bg,
                        (y * width + x) as nat,
                    ),
                    rasterizer.commands() == start + seq![Command::Begin] + painted(
                        cells,
                        width as int,
                        default_fg,
                        default_bg,
                        (y * width + x) as nat,
                    ),
                decreases width - x,
            {
                let ghost n = cell_index(width as int, x as int, y as int);
                let ghost done = painted(cells, width as int, default_fg, default_bg, n as nat);
                let ghost prior = state;
                let ghost grid = self.surface@;
                let pos = Position { x, y };
                let at = Position { x: x as i32, y: y as i32 };
                proof {
                    lemma_cell_to_index(width as int, x as int, y as int);
                    lemma_cell_index_in_range(width as int, height as int, x as int, y as int);
                    self.surface.lemma_spec_index(at);
                    assert(self.cells()[n] == cells[n]);
                    assert(place_of(width as int, n) == pos);
                }
                let replacement = Pixel::empty().fg(default_fg).bg(default_bg);
                let ghost left = replacement;
                let pixel = match self.surface.replace(at, replacement) {
                    Some(pixel) => pixel,
                    None => unreached(),
                };
                proof {
                    lemma_views_update(grid, n, left);
                    assert(self.cells() =~= swept(cells, n + 1, blank));
                }
                let ghost between = rasterizer.commands();
                if let Err(e) = paint_cell(
                    &mut state,
                    rasterizer,
                    pos,
                    &pixel,
                    default_fg,
                    default_bg,
                ) {
                    proof {
                        assert(0 <= n + 1 <= cells.len());
                        assert(self.cells() == swept(cells, n + 1, blank));
                        lemma_cut_short_in_paint(
                            cells,
                            width as int,
                            default_fg,
                            default_bg,
                            n as nat,
                            start,
                            between,
                            rasterizer.commands(),
                        );
                    }
                    return Err(e);
                }
                proof {
                    assert(rasterizer.commands() =~= start + seq![Command::Begin] + (done
                        + paint_commands(prior, pos, cells[n], default_fg, default_bg)));
                }
                x += 1;
            }
            proof {
                assert((y + 1) * width == y * width + width) by (nonlinear_arith);
            }
            y += 1;
        }
        proof {
            assert(height * width == width * height) by (nonlinear_arith);
            assert(self.cells() =~= Seq::new(cells.len(), |i: int| blank));
            assert(self.cells() =~= swept(cells, cells.len() as int, blank));
        }
        let ghost body = seq![Command::Begin] + painted(
            cells,
            width as int,
            default_fg,
            default_bg,
            cells.len(),
        );
        if let Err(e) = rasterizer.move_to(Position { x: 0, y: 0 }) {
            assert(rasterizer.commands() =~= start + frame.take(body.len() as int));
            return Err(e);
        }
        if let Err(e) = rasterizer.end() {
            assert(rasterizer.commands() =~= start + frame.take(body.len() as int + 1));
            return Err(e);
        }
        assert(rasterizer.commands() =~= start + frame);
        Ok(())
    }
}

/// The grid once a full paint has passed its first `n` cells: those are
/// blank, the rest is as drawn.
pub open spec fn swept(cells: Seq<PixelView>, n: int, blank: PixelView) -> Seq<PixelView> {
    Seq::new(cells.len(), |i: int| if i < n { blank } else { cells[i] })
}

impl Placer for BasicRenderer {
    type Canvas = Seq<PixelView>;

    open spec fn inv(&self) -> bool {
        self.wf()
    }

    open spec fn extent(&self) -> Size<u32> {
        BasicRenderer::extent(self)
    }

    open spec fn canvas(&self) -> Seq<PixelView> {
        self.cells()
    }

    open spec fn applied(&self, canvas: Seq<PixelView>, item: Placement) -> Seq<PixelView> {
        replaced_at(canvas, BasicRenderer::extent(self), item)
    }

    fn put(&mut self, pos: Position<i32>, pixel: Pixel, blend: BlendMode) {
        BasicRenderer::put(self, pos, pixel, blend);
    }

    fn size(&self) -> (r: Size<u32>) {
        BasicRenderer::size(self)
    }
}

impl RendererSetup for BasicRenderer {
    open spec fn ready(&self) -> bool {
        self.wf()
    }

    open spec fn defaults(&self) -> (Color, Color) {
        (self.spec_default_fg(), self.spec_default_bg())
    }

    fn default_colors(&self) -> (r: (Color, Color)) {
        (self.default_fg, self.default_bg)
    }

    fn set_default_fg(&mut self, default_fg: Color) {
        BasicRenderer::set_default_fg(self, default_fg)
    }

    fn set_default_bg(&mut self, default_bg: Color) {
        BasicRenderer::set_default_bg(self, default_bg)
    }
}

impl Renderer for BasicRenderer {
    open spec fn frame(&self) -> Seq<Command> {
        self.spec_frame()
    }

    proof fn lemma_grid(&self) {
        self.lemma_wf();
    }

    open spec fn blank(&self) -> PixelView {
        self.spec_blank()
    }

    fn get(&self, pos: Position<i32>) -> (r: Option<&Pixel>) {
        BasicRenderer::get(self, pos)
    }

    fn replace(&mut self, pos: Position<i32>, pixel: Pixel) -> (r: Option<Pixel>) {
        let ghost cells = self.surface@;
        proof {
            self.surface.lemma_spec_index(pos);
        }
        let r = self.surface.replace(pos, pixel);
        proof {
            if r is Some {
                lemma_views_update(cells, index_at(self.size, Position { x: 0i32, y: 0i32 }, pos).unwrap(), pixel);
            }
        }
        r
    }

    fn clear(&mut self) {
        let size = BasicRenderer::size(self);
        let pixel = Pixel::empty().fg(self.default_fg).bg(self.default_bg);
        self.fill(Position { x: 0, y: 0 }, size, pixel, BlendMode::Replace);
    }

    fn render<R: Rasterizer>(&mut self, rasterizer: &mut R) -> (r: Result<(), R::Error>) {
        BasicRenderer::render(self, rasterizer)
    }
}

} // verus!
