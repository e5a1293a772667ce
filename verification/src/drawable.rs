//! Content that can be drawn on a placer, and the adapters that restyle or
//! move it.

use vstd::prelude::*;

use crate::color::{Color, Rgba};
use crate::math::{Anchor2, Position, Size};
use crate::pixel::{Glyph, Pixel, PixelData, PixelView};
use crate::renderer::recorder::{lemma_recorded, placements, Placed, Recorder};
use crate::renderer::{drawn, lemma_drawn_push, same_rules, BlendMode, Placement, Placer};

pub mod layout;

use layout::{laid, lemma_laid_bounds, measure_text, text_cells, text_fits, text_size, Laid};

verus! {

/// Content that can be drawn.
///
/// `placements` says which cells the content puts when it is drawn at a
/// position on an area of a given size, and `measure` how much room it takes
/// of what is available. `fits` holds where drawing stays within the
/// coordinates that a position can have, and `measurable` where the content
/// has a measure.
pub trait Drawable {
    /// The cells that drawing puts, in order.
    spec fn placements(&self, available: Size<u32>, pos: Position<i32>, blend: BlendMode) -> Seq<
        Placement,
    >;

    /// The room that the content takes of `input`.
    spec fn measure(&self, input: Size<u32>) -> Size<u32>;

    /// Whether the content can be drawn at `pos` on an area of the given
    /// size.
    spec fn fits(&self, available: Size<u32>, pos: Position<i32>) -> bool;

    /// Whether the content has a measure within `input`.
    spec fn measurable(&self, input: Size<u32>) -> bool;

    /// Puts the content's cells on `placer`, at `pos`.
    fn draw<P: Placer>(&self, placer: &mut P, pos: Position<i32>, blend: BlendMode)
        requires
            old(placer).inv(),
            self.fits(old(placer).extent(), pos),
        ensures
            final(placer).inv(),
            final(placer).extent() == old(placer).extent(),
            same_rules(final(placer), old(placer)),
            final(placer).canvas() == drawn(
                old(placer),
                old(placer).canvas(),
                self.placements(old(placer).extent(), pos, blend),
            ),
    ;

    /// The room that the content takes of `input`.
    fn size(&self, input: Size<u32>) -> (r: Size<u32>)
        requires
            self.measurable(input),
        ensures
            r == self.measure(input),
    ;
}

/// Puts every cell of `items` on `placer`, in order.
pub fn put_all<P: Placer>(placer: &mut P, items: &Vec<Placed>)
    requires
        old(placer).inv(),
    ensures
        final(placer).inv(),
        final(placer).extent() == old(placer).extent(),
        same_rules(final(placer), old(placer)),
        final(placer).canvas() == drawn(old(placer), old(placer).canvas(), placements(items@)),
{
    let ghost all = placements(items@);
    let mut i: usize = 0;
    while i < items.len()
        invariant
            i <= items@.len(),
            all == placements(items@),
            placer.inv(),
            placer.extent() == old(placer).extent(),
            same_rules(placer, old(placer)),
            placer.canvas() == drawn(old(placer), old(placer).canvas(), all.take(i as int)),
        decreases items@.len() - i,
    {
        let item = &items[i];
        let ghost before = *placer;
        placer.put(item.pos, item.pixel.clone(), item.blend);
        proof {
            assert(all.take(i + 1) =~= all.take(i as int).push(all[i as int]));
            lemma_drawn_push(old(placer), old(placer).canvas(), all.take(i as int), all[i as int]);
            assert(all[i as int] == (Placement {
                pos: item.pos,
                pixel: item.pixel@,
                blend: item.blend,
            }));
            assert(before.applied(before.canvas(), all[i as int]) == old(placer).applied(
                before.canvas(),
                all[i as int],
            ));
        }
        i += 1;
    }
    assert(all.take(items@.len() as int) =~= all);
}

impl Drawable for Pixel {
    open spec fn placements(&self, available: Size<u32>, pos: Position<i32>, blend: BlendMode) -> Seq<
        Placement,
    > {
        seq![Placement { pos, pixel: self@, blend }]
    }

    /// One cell for a character; for a text, the room that its lines take.
    open spec fn measure(&self, input: Size<u32>) -> Size<u32> {
        match self@.data {
            Glyph::Char(_) => Size { width: 1, height: 1 },
            Glyph::Text(s) => text_size(s, input),
        }
    }

    open spec fn fits(&self, available: Size<u32>, pos: Position<i32>) -> bool {
        true
    }

    open spec fn measurable(&self, input: Size<u32>) -> bool {
        true
    }

    fn draw<P: Placer>(&self, placer: &mut P, pos: Position<i32>, blend: BlendMode) {
        placer.put(pos, self.clone(), blend);
        proof {
            lemma_drawn_push(
                old(placer),
                old(placer).canvas(),
                Seq::empty(),
                Placement { pos, pixel: self@, blend },
            );
            assert(Seq::<Placement>::empty().push(Placement { pos, pixel: self@, blend })
                =~= self.placements(old(placer).extent(), pos, blend));
        }
    }

    fn size(&self, input: Size<u32>) -> (r: Size<u32>) {
        match &self.data {
            PixelData::Char(_) => Size { width: 1, height: 1 },
            PixelData::Str(_) => {
                let text = self.text();
                measure_text(text.as_str(), input).0
            },
        }
    }
}

/// The cell that shows a character in the default colours.
pub open spec fn char_view(c: char) -> PixelView {
    PixelView {
        data: Glyph::Char(c),
        foreground: Color::Default,
        background: Color::Default,
        attributes: None,
        unpainted: false,
    }
}

/// The cell that a laid out character of a text drawn at `pos` is put in.
pub open spec fn laid_placement(l: Laid, pos: Position<i32>, blend: BlendMode) -> Placement {
    Placement {
        pos: Position { x: (pos.x + l.x) as i32, y: (pos.y + l.y) as i32 },
        pixel: char_view(l.c),
        blend,
    }
}

/// The cells that a text drawn at `pos` puts: one for each character that
/// its layout places in the room available.
pub open spec fn text_placements(
    s: Seq<char>,
    available: Size<u32>,
    pos: Position<i32>,
    blend: BlendMode,
) -> Seq<Placement> {
    Seq::new(
        text_cells(s, available).len(),
        |i: int| laid_placement(text_cells(s, available)[i], pos, blend),
    )
}

/// Puts the characters of a text on `placer`, laid out from `pos`.
fn draw_text<P: Placer>(s: &str, placer: &mut P, pos: Position<i32>, blend: BlendMode)
    requires
        old(placer).inv(),
        text_fits(old(placer).extent(), pos),
    ensures
        final(placer).inv(),
        final(placer).extent() == old(placer).extent(),
        same_rules(final(placer), old(placer)),
        final(placer).canvas() == drawn(
            old(placer),
            old(placer).canvas(),
            text_placements(s@, old(placer).extent(), pos, blend),
        ),
{
    let available = placer.size();
    let (_, cells) = measure_text(s, available);
    let ghost all = text_placements(s@, available, pos, blend);
    let mut i: usize = 0;
    while i < cells.len()
        invariant
            i <= cells@.len(),
            laid(cells@) == text_cells(s@, available),
            all == text_placements(s@, available, pos, blend),
            text_fits(available, pos),
            available == old(placer).extent(),
            placer.inv(),
            placer.extent() == old(placer).extent(),
            same_rules(placer, old(placer)),
            placer.canvas() == drawn(old(placer), old(placer).canvas(), all.take(i as int)),
        decreases cells@.len() - i,
    {
        let cell = &cells[i];
        proof {
            lemma_laid_bounds(s@, available, s@.len(), i as int);
            assert(laid(cells@)[i as int] == cell@);
        }
        let at = Position {
            x: (pos.x as i64 + cell.x as i64) as i32,
            y: (pos.y as i64 + cell.y as i64) as i32,
        };
        let ghost before = *placer;
        placer.put(at, Pixel::new(cell.c), blend);
        proof {
            assert(all.take(i + 1) =~= all.take(i as int).push(all[i as int]));
            lemma_drawn_push(old(placer), old(placer).canvas(), all.take(i as int), all[i as int]);
            assert(before.applied(before.canvas(), all[i as int]) == old(placer).applied(
                before.canvas(),
                all[i as int],
            ));
        }
        i += 1;
    }
    assert(all.take(cells@.len() as int) =~= all);
}

impl Drawable for Rgba {
    /// One blank cell on this colour.
    open spec fn placements(&self, available: Size<u32>, pos: Position<i32>, blend: BlendMode) -> Seq<
        Placement,
    > {
        seq![
            Placement {
                pos,
                pixel: PixelView { background: Color::Rgba(*self), ..crate::pixel::empty_view() },
                blend,
            },
        ]
    }

    open spec fn measure(&self, input: Size<u32>) -> Size<u32> {
        Size { width: 0, height: 0 }
    }

    open spec fn fits(&self, available: Size<u32>, pos: Position<i32>) -> bool {
        true
    }

    open spec fn measurable(&self, input: Size<u32>) -> bool {
        true
    }

    fn draw<P: Placer>(&self, placer: &mut P, pos: Position<i32>, blend: BlendMode) {
        let pixel = Pixel::empty().bg(Color::Rgba(*self));
        let ghost item = Placement { pos, pixel: pixel@, blend };
        placer.put(pos, pixel, blend);
        proof {
            lemma_drawn_push(old(placer), old(placer).canvas(), Seq::empty(), item);
            assert(Seq::<Placement>::empty().push(item) =~= self.placements(
                old(placer).extent(),
                pos,
                blend,
            ));
        }
    }

    fn size(&self, input: Size<u32>) -> (r: Size<u32>) {
        Size { width: 0, height: 0 }
    }
}

impl Drawable for char {
    /// One cell that shows the character.
    open spec fn placements(&self, available: Size<u32>, pos: Position<i32>, blend: BlendMode) -> Seq<
        Placement,
    > {
        seq![Placement { pos, pixel: char_view(*self), blend }]
    }

    open spec fn measure(&self, input: Size<u32>) -> Size<u32> {
        Size { width: 1, height: 1 }
    }

    open spec fn fits(&self, available: Size<u32>, pos: Position<i32>) -> bool {
        true
    }

    open spec fn measurable(&self, input: Size<u32>) -> bool {
        true
    }

    fn draw<P: Placer>(&self, placer: &mut P, pos: Position<i32>, blend: BlendMode) {
        let ghost item = Placement { pos, pixel: char_view(*self), blend };
        placer.put(pos, Pixel::new(*self), blend);
        proof {
            lemma_drawn_push(old(placer), old(placer).canvas(), Seq::empty(), item);
            assert(Seq::<Placement>::empty().push(item) =~= self.placements(
                old(placer).extent(),
                pos,
                blend,
            ));
        }
    }

    fn size(&self, input: Size<u32>) -> (r: Size<u32>) {
        Size { width: 1, height: 1 }
    }
}

impl Drawable for String {
    open spec fn placements(&self, available: Size<u32>, pos: Position<i32>, blend: BlendMode) -> Seq<
        Placement,
    > {
        text_placements(self@, available, pos, blend)
    }

    open spec fn measure(&self, input: Size<u32>) -> Size<u32> {
        text_size(self@, input)
    }

    open spec fn fits(&self, available: Size<u32>, pos: Position<i32>) -> bool {
        text_fits(available, pos)
    }

    open spec fn measurable(&self, input: Size<u32>) -> bool {
        true
    }

    fn draw<P: Placer>(&self, placer: &mut P, pos: Position<i32>, blend: BlendMode) {
        draw_text(self.as_str(), placer, pos, blend);
    }

    fn size(&self, input: Size<u32>) -> (r: Size<u32>) {
        measure_text(self.as_str(), input).0
    }
}

impl Drawable for &str {
    open spec fn placements(&self, available: Size<u32>, pos: Position<i32>, blend: BlendMode) -> Seq<
        Placement,
    > {
        text_placements(self@, available, pos, blend)
    }

    open spec fn measure(&self, input: Size<u32>) -> Size<u32> {
        text_size(self@, input)
    }

    open spec fn fits(&self, available: Size<u32>, pos: Position<i32>) -> bool {
        text_fits(available, pos)
    }

    open spec fn measurable(&self, input: Size<u32>) -> bool {
        true
    }

    fn draw<P: Placer>(&self, placer: &mut P, pos: Position<i32>, blend: BlendMode) {
        draw_text(*self, placer, pos, blend);
    }

    fn size(&self, input: Size<u32>) -> (r: Size<u32>) {
        measure_text(*self, input).0
    }
}

impl Drawable for () {
    /// Nothing.
    open spec fn placements(&self, available: Size<u32>, pos: Position<i32>, blend: BlendMode) -> Seq<
        Placement,
    > {
        Seq::empty()
    }

    open spec fn measure(&self, input: Size<u32>) -> Size<u32> {
        Size { width: 0, height: 0 }
    }

    open spec fn fits(&self, available: Size<u32>, pos: Position<i32>) -> bool {
        true
    }

    open spec fn measurable(&self, input: Size<u32>) -> bool {
        true
    }

    fn draw<P: Placer>(&self, placer: &mut P, pos: Position<i32>, blend: BlendMode) {
    }

    fn size(&self, input: Size<u32>) -> (r: Size<u32>) {
        Size { width: 0, height: 0 }
    }
}

impl<T: Drawable> Drawable for &T {
    open spec fn placements(&self, available: Size<u32>, pos: Position<i32>, blend: BlendMode) -> Seq<
        Placement,
    > {
        (**self).placements(available, pos, blend)
    }

    open spec fn measure(&self, input: Size<u32>) -> Size<u32> {
        (**self).measure(input)
    }

    open spec fn fits(&self, available: Size<u32>, pos: Position<i32>) -> bool {
        (**self).fits(available, pos)
    }

    open spec fn measurable(&self, input: Size<u32>) -> bool {
        (**self).measurable(input)
    }

    fn draw<P: Placer>(&self, placer: &mut P, pos: Position<i32>, blend: BlendMode) {
        (**self).draw(placer, pos, blend);
    }

    fn size(&self, input: Size<u32>) -> (r: Size<u32>) {
        (**self).size(input)
    }
}

/// `item` with another foreground colour.
pub open spec fn with_foreground(item: Placement, fg: Color) -> Placement {
    Placement { pixel: PixelView { foreground: fg, ..item.pixel }, ..item }
}

/// `item` with another background colour.
pub open spec fn with_background(item: Placement, bg: Color) -> Placement {
    Placement { pixel: PixelView { background: bg, ..item.pixel }, ..item }
}

/// Each of `items` with the foreground colour `fg`.
pub open spec fn all_with_foreground(items: Seq<Placement>, fg: Color) -> Seq<Placement> {
    Seq::new(items.len(), |i: int| with_foreground(items[i], fg))
}

/// Each of `items` with the background colour `bg`.
pub open spec fn all_with_background(items: Seq<Placement>, bg: Color) -> Seq<Placement> {
    Seq::new(items.len(), |i: int| with_background(items[i], bg))
}

/// The cells that `drawable` puts when it is drawn at `pos` on an area of
/// the given size.
fn record<R: Drawable>(drawable: &R, available: Size<u32>, pos: Position<i32>, blend: BlendMode) -> (r:
    Vec<Placed>)
    requires
        drawable.fits(available, pos),
    ensures
        placements(r@) == drawable.placements(available, pos, blend),
{
    let mut recorder = Recorder::new(available);
    let ghost start = recorder;
    drawable.draw(&mut recorder, pos, blend);
    proof {
        lemma_recorded(&start, Seq::empty(), drawable.placements(available, pos, blend));
        assert(Seq::<Placement>::empty() + drawable.placements(available, pos, blend)
            =~= drawable.placements(available, pos, blend));
    }
    recorder.into_items()
}

/// Content drawn with a foreground colour of the adapter's choice.
pub struct WithFg<'a, R: Drawable> {
    pub fg: Color,
    pub drawable: &'a R,
}

impl<'a, R: Drawable> Drawable for WithFg<'a, R> {
    /// The cells of the content, each with the adapter's foreground.
    open spec fn placements(&self, available: Size<u32>, pos: Position<i32>, blend: BlendMode) -> Seq<
        Placement,
    > {
        all_with_foreground(self.drawable.placements(available, pos, blend), self.fg)
    }

    open spec fn measure(&self, input: Size<u32>) -> Size<u32> {
        self.drawable.measure(input)
    }

    open spec fn fits(&self, available: Size<u32>, pos: Position<i32>) -> bool {
        self.drawable.fits(available, pos)
    }

    open spec fn measurable(&self, input: Size<u32>) -> bool {
        self.drawable.measurable(input)
    }

    fn draw<P: Placer>(&self, placer: &mut P, pos: Position<i32>, blend: BlendMode) {
        let available = placer.size();
        let items = record(self.drawable, available, pos, blend);
        let ghost inner = self.drawable.placements(available, pos, blend);
        let mut styled: Vec<Placed> = Vec::new();
        let mut i: usize = 0;
        while i < items.len()
            invariant
                i <= items@.len(),
                placements(items@) == inner,
                placements(styled@) == all_with_foreground(inner.take(i as int), self.fg),
            decreases items@.len() - i,
        {
            let item = &items[i];
            let ghost before = styled@;
            let placed = Placed { pos: item.pos, pixel: item.pixel.clone().fg(self.fg), blend: item.blend };
            styled.push(placed);
            proof {
                assert(inner[i as int] == item@);
                assert(placements(styled@) =~= placements(before).push(placed@));
                assert(all_with_foreground(inner.take(i + 1), self.fg) =~= all_with_foreground(
                    inner.take(i as int),
                    self.fg,
                ).push(with_foreground(inner[i as int], self.fg)));
            }
            i += 1;
        }
        assert(inner.take(items@.len() as int) =~= inner);
        put_all(placer, &styled);
    }

    fn size(&self, input: Size<u32>) -> (r: Size<u32>) {
        self.drawable.size(input)
    }
}

/// Content drawn with a background colour of the adapter's choice.
pub struct WithBg<'a, R: Drawable> {
    pub bg: Color,
    pub drawable: &'a R,
}

impl<'a, R: Drawable> Drawable for WithBg<'a, R> {
    /// The cells of the content, each with the adapter's background.
    open spec fn placements(&self, available: Size<u32>, pos: Position<i32>, blend: BlendMode) -> Seq<
        Placement,
    > {
        all_with_background(self.drawable.placements(available, pos, blend), self.bg)
    }

    open spec fn measure(&self, input: Size<u32>) -> Size<u32> {
        self.drawable.measure(input)
    }

    open spec fn fits(&self, available: Size<u32>, pos: Position<i32>) -> bool {
        self.drawable.fits(available, pos)
    }

    open spec fn measurable(&self, input: Size<u32>) -> bool {
        self.drawable.measurable(input)
    }

    fn draw<P: Placer>(&self, placer: &mut P, pos: Position<i32>, blend: BlendMode) {
        let available = placer.size();
        let items = record(self.drawable, available, pos, blend);
        let ghost inner = self.drawable.placements(available, pos, blend);
        let mut styled: Vec<Placed> = Vec::new();
        let mut i: usize = 0;
        while i < items.len()
            invariant
                i <= items@.len(),
                placements(items@) == inner,
                placements(styled@) == all_with_background(inner.take(i as int), self.bg),
            decreases items@.len() - i,
        {
            let item = &items[i];
            let ghost before = styled@;
            let placed = Placed { pos: item.pos, pixel: item.pixel.clone().bg(self.bg), blend: item.blend };
            styled.push(placed);
            proof {
                assert(inner[i as int] == item@);
                assert(placements(styled@) =~= placements(before).push(placed@));
                assert(all_with_background(inner.take(i + 1), self.bg) =~= all_with_background(
                    inner.take(i as int),
                    self.bg,
                ).push(with_background(inner[i as int], self.bg)));
            }
            i += 1;
        }
        assert(inner.take(items@.len() as int) =~= inner);
        put_all(placer, &styled);
    }

    fn size(&self, input: Size<u32>) -> (r: Size<u32>) {
        self.drawable.size(input)
    }
}

/// Whether `pos` moved by `offset` is a position.
pub open spec fn can_move(pos: Position<i32>, x: int, y: int) -> bool {
    &&& i32::MIN <= pos.x + x <= i32::MAX
    &&& i32::MIN <= pos.y + y <= i32::MAX
}

/// `pos` moved by `x` columns and `y` rows.
pub open spec fn moved(pos: Position<i32>, x: int, y: int) -> Position<i32> {
    Position { x: (pos.x + x) as i32, y: (pos.y + y) as i32 }
}

/// Content drawn a fixed distance away from where it is asked to be.
pub struct WithOffset<'a, R: Drawable> {
    pub offset: Position<i32>,
    pub drawable: &'a R,
}

impl<'a, R: Drawable> Drawable for WithOffset<'a, R> {
    /// The cells of the content drawn at `pos` moved by the offset.
    open spec fn placements(&self, available: Size<u32>, pos: Position<i32>, blend: BlendMode) -> Seq<
        Placement,
    > {
        self.drawable.placements(
            available,
            moved(pos, self.offset.x as int, self.offset.y as int),
            blend,
        )
    }

    open spec fn measure(&self, input: Size<u32>) -> Size<u32> {
        self.drawable.measure(input)
    }

    open spec fn fits(&self, available: Size<u32>, pos: Position<i32>) -> bool {
        &&& can_move(pos, self.offset.x as int, self.offset.y as int)
        &&& self.drawable.fits(available, moved(pos, self.offset.x as int, self.offset.y as int))
    }

    open spec fn measurable(&self, input: Size<u32>) -> bool {
        self.drawable.measurable(input)
    }

    fn draw<P: Placer>(&self, placer: &mut P, pos: Position<i32>, blend: BlendMode) {
        let at = Position { x: pos.x + self.offset.x, y: pos.y + self.offset.y };
        self.drawable.draw(placer, at, blend);
    }

    fn size(&self, input: Size<u32>) -> (r: Size<u32>) {
        self.drawable.size(input)
    }
}

/// Content placed within the area available to it by an anchor for each
/// axis.
pub struct WithAnchor<'a, R: Drawable> {
    pub anchor: Anchor2,
    pub drawable: &'a R,
}

impl<'a, R: Drawable> WithAnchor<'a, R> {
    /// How far from the start of an area of the given size the content
    /// starts, in columns.
    pub open spec fn offset_x(&self, available: Size<u32>) -> int {
        self.anchor.x.spec_offset(
            available.width as int,
            self.drawable.measure(available).width as int,
        )
    }

    /// How far from the start of an area of the given size the content
    /// starts, in rows.
    pub open spec fn offset_y(&self, available: Size<u32>) -> int {
        self.anchor.y.spec_offset(
            available.height as int,
            self.drawable.measure(available).height as int,
        )
    }
}

impl<'a, R: Drawable> Drawable for WithAnchor<'a, R> {
    /// The cells of the content drawn at `pos` moved by the anchor's offset.
    open spec fn placements(&self, available: Size<u32>, pos: Position<i32>, blend: BlendMode) -> Seq<
        Placement,
    > {
        self.drawable.placements(
            available,
            moved(pos, self.offset_x(available), self.offset_y(available)),
            blend,
        )
    }

    /// The anchor's offset within `input`, as a size.
    open spec fn measure(&self, input: Size<u32>) -> Size<u32> {
        Size { width: self.offset_x(input) as u32, height: self.offset_y(input) as u32 }
    }

    open spec fn fits(&self, available: Size<u32>, pos: Position<i32>) -> bool {
        &&& self.measurable(available)
        &&& can_move(pos, self.offset_x(available), self.offset_y(available))
        &&& self.drawable.fits(
            available,
            moved(pos, self.offset_x(available), self.offset_y(available)),
        )
    }

    /// The content has a measure, and is not larger than the room along an
    /// axis on which it is not anchored at the start.
    open spec fn measurable(&self, input: Size<u32>) -> bool {
        &&& self.drawable.measurable(input)
        &&& self.offset_x(input) >= 0
        &&& self.offset_y(input) >= 0
    }

    fn draw<P: Placer>(&self, placer: &mut P, pos: Position<i32>, blend: BlendMode) {
        let offset = self.size(placer.size());
        let at = Position {
            x: (pos.x as i64 + offset.width as i64) as i32,
            y: (pos.y as i64 + offset.height as i64) as i32,
        };
        self.drawable.draw(placer, at, blend);
    }

    fn size(&self, input: Size<u32>) -> (r: Size<u32>) {
        let child = self.drawable.size(input);
        let offset = self.anchor.offset(input, child);
        Size { width: offset.x as u32, height: offset.y as u32 }
    }
}

/// The adapters, for every content.
pub trait DrawableExt: Drawable + Sized {
    /// Draws the content at the top left corner of `renderer`.
    fn render<P: Placer>(&self, renderer: &mut P, blend: BlendMode)
        requires
            old(renderer).inv(),
            self.fits(old(renderer).extent(), Position { x: 0i32, y: 0i32 }),
        ensures
            final(renderer).inv(),
            final(renderer).extent() == old(renderer).extent(),
            same_rules(final(renderer), old(renderer)),
            final(renderer).canvas() == drawn(
                old(renderer),
                old(renderer).canvas(),
                self.placements(old(renderer).extent(), Position { x: 0i32, y: 0i32 }, blend),
            ),
    {
        self.draw(renderer, Position { x: 0, y: 0 }, blend);
    }

    /// The content with the foreground colour `fg` in every cell.
    fn with_fg(&self, fg: Color) -> (r: WithFg<'_, Self>)
        ensures
            r.fg == fg,
            r.drawable == self,
    {
        WithFg { fg, drawable: self }
    }

    /// The content with the background colour `bg` in every cell.
    fn with_bg(&self, bg: Color) -> (r: WithBg<'_, Self>)
        ensures
            r.bg == bg,
            r.drawable == self,
    {
        WithBg { bg, drawable: self }
    }

    /// The content moved by `offset`.
    fn with_offset(&self, offset: Position<i32>) -> (r: WithOffset<'_, Self>)
        ensures
            r.offset == offset,
            r.drawable == self,
    {
        WithOffset { offset, drawable: self }
    }

    /// The content placed by `anchor` within the area that it is drawn on.
    fn with_anchor(&self, anchor: Anchor2) -> (r: WithAnchor<'_, Self>)
        ensures
            r.anchor == anchor,
            r.drawable == self,
    {
        WithAnchor { anchor, drawable: self }
    }
}

impl<T: Drawable> DrawableExt for T {
}

} // verus!
