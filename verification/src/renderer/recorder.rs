//! A placer that keeps what is put on it.

use vstd::prelude::*;

use super::{BlendMode, Placement, Placer};
use crate::math::{Position, Size};
use crate::pixel::Pixel;

verus! {

/// One cell that was put somewhere.
#[derive(Debug)]
pub struct Placed {
    pub pos: Position<i32>,
    pub pixel: Pixel,
    pub blend: BlendMode,
}

impl View for Placed {
    type V = Placement;

    open spec fn view(&self) -> Placement {
        Placement { pos: self.pos, pixel: self.pixel@, blend: self.blend }
    }
}

/// The cells of a list as mathematical values.
pub open spec fn placements(items: Seq<Placed>) -> Seq<Placement> {
    items.map_values(|p: Placed| p@)
}

/// A placer of a given size that draws nothing and keeps the cells that are
/// put on it, in the order in which they come.
#[derive(Debug)]
pub struct Recorder {
    size: Size<u32>,
    items: Vec<Placed>,
}

impl Recorder {
    /// The size that the recorder reports.
    pub closed spec fn spec_size(&self) -> Size<u32> {
        self.size
    }

    /// The cells that were put, in order.
    pub closed spec fn recorded(&self) -> Seq<Placement> {
        placements(self.items@)
    }

    /// A recorder of the given size on which nothing was put.
    pub fn new(size: Size<u32>) -> (r: Self)
        ensures
            r.spec_size() == size,
            r.recorded() == Seq::<Placement>::empty(),
    {
        let r = Self { size, items: Vec::new() };
        assert(r.recorded() =~= Seq::<Placement>::empty());
        r
    }

    /// How many cells were put.
    pub fn len(&self) -> (r: usize)
        ensures
            r == self.recorded().len(),
    {
        self.items.len()
    }

    /// The cells that were put, in order.
    pub fn into_items(self) -> (r: Vec<Placed>)
        ensures
            placements(r@) == self.recorded(),
    {
        self.items
    }

    /// The cells that were put, in order.
    pub fn items(&self) -> (r: &Vec<Placed>)
        ensures
            placements(r@) == self.recorded(),
    {
        &self.items
    }
}

impl Placer for Recorder {
    type Canvas = Seq<Placement>;

    open spec fn inv(&self) -> bool {
        true
    }

    open spec fn extent(&self) -> Size<u32> {
        self.spec_size()
    }

    open spec fn canvas(&self) -> Seq<Placement> {
        self.recorded()
    }

    open spec fn applied(&self, canvas: Seq<Placement>, item: Placement) -> Seq<Placement> {
        canvas.push(item)
    }

    fn put(&mut self, pos: Position<i32>, pixel: Pixel, blend: BlendMode) {
        let ghost before = self.items@;
        let placed = Placed { pos, pixel, blend };
        self.items.push(placed);
        assert(placements(self.items@) =~= placements(before).push(placed@));
    }

    fn size(&self) -> (r: Size<u32>) {
        self.size
    }
}

/// What is put on a recorder is what it holds afterwards.
pub proof fn lemma_recorded(recorder: &Recorder, canvas: Seq<Placement>, items: Seq<Placement>)
    ensures
        super::drawn(recorder, canvas, items) == canvas + items,
    decreases items.len(),
{
    if items.len() == 0 {
        assert(canvas + items =~= canvas);
    } else {
        lemma_recorded(recorder, canvas, items.drop_last());
        assert(canvas + items =~= (canvas + items.drop_last()).push(items.last()));
    }
}

} // verus!
