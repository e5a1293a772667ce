//! Plain 2D geometry on cell coordinates: positions, sizes, margins, axes and
//! anchors.

mod num;
pub use num::Num;

mod size;
pub use size::Size;

mod delta;
pub use delta::Delta;

mod position;
pub use position::Position;

mod anchor;
pub use anchor::{Anchor, Anchor2};

mod axis;
pub use axis::Axis;

mod margin;
pub use margin::Margin;
