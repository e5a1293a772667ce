//! A terminal rendering engine: a grid of styled cells, a compositor that
//! turns the difference between two frames into a short stream of terminal
//! commands, and a small layer for placing content on the grid.

pub mod math;

mod text;

pub use math::{Anchor, Anchor2, Axis, Delta, Margin, Num, Position, Size};

pub mod color;

pub use color::{Color, IndexedColor, Rgba};

pub mod attributes;

pub use attributes::Attributes;

pub mod pixel;

pub use pixel::Pixel;

pub mod renderer;

pub use renderer::{
    BasicRenderer, BlendMode, Placer, PlacerExt, Renderer, RendererSetup, SurfaceRenderer,
};

pub mod surface;

pub use surface::{ResizeMode, Surface};

pub mod rasterizer;

pub use rasterizer::{BufferedRasterizer, DebugRasterizer, Rasterizer};

pub mod drawable;

pub use drawable::{Drawable, DrawableExt};

pub mod terminal;

pub use terminal::{Config, Event, Key, KeyModifiers, Keybind, MouseButton};

pub mod styling;

pub use styling::Style;

pub mod application;

pub use application::{Action, ShouldRender};
