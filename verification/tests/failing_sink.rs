use mars::{
    Attributes, BasicRenderer, BlendMode, Color, Pixel, Position, Rasterizer, Size,
    SurfaceRenderer,
};

/// A sink that takes a given number of commands and refuses every further
/// one.
struct Limited {
    room: usize,
    taken: Vec<String>,
    calls: usize,
}

/// The refusal of a command, with the number of the call that was refused.
#[derive(Debug, PartialEq)]
struct Full(usize);

impl Limited {
    fn new(room: usize) -> Self {
        Self { room, taken: Vec::new(), calls: 0 }
    }

    fn take(&mut self, command: String) -> Result<(), Full> {
        self.calls += 1;
        if self.taken.len() == self.room {
            return Err(Full(self.calls));
        }
        self.taken.push(command);
        Ok(())
    }
}

impl Rasterizer for Limited {
    type Error = Full;

    fn commands(&self) -> vstd::seq::Seq<mars::rasterizer::Command> {
        unreachable!("only proofs speak of the commands taken")
    }

    fn refusals(&self) -> vstd::seq::Seq<(mars::rasterizer::Command, Full)> {
        unreachable!("only proofs speak of the commands refused")
    }

    fn begin(&mut self) -> Result<(), Full> {
        self.take("begin".to_string())
    }

    fn end(&mut self) -> Result<(), Full> {
        self.take("end".to_string())
    }

    fn clear(&mut self, pos: Position, size: Size) -> Result<(), Full> {
        self.take(format!("clear {},{} {}x{}", pos.x, pos.y, size.width, size.height))
    }

    fn clear_screen(&mut self, _bg: Color, _size: Size) -> Result<(), Full> {
        self.take("clear_screen".to_string())
    }

    fn move_to(&mut self, pos: Position) -> Result<(), Full> {
        self.take(format!("move {},{}", pos.x, pos.y))
    }

    fn default_fg(&mut self, _color: Color) -> Result<(), Full> {
        self.take("default_fg".to_string())
    }

    fn default_bg(&mut self, _color: Color) -> Result<(), Full> {
        self.take("default_bg".to_string())
    }

    fn set_fg(&mut self, _color: Color) -> Result<(), Full> {
        self.take("fg".to_string())
    }

    fn set_bg(&mut self, _color: Color) -> Result<(), Full> {
        self.take("bg".to_string())
    }

    fn set_attribute(&mut self, _attribute: Attributes) -> Result<(), Full> {
        self.take("attribute".to_string())
    }

    fn reset_fg(&mut self) -> Result<(), Full> {
        self.take("reset_fg".to_string())
    }

    fn reset_bg(&mut self) -> Result<(), Full> {
        self.take("reset_bg".to_string())
    }

    fn reset_attribute(&mut self) -> Result<(), Full> {
        self.take("reset_attribute".to_string())
    }

    fn write(&mut self, data: &str) -> Result<(), Full> {
        self.take(format!("write {data}"))
    }
}

const FRAME: [&str; 8] = [
    "begin",
    "move 0,0",
    "default_fg",
    "default_bg",
    "write a",
    "write b",
    "write c",
    "end",
];

fn drawn() -> SurfaceRenderer {
    let mut renderer = SurfaceRenderer::new(Size::new(3, 1));
    for (x, c) in ['a', 'b', 'c'].into_iter().enumerate() {
        renderer.put(Position::new(x as i32, 0), Pixel::new(c), BlendMode::Replace);
    }
    renderer
}

#[test]
fn a_sink_with_room_takes_the_whole_frame() {
    let mut sink = Limited::new(FRAME.len());
    assert_eq!(drawn().render(&mut sink), Ok(()));
    assert_eq!(sink.taken, FRAME);
}

#[test]
fn rendering_stops_at_the_first_refusal() {
    for room in 0..FRAME.len() {
        let mut sink = Limited::new(room);
        assert_eq!(drawn().render(&mut sink), Err(Full(room + 1)));
        assert_eq!(sink.taken, FRAME[..room]);
        assert_eq!(sink.calls, room + 1);
    }
}

#[test]
fn a_frame_without_changes_needs_no_room() {
    let mut renderer = SurfaceRenderer::new(Size::new(0, 5));
    assert_eq!(renderer.render(&mut Limited::new(0)), Ok(()));
    let mut other = drawn();
    assert_eq!(other.render(&mut Limited::new(FRAME.len())), Ok(()));
    other.put(Position::new(0, 0), Pixel::new('a'), BlendMode::Replace);
    other.put(Position::new(1, 0), Pixel::new('b'), BlendMode::Replace);
    other.put(Position::new(2, 0), Pixel::new('c'), BlendMode::Replace);
    assert_eq!(other.render(&mut Limited::new(0)), Ok(()));
}

#[test]
fn a_failed_render_keeps_what_it_got_to() {
    let mut renderer = drawn();
    assert_eq!(renderer.render(&mut Limited::new(5)), Err(Full(6)));
    renderer.put(Position::new(0, 0), Pixel::new('a'), BlendMode::Replace);
    let mut sink = Limited::new(8);
    assert_eq!(renderer.render(&mut sink), Ok(()));
    assert_eq!(
        sink.taken,
        ["begin", "move 1,0", "default_fg", "default_bg", "write  ", "write c", "end"]
    );
}

#[test]
fn the_full_paint_stops_at_the_first_refusal() {
    let paint = ["begin", "move 0,0", "write x", "write  ", "move 0,0", "end"];
    for room in 0..paint.len() {
        let mut renderer = BasicRenderer::new(Size::new(2, 1));
        renderer.put(Position::new(0, 0), Pixel::new('x'), BlendMode::Replace);
        let mut sink = Limited::new(room);
        assert_eq!(renderer.render(&mut sink), Err(Full(room + 1)));
        assert_eq!(sink.taken, paint[..room]);
        assert_eq!(sink.calls, room + 1);
    }
}
