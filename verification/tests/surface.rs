use mars::{Position, ResizeMode, Size, Surface};

fn pattern(width: u32, height: u32) -> Surface<u32> {
    let mut surface = Surface::new(Size::new(width, height), 0u32);
    for y in 0..height {
        for x in 0..width {
            surface.set(Position::new(x as i32, y as i32), 100 + y * 10 + x);
        }
    }
    surface
}

fn cells(surface: &Surface<u32>) -> Vec<u32> {
    surface.iter().into_iter().map(|(_, value)| *value).collect()
}

#[test]
fn new_fills_with_the_default() {
    let surface = Surface::new(Size::new(3, 2), 7u8);
    assert_eq!(surface.size(), Size::new(3, 2));
    assert_eq!(surface.position(), Position::new(0, 0));
    assert_eq!(surface.iter().len(), 6);
    assert!(surface.iter().into_iter().all(|(_, value)| *value == 7));
}

#[test]
fn get_is_none_outside_the_grid() {
    let surface = pattern(3, 2);
    assert_eq!(surface.get(Position::new(2, 1)), Some(&112));
    assert_eq!(surface.get(Position::new(3, 1)), None);
    assert_eq!(surface.get(Position::new(0, 2)), None);
    assert_eq!(surface.get(Position::new(-1, 0)), None);
    assert_eq!(surface.get(Position::new(0, -1)), None);
    assert_eq!(surface.get(Position::new(i32::MAX, i32::MAX)), None);
    assert_eq!(surface.get(Position::new(i32::MIN, 0)), None);
}

#[test]
fn the_offset_is_added_before_the_lookup() {
    let surface = pattern(3, 2).with_offset(Position::new(1, 1));
    assert_eq!(surface.position(), Position::new(1, 1));
    assert_eq!(surface.get(Position::new(0, 0)), Some(&111));
    assert_eq!(surface.get(Position::new(-1, -1)), Some(&100));
    assert_eq!(surface.get(Position::new(2, 0)), None);
}

#[test]
fn set_and_replace_ignore_positions_outside() {
    let mut surface = pattern(2, 2);
    surface.set(Position::new(2, 0), 1);
    assert_eq!(cells(&surface), vec![100, 101, 110, 111]);
    assert_eq!(surface.replace(Position::new(1, 1), 5), Some(111));
    assert_eq!(surface.replace(Position::new(1, 2), 5), None);
    assert_eq!(cells(&surface), vec![100, 101, 110, 5]);
    if let Some(cell) = surface.get_mut(Position::new(0, 0)) {
        *cell = 9;
    }
    assert!(surface.get_mut(Position::new(0, 5)).is_none());
    assert_eq!(cells(&surface), vec![9, 101, 110, 5]);
}

#[test]
fn resize_keep_to_a_smaller_size_keeps_the_top_left() {
    let mut surface = pattern(5, 5);
    surface.resize(Size::new(3, 3), ResizeMode::Keep);
    assert_eq!(surface.size(), Size::new(3, 3));
    assert_eq!(cells(&surface), vec![100, 101, 102, 110, 111, 112, 120, 121, 122]);
}

#[test]
fn resize_keep_to_a_larger_size_fills_the_border() {
    let mut surface = pattern(5, 5);
    surface.resize(Size::new(7, 7), ResizeMode::Keep);
    assert_eq!(surface.size(), Size::new(7, 7));
    for y in 0..7 {
        for x in 0..7 {
            let expected = if x < 5 && y < 5 { 100 + y * 10 + x } else { 0 };
            assert_eq!(surface.get(Position::new(x as i32, y as i32)), Some(&expected));
        }
    }
}

#[test]
fn resize_discard_resets_every_cell() {
    let mut surface = pattern(2, 2);
    surface.resize(Size::new(2, 2), ResizeMode::Discard);
    assert_eq!(cells(&surface), vec![0, 0, 0, 0]);
    let mut other = pattern(2, 2);
    other.resize(Size::new(3, 1), ResizeMode::Discard);
    assert_eq!(cells(&other), vec![0, 0, 0]);
}

#[test]
fn fill_and_clear() {
    let mut surface = pattern(2, 2);
    surface.fill(4);
    assert_eq!(cells(&surface), vec![4, 4, 4, 4]);
    surface.clear();
    assert_eq!(cells(&surface), vec![0, 0, 0, 0]);
}

#[test]
fn rows_are_copied_in_buffer_order() {
    let mut surface = pattern(3, 2);
    surface.copy_row(Position::new(0, 1), &[1, 2]);
    assert_eq!(cells(&surface), vec![100, 101, 102, 1, 2, 112]);
    surface.clone_row(Position::new(1, 0), &[7, 8, 9, 10]);
    assert_eq!(cells(&surface), vec![100, 7, 8, 9, 2, 112]);
    surface.copy_row(Position::new(2, 1), &[5, 6, 7]);
    assert_eq!(cells(&surface), vec![100, 7, 8, 9, 2, 5]);
    surface.copy_row(Position::new(3, 0), &[5]);
    surface.copy_row(Position::new(-1, 0), &[5]);
    surface.clone_row(Position::new(0, 2), &[5]);
    assert_eq!(cells(&surface), vec![100, 7, 8, 9, 2, 5]);
}

#[test]
fn iteration_gives_positions_row_by_row() {
    let surface = pattern(2, 2);
    let all: Vec<(Position, u32)> = surface.iter().into_iter().map(|(p, v)| (p, *v)).collect();
    assert_eq!(
        all,
        vec![
            (Position::new(0, 0), 100),
            (Position::new(1, 0), 101),
            (Position::new(0, 1), 110),
            (Position::new(1, 1), 111),
        ]
    );
    let rows = surface.rows();
    assert_eq!(rows.len(), 2);
    assert_eq!(rows[1].0, 1);
    assert_eq!(rows[1].1, &[110, 111][..]);
}

#[test]
fn indexing_reads_a_cell() {
    let surface = pattern(3, 2);
    assert_eq!(surface[Position::<i32>::new(1, 1)], 111);
    assert_eq!(surface[Position::<u32>::new(2, 0)], 102);
}
