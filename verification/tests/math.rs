use mars::{Anchor, Anchor2, Axis, Delta, Margin, Num, Position, Size};

#[test]
fn anchor_center_rounds_half_to_even() {
    let offset = Anchor2::center_center().offset(Size::new(10, 4), Size::new(4, 1));
    assert_eq!((offset.x, offset.y), (3, 2));
    assert_eq!(Anchor::Center.offset(1, 0), 0);
    assert_eq!(Anchor::Center.offset(3, 0), 2);
    assert_eq!(Anchor::Center.offset(5, 0), 2);
    assert_eq!(Anchor::Center.offset(7, 0), 4);
    assert_eq!(Anchor::Center.offset(0, 1), 0);
    assert_eq!(Anchor::Center.offset(0, 3), -2);
    assert_eq!(Anchor::Center.offset(0, 5), -2);
}

#[test]
fn anchors_at_the_ends() {
    assert_eq!(Anchor::Min.offset(10, 4), 0);
    assert_eq!(Anchor::Max.offset(10, 4), 6);
    assert_eq!(Anchor::Max.offset(4, 10), -6);
    assert_eq!(Anchor::LEFT, Anchor::Min);
    assert_eq!(Anchor::BOTTOM, Anchor::Max);
    assert_eq!(Anchor::CENTER, Anchor::Center);
    let corner = Anchor2::right_bottom().offset(Size::new(10, 4), Size::new(4, 1));
    assert_eq!((corner.x, corner.y), (6, 3));
    assert_eq!(Anchor2::left_top(), Anchor2 { x: Anchor::Min, y: Anchor::Min });
    assert_eq!(Anchor2::center_top(), Anchor2 { x: Anchor::Center, y: Anchor::Min });
    assert_eq!(Anchor2::right_top(), Anchor2 { x: Anchor::Max, y: Anchor::Min });
    assert_eq!(Anchor2::left_center(), Anchor2 { x: Anchor::Min, y: Anchor::Center });
    assert_eq!(Anchor2::right_center(), Anchor2 { x: Anchor::Max, y: Anchor::Center });
    assert_eq!(Anchor2::left_bottom(), Anchor2 { x: Anchor::Min, y: Anchor::Max });
    assert_eq!(Anchor2::center_bottom(), Anchor2 { x: Anchor::Center, y: Anchor::Max });
}

#[test]
fn axis_picks_components() {
    let pos: Position = Position::new(3, 7);
    assert_eq!(Axis::Horizontal.main::<i32, Position>(pos), 3);
    assert_eq!(Axis::Vertical.main::<i32, Position>(pos), 7);
    assert_eq!(Axis::Horizontal.cross::<i32, Position>(pos), 7);
    assert_eq!(Axis::Vertical.cross::<i32, Position>(pos), 3);
    assert_eq!(Axis::Vertical.unpack::<i32, Position>(pos), (7, 3));
    let packed: Position = Axis::Vertical.pack(1, 2);
    assert_eq!(packed, Position::new(2, 1));
    assert!(Axis::Vertical.is_vertical());
    assert!(Axis::Horizontal.is_horizontal());
    assert_eq!(!Axis::Horizontal, Axis::Vertical);
}

#[test]
fn axis_takes_plain_pairs() {
    assert_eq!(Axis::Horizontal.unpack((3, 7)), (3, 7));
    assert_eq!(Axis::Vertical.unpack((3, 7)), (7, 3));
    assert_eq!(Axis::Horizontal.main((3, 7)), 3);
    assert_eq!(Axis::Vertical.main((3, 7)), 7);
    assert_eq!(Axis::Horizontal.cross((3, 7)), 7);
    assert_eq!(Axis::Vertical.cross((3, 7)), 3);
    for axis in [Axis::Horizontal, Axis::Vertical] {
        let packed: (i32, i32) = axis.pack(1, 2);
        assert_eq!(axis.unpack(packed), (1, 2));
        assert_eq!(axis.cross(packed), 2);
    }
}

#[test]
fn positions_and_sizes_compare_by_component() {
    let a: Position = Position::new(1, 9);
    let b: Position = Position::new(5, 2);
    assert_eq!(a.min(b), Position::new(1, 2));
    assert_eq!(a.max(b), Position::new(5, 9));
    assert_eq!(Position::new(7, -3).clamp(Position::new(0, 0), Position::new(5, 5)), Position::new(5, 0));
    let s: Size = Size::new(4, 3);
    assert_eq!(s.area(), 12);
    assert_eq!(s.min(Size::new(2, 8)), Size::new(2, 3));
    assert_eq!(s.max(Size::new(2, 8)), Size::new(4, 8));
    assert_eq!(s.clamp(Size::new(5, 0), Size::new(9, 2)), Size::new(5, 2));
    assert_eq!(s.to_position(), Position::<u32>::new(4, 3));
    assert_eq!(a.to_size(), Size::<i32>::new(1, 9));
}

#[test]
fn signed_and_unsigned_conversions() {
    assert_eq!(Position::<i32>::new(1, 2).to_unsigned_checked(), Some(Position::<u32>::new(1, 2)));
    assert_eq!(Position::<i32>::new(-1, 2).to_unsigned_checked(), None);
    assert_eq!(Position::<u32>::new(1, 2).to_signed_checked(), Some(Position::<i32>::new(1, 2)));
    assert_eq!(Position::<u32>::new(1, u32::MAX).to_signed_checked(), None);
    assert_eq!(Position::<u32>::new(1, 2).to_signed(), Position::<i32>::new(1, 2));
    assert_eq!(Position::<i32>::new(1, 2).to_unsigned(), Position::<u32>::new(1, 2));
    assert_eq!(Size::<i32>::new(3, -1).to_unsigned_checked(), None);
    assert_eq!(Size::<i32>::new(3, 1).to_unsigned(), Size::<u32>::new(3, 1));
    assert_eq!(Size::<u32>::new(3, 1).to_signed(), Size::<i32>::new(3, 1));
    assert_eq!(Size::<u32>::new(0x8000_0000, 1).to_signed_checked(), None);
}

#[test]
fn position_arithmetic() {
    let a: Position = Position::new(6, 8);
    let b: Position = Position::new(2, 4);
    assert_eq!(a + b, Position::new(8, 12));
    assert_eq!(a - b, Position::new(4, 4));
    assert_eq!(a * b, Position::new(12, 32));
    assert_eq!(a / b, Position::new(3, 2));
    assert_eq!(a + 1, Position::new(7, 9));
    assert_eq!(a * 2, Position::new(12, 16));
    assert_eq!(!a, Position::new(-6, -8));
    assert_eq!(a.delta(b), Delta::new(-4, -4));
    assert_eq!(Position::<i32>::zero(), Position::new(0, 0));
    assert_eq!(Position::<i32>::from((1, 2)), Position::new(1, 2));
    assert_eq!(Position::<i32>::from([1, 2]), Position::new(1, 2));
    assert_eq!(Position::<i32>::from(5), Position::new(5, 5));
    assert_eq!(<(i32, i32)>::from(a), (6, 8));
    assert_eq!(Size::<u32>::new(6, 8) - Size::new(1, 1), Size::new(5, 7));
    assert_eq!(Size::<u32>::from(3), Size::new(3, 3));
    assert_eq!(Delta::<i32>::zero(), Delta::new(0, 0));
    assert_eq!(Delta::<i32>::one(), Delta::new(1, 1));
}

#[test]
fn margins() {
    let m: Margin = Margin::new(1, 2, 3, 4);
    assert_eq!(m.sum(), Size::new(3, 7));
    assert_eq!(m.left_top(), Position::<u32>::new(1, 3));
    assert_eq!(m.right_bottom(), Position::<u32>::new(2, 4));
    let s: Margin = Margin::symmetric(5, 6);
    assert_eq!((s.left, s.right, s.top, s.bottom), (5, 5, 6, 6));
    let same: Margin = Margin::same(7);
    assert_eq!(same.sum(), Size::new(14, 14));
    let zero: Margin = Margin::zero();
    assert_eq!(zero.sum(), Size::new(0, 0));
    let one: Margin<i32> = Margin::one();
    assert_eq!(one.left, 1);
}

#[test]
fn numbers() {
    assert_eq!(Num::min(3i32, -4), -4);
    assert_eq!(Num::max(3u32, 4), 4);
    assert_eq!(Num::clamp(9i32, 0, 5), 5);
    assert_eq!(Num::clamp(-9i32, 0, 5), 0);
    assert_eq!(<u32 as Num>::ZERO, 0);
    assert_eq!(<i32 as Num>::ONE, 1);
    assert_eq!(<i32 as Num>::MIN, i32::MIN);
    assert_eq!(<u32 as Num>::MAX, u32::MAX);
}
