use pix_engine::draw::{Draw, DrawCommand};
use pix_engine::color::Color;
use pix_engine::shape::line::{Line, LineI2};
use pix_engine::shape::point::Point;
use pix_engine::shape::rect::Pos;
use pix_engine::shape::triangle::{Tri, TriI2};
use pix_engine::state::PixState;

#[test]
fn points_hold_their_coordinates() {
    let p = Point::from_xy(3, 4);
    assert_eq!(p.x(), 3);
    assert_eq!(p.y(), 4);
    assert_eq!(p.values(), [3, 4]);
    assert_eq!(p.to_vec(), vec![3, 4]);
    assert_eq!(p.pos(), Pos::new(3, 4));
    assert_eq!(Point::from_xyz(1u8, 2, 3).to_vec(), vec![1, 2, 3]);
    assert_eq!(Point::new([7i64; 5]).to_vec(), vec![7; 5]);
    assert_eq!(Point::<u8, 0>::new([]).to_vec(), Vec::<u8>::new());
}

#[test]
fn lines_have_start_and_end() {
    let p1 = Point::from_xy(5, 10);
    let p2 = Point::from_xy(100, 100);
    let mut l = Line::new(p1, p2);
    assert_eq!(l.as_array(), [p1, p2]);
    assert_eq!(l.as_bytes(), &[p1, p2]);
    assert_eq!(l.start(), p1);
    assert_eq!(l.end(), p2);
    assert_eq!(l.to_vec(), vec![vec![5, 10], vec![100, 100]]);
    assert_eq!(l, Line::from_xy(5, 10, 100, 100));

    l.set_start(Point::from_xy(1, 2));
    assert_eq!(l, Line::from_xy(1, 2, 100, 100));
    l.set_end(Point::from_xy(3, 4));
    assert_eq!(l, Line::from_xy(1, 2, 3, 4));
    for p in l.as_bytes_mut() {
        *p = Point::from_xy(p.x() + 5, p.y() + 5);
    }
    assert_eq!(l.as_bytes(), &[Point::from_xy(6, 7), Point::from_xy(8, 9)]);

    let l = Line::from_xyz(10, 20, 10, 30, 10, 40);
    assert_eq!(l.as_array(), [Point::from_xyz(10, 20, 10), Point::from_xyz(30, 10, 40)]);
    assert_eq!(l.to_vec(), vec![vec![10, 20, 10], vec![30, 10, 40]]);
}

#[test]
fn triangles_have_three_corners() {
    let p1 = Point::from_xy(10, 20);
    let p2 = Point::from_xy(30, 10);
    let p3 = Point::from_xy(20, 25);
    let mut tri: TriI2 = Tri::new(p1, p2, p3);
    assert_eq!(tri.p1().values(), [10, 20]);
    assert_eq!(tri.p2().values(), [30, 10]);
    assert_eq!(tri.p3().values(), [20, 25]);
    assert_eq!(tri.values(), [p1, p2, p3]);
    assert_eq!(tri.to_vec(), vec![p1, p2, p3]);
    tri.set_p1(p3);
    tri.set_p2(p1);
    tri.set_p3(p2);
    assert_eq!(tri.values(), [p3, p1, p2]);
}

#[test]
fn shapes_draw_themselves_with_the_settings() {
    let mut s = PixState::init("test");
    let red = Color::rgb(255, 0, 0);
    let blue = Color::rgb(0, 0, 255);
    s.stroke(red);
    let line: LineI2 = Line::from_xy(1, 2, 3, 4);
    line.draw(&mut s).unwrap();
    s.fill(blue);
    let tri: TriI2 =
        Tri::new(Point::from_xy(10, 20), Point::from_xy(30, 10), Point::from_xy(20, 25));
    tri.draw(&mut s).unwrap();
    s.no_stroke();
    s.triangle(tri);
    s.stroke(blue);
    s.point(Pos::new(7, 8));
    s.rect(pix_engine::shape::rect::Rect::new(1, 2, 3, 4));
    let commands = s.take_commands();
    assert_eq!(commands.len(), 5);
    assert!(matches!(
        &commands[3],
        DrawCommand::Pixel { pos, stroke: Some(c) } if *pos == Pos::new(7, 8) && *c == blue
    ));
    assert!(matches!(
        &commands[4],
        DrawCommand::Rect { rect, fill: Some(_), stroke: Some(_) }
            if *rect == pix_engine::shape::rect::Rect::new(1, 2, 3, 4)
    ));
    match &commands[0] {
        DrawCommand::Line { start, end, stroke, weight } => {
            assert_eq!(*start, Pos::new(1, 2));
            assert_eq!(*end, Pos::new(3, 4));
            assert_eq!(*stroke, Some(red));
            assert_eq!(*weight, 1);
        }
        other => panic!("unexpected command {:?}", other),
    }
    match &commands[1] {
        DrawCommand::Triangle { p1, p2, p3, fill, stroke } => {
            assert_eq!((*p1, *p2, *p3), (Pos::new(10, 20), Pos::new(30, 10), Pos::new(20, 25)));
            assert_eq!(*fill, Some(blue));
            assert_eq!(*stroke, Some(red));
        }
        other => panic!("unexpected command {:?}", other),
    }
    assert!(matches!(
        &commands[2],
        DrawCommand::Triangle { fill: Some(_), stroke: None, .. }
    ));
}
