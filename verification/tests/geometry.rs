use snake::geometry::{pos_to_square, square_to_pos, Point, Rect};

#[test]
fn world_position_maps_to_its_square() {
    let camera = Point { x: 250, y: 250 };
    assert_eq!(pos_to_square(Point { x: 275, y: 275 }, camera), Point { x: 5, y: 5 });
    assert_eq!(pos_to_square(Point { x: 0, y: 499 }, camera), Point { x: 0, y: 9 });
    assert_eq!(pos_to_square(Point { x: 49, y: 50 }, camera), Point { x: 0, y: 1 });
}

#[test]
fn square_maps_to_its_centre() {
    let camera = Point { x: 250, y: 250 };
    assert_eq!(square_to_pos(Point { x: 5, y: 5 }, camera), Point { x: 275, y: 275 });
    assert_eq!(square_to_pos(Point { x: 0, y: 9 }, camera), Point { x: 25, y: 475 });
    let origin = Point { x: 0, y: 0 };
    assert_eq!(square_to_pos(Point { x: 0, y: 0 }, origin), Point { x: -225, y: -225 });
}

#[test]
fn square_survives_the_round_trip() {
    let camera = Point { x: -17, y: 1000 };
    for x in 0..10 {
        for y in 0..10 {
            let cell = Point { x, y };
            assert_eq!(pos_to_square(square_to_pos(cell, camera), camera), cell);
        }
    }
}

#[test]
fn positions_left_of_the_grid_round_towards_zero() {
    let camera = Point { x: 0, y: 0 };
    assert_eq!(pos_to_square(Point { x: -260, y: -299 }, camera), Point { x: 0, y: 0 });
    assert_eq!(pos_to_square(Point { x: -300, y: -349 }, camera), Point { x: -1, y: -1 });
}

#[test]
fn rectangles_that_share_area_intersect() {
    let a = Rect::from_center(0, 0, 50, 50);
    assert!(a.intersects(&Rect::from_center(49, 0, 50, 50)));
    assert!(a.intersects(&Rect::from_center(0, -49, 50, 50)));
    assert!(a.intersects(&Rect::from_center(30, 30, 25, 25)));
    assert!(a.intersects(&a));
}

#[test]
fn rectangles_that_only_touch_do_not_intersect() {
    let a = Rect::from_center(0, 0, 50, 50);
    assert!(!a.intersects(&Rect::from_center(50, 0, 50, 50)));
    assert!(!a.intersects(&Rect::from_center(0, 50, 50, 50)));
    assert!(!a.intersects(&Rect::from_center(100, 0, 50, 50)));
    assert!(!a.intersects(&Rect::from_center(49, 60, 50, 50)));
}

#[test]
fn empty_rectangle_intersects_nothing() {
    let a = Rect::from_center(0, 0, 50, 50);
    assert!(!a.intersects(&Rect::from_center(0, 0, 0, 10)));
    assert!(!Rect::from_center(0, 0, 10, 0).intersects(&a));
}

#[test]
fn odd_sizes_are_compared_exactly() {
    let fruit = Rect::from_center(0, 0, 25, 25);
    let head = Rect::from_center(37, 0, 50, 50);
    assert!(fruit.intersects(&head));
    let head = Rect::from_center(38, 0, 50, 50);
    assert!(!fruit.intersects(&head));
}

#[test]
fn centre_of_a_rectangle() {
    assert_eq!(Rect::from_center(3, -4, 10, 20).center(), Point { x: 3, y: -4 });
    assert_eq!(Point::new(), Point { x: 0, y: 0 });
}
