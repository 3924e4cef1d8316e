use rubiks::color::Color;
use rubiks::corner::Corner;
use rubiks::cube::Cube;
use rubiks::side::Side;

fn assert_is_solved(cube: &Cube) {
    assert_eq!(
        cube.bottom_sides,
        [
            Side::new(Color::Orange, Color::White),
            Side::new(Color::Orange, Color::Green),
            Side::new(Color::Orange, Color::Yellow),
            Side::new(Color::Orange, Color::Blue),
        ]
    );
    assert_eq!(
        cube.bottom_corners,
        [
            Corner::new(Color::Orange, Color::Blue, Color::White),
            Corner::new(Color::Orange, Color::White, Color::Green),
            Corner::new(Color::Orange, Color::Green, Color::Yellow),
            Corner::new(Color::Orange, Color::Yellow, Color::Blue),
        ]
    );
    assert_eq!(
        cube.middle_sides,
        [
            Side::new(Color::White, Color::Blue),
            Side::new(Color::Blue, Color::Yellow),
            Side::new(Color::Yellow, Color::Green),
            Side::new(Color::Green, Color::White),
        ]
    );
    assert_eq!(
        cube.top_sides,
        [
            Side::new(Color::Red, Color::White),
            Side::new(Color::Red, Color::Blue),
            Side::new(Color::Red, Color::Yellow),
            Side::new(Color::Red, Color::Green),
        ]
    );
    assert_eq!(
        cube.top_corners,
        [
            Corner::new(Color::Red, Color::White, Color::Blue),
            Corner::new(Color::Red, Color::Blue, Color::Yellow),
            Corner::new(Color::Red, Color::Yellow, Color::Green),
            Corner::new(Color::Red, Color::Green, Color::White),
        ]
    );
}

#[test]
fn test_new() {
    assert_is_solved(&Cube::new());
}

#[test]
fn test_rotate_right_clockwise() {
    let mut cube = Cube::new();
    cube.rotate_right_clockwise();
    assert_eq!(
        cube.bottom_sides,
        [
            Side::new(Color::Orange, Color::White),
            Side::new(Color::Yellow, Color::Green),
            Side::new(Color::Orange, Color::Yellow),
            Side::new(Color::Orange, Color::Blue),
        ]
    );
    assert_eq!(
        cube.bottom_corners,
        [
            Corner::new(Color::Orange, Color::Blue, Color::White),
            Corner::new(Color::Yellow, Color::Orange, Color::Green),
            Corner::new(Color::Yellow, Color::Green, Color::Red),
            Corner::new(Color::Orange, Color::Yellow, Color::Blue),
        ]
    );
    assert_eq!(
        cube.middle_sides,
        [
            Side::new(Color::White, Color::Blue),
            Side::new(Color::Blue, Color::Yellow),
            Side::new(Color::Red, Color::Green),
            Side::new(Color::Green, Color::Orange),
        ]
    );
    assert_eq!(
        cube.top_sides,
        [
            Side::new(Color::Red, Color::White),
            Side::new(Color::Red, Color::Blue),
            Side::new(Color::Red, Color::Yellow),
            Side::new(Color::White, Color::Green),
        ]
    );
    assert_eq!(
        cube.top_corners,
        [
            Corner::new(Color::Red, Color::White, Color::Blue),
            Corner::new(Color::Red, Color::Blue, Color::Yellow),
            Corner::new(Color::White, Color::Red, Color::Green),
            Corner::new(Color::White, Color::Green, Color::Orange),
        ]
    );
}

#[test]
fn test_rotate_right_counter_clockwise() {
    let mut cube = Cube::new();
    cube.rotate_right_clockwise();
    cube.rotate_right_counter_clockwise();
    assert_is_solved(&cube);
}

#[test]
fn test_rotate_top_clockwise() {
    let mut cube = Cube::new();
    cube.rotate_top_clockwise();
    assert_eq!(
        cube.bottom_sides,
        [
            Side::new(Color::Orange, Color::White),
            Side::new(Color::Orange, Color::Green),
            Side::new(Color::Orange, Color::Yellow),
            Side::new(Color::Orange, Color::Blue),
        ]
    );
    assert_eq!(
        cube.bottom_corners,
        [
            Corner::new(Color::Orange, Color::Blue, Color::White),
            Corner::new(Color::Orange, Color::White, Color::Green),
            Corner::new(Color::Orange, Color::Green, Color::Yellow),
            Corner::new(Color::Orange, Color::Yellow, Color::Blue),
        ]
    );
    assert_eq!(
        cube.middle_sides,
        [
            Side::new(Color::White, Color::Blue),
            Side::new(Color::Blue, Color::Yellow),
            Side::new(Color::Yellow, Color::Green),
            Side::new(Color::Green, Color::White),
        ]
    );
    assert_eq!(
        cube.top_sides,
        [
            Side::new(Color::Red, Color::Green),
            Side::new(Color::Red, Color::White),
            Side::new(Color::Red, Color::Blue),
            Side::new(Color::Red, Color::Yellow),
        ]
    );
    assert_eq!(
        cube.top_corners,
        [
            Corner::new(Color::Red, Color::Green, Color::White),
            Corner::new(Color::Red, Color::White, Color::Blue),
            Corner::new(Color::Red, Color::Blue, Color::Yellow),
            Corner::new(Color::Red, Color::Yellow, Color::Green),
        ]
    );
}

#[test]
fn test_rotate_top_counter_clockwise() {
    let mut cube = Cube::new();
    cube.rotate_top_clockwise();
    cube.rotate_top_counter_clockwise();
    assert_is_solved(&cube);
}

#[test]
fn test_rotate_bottom_clockwise() {
    let mut cube = Cube::new();
    cube.rotate_bottom_clockwise();
    assert_eq!(
        cube.bottom_sides,
        [
            Side::new(Color::Orange, Color::Blue),
            Side::new(Color::Orange, Color::White),
            Side::new(Color::Orange, Color::Green),
            Side::new(Color::Orange, Color::Yellow),
        ]
    );
    assert_eq!(
        cube.bottom_corners,
        [
            Corner::new(Color::Orange, Color::Yellow, Color::Blue),
            Corner::new(Color::Orange, Color::Blue, Color::White),
            Corner::new(Color::Orange, Color::White, Color::Green),
            Corner::new(Color::Orange, Color::Green, Color::Yellow),
        ]
    );
    assert_eq!(
        cube.middle_sides,
        [
            Side::new(Color::White, Color::Blue),
            Side::new(Color::Blue, Color::Yellow),
            Side::new(Color::Yellow, Color::Green),
            Side::new(Color::Green, Color::White),
        ]
    );
    assert_eq!(
        cube.top_sides,
        [
            Side::new(Color::Red, Color::White),
            Side::new(Color::Red, Color::Blue),
            Side::new(Color::Red, Color::Yellow),
            Side::new(Color::Red, Color::Green),
        ]
    );
    assert_eq!(
        cube.top_corners,
        [
            Corner::new(Color::Red, Color::White, Color::Blue),
            Corner::new(Color::Red, Color::Blue, Color::Yellow),
            Corner::new(Color::Red, Color::Yellow, Color::Green),
            Corner::new(Color::Red, Color::Green, Color::White),
        ]
    );
}

#[test]
fn test_rotate_bottom_counter_clockwise() {
    let mut cube = Cube::new();
    cube.rotate_bottom_clockwise();
    cube.rotate_bottom_counter_clockwise();
    assert_is_solved(&cube);
}

#[test]
fn test_rotate_front_clockwise() {
    let mut cube = Cube::new();
    cube.rotate_front_clockwise();
    assert_eq!(
        cube.bottom_sides,
        [
            Side::new(Color::Green, Color::White),
            Side::new(Color::Orange, Color::Green),
            Side::new(Color::Orange, Color::Yellow),
            Side::new(Color::Orange, Color::Blue),
        ]
    );
    assert_eq!(
        cube.bottom_corners,
        [
            Corner::new(Color::Green, Color::Orange, Color::White),
            Corner::new(Color::Green, Color::White, Color::Red),
            Corner::new(Color::Orange, Color::Green, Color::Yellow),
            Corner::new(Color::Orange, Color::Yellow, Color::Blue),
        ]
    );
    assert_eq!(
        cube.middle_sides,
        [
            Side::new(Color::White, Color::Orange),
            Side::new(Color::Blue, Color::Yellow),
            Side::new(Color::Yellow, Color::Green),
            Side::new(Color::Red, Color::White),
        ]
    );
    assert_eq!(
        cube.top_sides,
        [
            Side::new(Color::Blue, Color::White),
            Side::new(Color::Red, Color::Blue),
            Side::new(Color::Red, Color::Yellow),
            Side::new(Color::Red, Color::Green),
        ]
    );
    assert_eq!(
        cube.top_corners,
        [
            Corner::new(Color::Blue, Color::White, Color::Orange),
            Corner::new(Color::Red, Color::Blue, Color::Yellow),
            Corner::new(Color::Red, Color::Yellow, Color::Green),
            Corner::new(Color::Blue, Color::Red, Color::White),
        ]
    );
}

#[test]
fn test_rotate_front_counter_clockwise() {
    let mut cube = Cube::new();
    cube.rotate_front_clockwise();
    cube.rotate_front_counter_clockwise();
    assert_is_solved(&cube);
}

#[test]
fn test_rotate_left_clockwise() {
    let mut cube = Cube::new();
    cube.rotate_left_clockwise();
    assert_eq!(
        cube.bottom_sides,
        [
            Side::new(Color::Orange, Color::White),
            Side::new(Color::Orange, Color::Green),
            Side::new(Color::Orange, Color::Yellow),
            Side::new(Color::White, Color::Blue),
        ]
    );
    assert_eq!(
        cube.bottom_corners,
        [
            Corner::new(Color::White, Color::Blue, Color::Red),
            Corner::new(Color::Orange, Color::White, Color::Green),
            Corner::new(Color::Orange, Color::Green, Color::Yellow),
            Corner::new(Color::White, Color::Orange, Color::Blue),
        ]
    );
    assert_eq!(
        cube.middle_sides,
        [
            Side::new(Color::Red, Color::Blue),
            Side::new(Color::Blue, Color::Orange),
            Side::new(Color::Yellow, Color::Green),
            Side::new(Color::Green, Color::White),
        ]
    );
    assert_eq!(
        cube.top_sides,
        [
            Side::new(Color::Red, Color::White),
            Side::new(Color::Yellow, Color::Blue),
            Side::new(Color::Red, Color::Yellow),
            Side::new(Color::Red, Color::Green),
        ]
    );
    assert_eq!(
        cube.top_corners,
        [
            Corner::new(Color::Yellow, Color::Red, Color::Blue),
            Corner::new(Color::Yellow, Color::Blue, Color::Orange),
            Corner::new(Color::Red, Color::Yellow, Color::Green),
            Corner::new(Color::Red, Color::Green, Color::White),
        ]
    );
}

#[test]
fn test_rotate_left_counter_clockwise() {
    let mut cube = Cube::new();
    cube.rotate_left_clockwise();
    cube.rotate_left_counter_clockwise();
    assert_is_solved(&cube);
}

#[test]
fn test_rotate_back_clockwise() {
    let mut cube = Cube::new();
    cube.rotate_back_clockwise();
    assert_eq!(
        cube.bottom_sides,
        [
            Side::new(Color::Orange, Color::White),
            Side::new(Color::Orange, Color::Green),
            Side::new(Color::Blue, Color::Yellow),
            Side::new(Color::Orange, Color::Blue),
        ]
    );
    assert_eq!(
        cube.bottom_corners,
        [
            Corner::new(Color::Orange, Color::Blue, Color::White),
            Corner::new(Color::Orange, Color::White, Color::Green),
            Corner::new(Color::Blue, Color::Orange, Color::Yellow),
            Corner::new(Color::Blue, Color::Yellow, Color::Red),
        ]
    );
    assert_eq!(
        cube.middle_sides,
        [
            Side::new(Color::White, Color::Blue),
            Side::new(Color::Red, Color::Yellow),
            Side::new(Color::Yellow, Color::Orange),
            Side::new(Color::Green, Color::White),
        ]
    );
    assert_eq!(
        cube.top_sides,
        [
            Side::new(Color::Red, Color::White),
            Side::new(Color::Red, Color::Blue),
            Side::new(Color::Green, Color::Yellow),
            Side::new(Color::Red, Color::Green),
        ]
    );
    assert_eq!(
        cube.top_corners,
        [
            Corner::new(Color::Red, Color::White, Color::Blue),
            Corner::new(Color::Green, Color::Red, Color::Yellow),
            Corner::new(Color::Green, Color::Yellow, Color::Orange),
            Corner::new(Color::Red, Color::Green, Color::White),
        ]
    );
}

#[test]
fn rotate_back_counter_clockwise() {
    let mut cube = Cube::new();
    cube.rotate_back_clockwise();
    cube.rotate_back_counter_clockwise();
    assert_is_solved(&cube);
}
