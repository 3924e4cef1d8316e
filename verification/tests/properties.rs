use rubiks::color::Color;
use rubiks::corner::Corner;
use rubiks::cube::Cube;
use rubiks::side::Side;

fn color_index(c: Color) -> usize {
    match c {
        Color::Red => 0,
        Color::Blue => 1,
        Color::White => 2,
        Color::Green => 3,
        Color::Yellow => 4,
        Color::Orange => 5,
    }
}

fn color_counts(cube: &Cube) -> [usize; 6] {
    let mut counts = [0usize; 6];
    for i in 0..4 {
        for j in 0..2 {
            counts[color_index(cube.bottom_sides[i].color(j))] += 1;
            counts[color_index(cube.middle_sides[i].color(j))] += 1;
            counts[color_index(cube.top_sides[i].color(j))] += 1;
        }
        for j in 0..3 {
            counts[color_index(cube.bottom_corners[i].color(j))] += 1;
            counts[color_index(cube.top_corners[i].color(j))] += 1;
        }
    }
    counts
}

#[test]
fn four_turns_of_each_face_are_identity() {
    let solved = Cube::new();
    let mut cube = Cube::new();
    for _ in 0..4 {
        cube.rotate_right_clockwise();
    }
    assert_eq!(solved, cube);
    for _ in 0..4 {
        cube.rotate_left_clockwise();
    }
    assert_eq!(solved, cube);
    for _ in 0..4 {
        cube.rotate_top_clockwise();
    }
    assert_eq!(solved, cube);
    for _ in 0..4 {
        cube.rotate_bottom_clockwise();
    }
    assert_eq!(solved, cube);
    for _ in 0..4 {
        cube.rotate_front_clockwise();
    }
    assert_eq!(solved, cube);
    for _ in 0..4 {
        cube.rotate_back_clockwise();
    }
    assert_eq!(solved, cube);
    for _ in 0..4 {
        cube.rotate_front_counter_clockwise();
    }
    assert_eq!(solved, cube);
}

#[test]
fn counter_clockwise_then_clockwise_is_identity() {
    // The inverse law in the other composition order, from a scrambled state.
    let mut cube = Cube::new();
    cube.rotate_front_clockwise();
    cube.rotate_top_clockwise();
    cube.rotate_right_clockwise();
    let scrambled = cube.render();

    cube.rotate_right_counter_clockwise();
    cube.rotate_right_clockwise();
    assert_eq!(scrambled, cube.render());
    cube.rotate_left_counter_clockwise();
    cube.rotate_left_clockwise();
    assert_eq!(scrambled, cube.render());
    cube.rotate_top_counter_clockwise();
    cube.rotate_top_clockwise();
    assert_eq!(scrambled, cube.render());
    cube.rotate_bottom_counter_clockwise();
    cube.rotate_bottom_clockwise();
    assert_eq!(scrambled, cube.render());
    cube.rotate_front_counter_clockwise();
    cube.rotate_front_clockwise();
    assert_eq!(scrambled, cube.render());
    cube.rotate_back_counter_clockwise();
    cube.rotate_back_clockwise();
    assert_eq!(scrambled, cube.render());
}

#[test]
fn solved_cube_has_eight_facelets_of_each_color() {
    let counts = color_counts(&Cube::new());
    assert_eq!(counts, [8, 8, 8, 8, 8, 8]);
}

#[test]
fn every_rotation_preserves_the_facelet_multiset() {
    let mut cube = Cube::new();
    cube.rotate_front_clockwise();
    cube.rotate_right_clockwise();
    cube.rotate_top_counter_clockwise();
    assert_eq!(color_counts(&cube), [8, 8, 8, 8, 8, 8]);
    cube.rotate_left_clockwise();
    cube.rotate_back_counter_clockwise();
    cube.rotate_bottom_clockwise();
    cube.rotate_left_counter_clockwise();
    cube.rotate_back_clockwise();
    cube.rotate_bottom_counter_clockwise();
    cube.rotate_right_counter_clockwise();
    cube.rotate_top_clockwise();
    cube.rotate_front_counter_clockwise();
    assert_eq!(color_counts(&cube), [8, 8, 8, 8, 8, 8]);
}

#[test]
fn shuffle_preserves_the_facelet_multiset() {
    for _ in 0..20 {
        let mut cube = Cube::new();
        cube.shuffle();
        assert_eq!(color_counts(&cube), [8, 8, 8, 8, 8, 8]);
    }
}

#[test]
fn rotate_random_preserves_the_facelet_multiset() {
    let mut cube = Cube::new();
    for _ in 0..50 {
        cube.rotate_random();
        assert_eq!(color_counts(&cube), [8, 8, 8, 8, 8, 8]);
    }
}

#[test]
fn rotate_random_eventually_moves_a_piece() {
    // A single random rotation never leaves the cube solved, whichever of
    // the twelve moves was drawn.
    let solved = Cube::new();
    for _ in 0..20 {
        let mut cube = Cube::new();
        cube.rotate_random();
        assert_ne!(solved, cube);
    }
}

#[test]
fn color_letters() {
    assert_eq!("R", Color::Red.letter());
    assert_eq!("B", Color::Blue.letter());
    assert_eq!("W", Color::White.letter());
    assert_eq!("G", Color::Green.letter());
    assert_eq!("Y", Color::Yellow.letter());
    assert_eq!("O", Color::Orange.letter());
}

#[test]
fn flip_twice_is_identity() {
    let mut side = Side::new(Color::Red, Color::Blue);
    side.flip();
    assert_eq!(side, Side::new(Color::Blue, Color::Red));
    side.flip();
    assert_eq!(side, Side::new(Color::Red, Color::Blue));
}

#[test]
fn corner_turns_are_inverse_three_cycles() {
    let mut corner = Corner::new(Color::Red, Color::Blue, Color::White);
    corner.clockwise();
    assert_eq!(corner, Corner::new(Color::White, Color::Red, Color::Blue));
    corner.counter_clockwise();
    assert_eq!(corner, Corner::new(Color::Red, Color::Blue, Color::White));
    corner.counter_clockwise();
    assert_eq!(corner, Corner::new(Color::Blue, Color::White, Color::Red));
    corner.clockwise();
    assert_eq!(corner, Corner::new(Color::Red, Color::Blue, Color::White));
}

#[test]
fn rotate_random_with_each_move_number_matches_named_rotations() {
    for i in 0..12 {
        let mut by_number = Cube::new();
        by_number.rotate_front_clockwise();
        by_number.rotate_random_(i);
        let mut by_name = Cube::new();
        by_name.rotate_front_clockwise();
        match i {
            0 => by_name.rotate_front_clockwise(),
            1 => by_name.rotate_front_counter_clockwise(),
            2 => by_name.rotate_right_clockwise(),
            3 => by_name.rotate_right_counter_clockwise(),
            4 => by_name.rotate_top_clockwise(),
            5 => by_name.rotate_top_counter_clockwise(),
            6 => by_name.rotate_left_clockwise(),
            7 => by_name.rotate_left_counter_clockwise(),
            8 => by_name.rotate_bottom_clockwise(),
            9 => by_name.rotate_bottom_counter_clockwise(),
            10 => by_name.rotate_back_clockwise(),
            _ => by_name.rotate_back_counter_clockwise(),
        }
        assert_eq!(by_name, by_number);
    }
}
