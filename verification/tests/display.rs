use rubiks::cube::Cube;

#[test]
fn test_display() {
    let mut cube = Cube::new();
    assert_eq!(
        "
          Y Y Y

          R R R
          R R R
          R R R

Y  B B B  W W W  G G G  Y
Y  B B B  W W W  G G G  Y
Y  B B B  W W W  G G G  Y

          O O O
          O O O
          O O O

          Y Y Y",
        format!("\n{}", cube.render())
    );

    cube.rotate_front_clockwise();
    assert_eq!(
        "
          Y Y Y

          R R R
          R R R
          B B B

Y  B B O  W W W  R G G  Y
Y  B B O  W W W  R G G  Y
Y  B B O  W W W  R G G  Y

          G G G
          O O O
          O O O

          Y Y Y",
        format!("\n{}", cube.render())
    );

    cube.rotate_right_clockwise();
    assert_eq!(
        "
          Y Y B

          R R W
          R R W
          B B W

Y  B B O  W W G  R R R  B
Y  B B O  W W O  G G G  R
Y  B B O  W W O  G G G  R

          G G Y
          O O Y
          O O Y

          Y Y R",
        format!("\n{}", cube.render())
    );

    cube.rotate_left_clockwise();
    assert_eq!(
        "
          O Y B

          Y R W
          Y R W
          Y B W

O  B B B  R W G  R R R  B
O  B B B  R W O  G G G  R
G  O O O  B W O  G G G  R

          W G Y
          W O Y
          W O Y

          G Y R",
        format!("\n{}", cube.render())
    );
}
