use easygpu::transform::ScreenTransformation;

#[test]
fn identity_has_ones_on_the_diagonal() {
    let m = ScreenTransformation::identity(0i32, 1i32).to_array();
    assert_eq!(m, [1, 0, 0, 0, 0, 1, 0, 0, 0, 0, 1, 0, 0, 0, 0, 1]);
}

#[test]
fn identity_of_floats() {
    let m = ScreenTransformation::identity(0.0f32, 1.0f32).to_array();
    for (i, value) in m.iter().enumerate() {
        assert_eq!(*value, if i % 5 == 0 { 1.0 } else { 0.0 });
    }
}

#[test]
fn ortho_of_a_window() {
    let m = ScreenTransformation::ortho(0.0f64, 0.0, 800.0, 600.0, -1.0, 1.0, 0.0, 1.0).to_array();
    assert_eq!(
        m,
        [
            2.0 / 800.0, 0.0, 0.0, 0.0,
            0.0, 2.0 / -600.0, 0.0, 0.0,
            0.0, 0.0, -1.0, 0.0,
            -1.0, 1.0, 0.0, 1.0,
        ]
    );
}

#[test]
fn ortho_of_whole_numbers() {
    // left 0, top 4, right 2, bottom 0, near 0, far 1
    let m = ScreenTransformation::ortho(0i32, 4, 2, 0, 0, 1, 0, 1).to_array();
    assert_eq!(m, [1, 0, 0, 0, 0, 0, 0, 0, 0, 0, -2, 0, -1, -1, -1, 1]);
}

#[test]
fn to_array_hands_the_numbers_out() {
    let numbers = [1u8, 2, 3, 4, 5, 6, 7, 8, 9, 10, 11, 12, 13, 14, 15, 16];
    assert_eq!(ScreenTransformation(numbers).to_array(), numbers);
}
