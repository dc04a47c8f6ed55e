use surf::tick_math::get_initializable_tick_index;

#[test]
fn rounds_down_positive() {
    assert_eq!(get_initializable_tick_index(4, 8), 0);
    assert_eq!(get_initializable_tick_index(1299, 64), 1280);
}

#[test]
fn rounds_up_negative() {
    assert_eq!(get_initializable_tick_index(-5, 8), 0);
    assert_eq!(get_initializable_tick_index(-1299, 64), -1280);
}

#[test]
fn tick_math_rounds_down_positive() {
    assert_eq!(get_initializable_tick_index(4, 8), 0);
    assert_eq!(get_initializable_tick_index(1299, 64), 1280);
}

#[test]
fn rounds_up_positive() {
    assert_eq!(get_initializable_tick_index(-5, 8), 0);
    assert_eq!(get_initializable_tick_index(-1299, 64), -1280);
}

#[test]
fn exact_multiples_stay() {
    assert_eq!(get_initializable_tick_index(1280, 64), 1280);
    assert_eq!(get_initializable_tick_index(-1280, 64), -1280);
    assert_eq!(get_initializable_tick_index(0, 64), 0);
}
