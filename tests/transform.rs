use mirkobo::transform::{transform, TransformConfig};

fn plain() -> TransformConfig {
    TransformConfig { shift_x: 0, shift_y: 0, invert_x: false, invert_y: false, swap_axes: false }
}

#[test]
fn scale_then_invert_x_then_swap() {
    let cfg = TransformConfig { shift_x: 0, shift_y: 0, invert_x: true, invert_y: false, swap_axes: true };
    // Same size: x = 600 - 100 = 500, y = 200, swapped.
    assert_eq!(transform((100, 200), (600, 800), &cfg, (600, 800)), Some((200, 500)));
    // View half as wide: x = 100 * 600 / 200 = 300, inverted 300; y = 200 * 800 / 400 = 400.
    assert_eq!(transform((100, 200), (200, 400), &cfg, (600, 800)), Some((400, 300)));
}

#[test]
fn same_inputs_same_output() {
    let cfg = TransformConfig { shift_x: -8, shift_y: -9, invert_x: true, invert_y: true, swap_axes: true };
    let a = transform((123, 456), (450, 600), &cfg, (1072, 1448));
    let b = transform((123, 456), (450, 600), &cfg, (1072, 1448));
    assert_eq!(a, b);
    // x: (115 * 1072) / 450 = 273.95..., inverted 1072 - 273.95 = 798.04 -> 798
    // y: (447 * 1448) / 600 = 1078.76, inverted 1448 - 1078.76 = 369.24 -> 369
    assert_eq!(a, Some((369, 798)));
}

#[test]
fn shift_comes_before_scaling() {
    let cfg = TransformConfig { shift_x: -8, shift_y: -9, ..plain() };
    assert_eq!(transform((10, 10), (100, 100), &cfg, (200, 200)), Some((4, 2)));
}

#[test]
fn truncates_toward_zero() {
    assert_eq!(transform((1, 2), (3, 3), &plain(), (2, 2)), Some((0, 1)));
}

#[test]
fn saturates_at_both_ends() {
    assert_eq!(transform((-5, 70000), (1, 1), &plain(), (1, 1)), Some((0, 65535)));
    let inv = TransformConfig { invert_x: true, ..plain() };
    assert_eq!(transform((700, 0), (600, 600), &inv, (600, 600)), Some((0, 0)));
    assert_eq!(
        transform((i32::MAX, i32::MIN), (1, 1), &TransformConfig { shift_x: i32::MAX, shift_y: i32::MIN, ..plain() }, (u32::MAX, u32::MAX)),
        Some((65535, 0))
    );
}

#[test]
fn empty_view_has_no_mapping() {
    assert_eq!(transform((1, 1), (0, 10), &plain(), (600, 800)), None);
    assert_eq!(transform((1, 1), (10, 0), &plain(), (600, 800)), None);
}
