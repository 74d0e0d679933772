use nuklear_backend_glium::{scissor_rect, ClipRect, ScissorRect};

#[test]
fn negative_x_clamps_left_and_shrinks_width() {
    let r = scissor_rect(ClipRect { x: -10, y: 5, w: 50, h: 20 }, 600);
    assert_eq!(r, ScissorRect { left: 0, bottom: 575, width: 40, height: 20 });
}

#[test]
fn negative_y_clamps_bottom_and_shrinks_height() {
    let r = scissor_rect(ClipRect { x: 30, y: -8, w: 100, h: 50 }, 480);
    assert_eq!(r, ScissorRect { left: 30, bottom: 0, width: 100, height: 42 });
}

#[test]
fn inside_rect_is_flipped_to_bottom_left_origin() {
    let r = scissor_rect(ClipRect { x: 100, y: 200, w: 300, h: 150 }, 600);
    assert_eq!(r, ScissorRect { left: 100, bottom: 250, width: 300, height: 150 });
}

#[test]
fn out_of_range_values_saturate() {
    let r = scissor_rect(ClipRect { x: -100, y: 700, w: 50, h: 20 }, 600);
    assert_eq!(r, ScissorRect { left: 0, bottom: 0, width: 0, height: 20 });
    let big = scissor_rect(ClipRect { x: i64::MAX, y: 0, w: i64::MAX, h: i64::MIN }, 10);
    assert_eq!(big, ScissorRect { left: u32::MAX, bottom: u32::MAX, width: u32::MAX, height: 0 });
}
