use ash::vk::Handle;
use grapheme::pass::{Pass, PassOp, Texture};

fn draw_op() -> PassOp {
    PassOp::Draw {
        pipeline: Handle::from_raw(1),
        vertex_buffer: Handle::from_raw(2),
        vertex_count: 3,
        instance_count: 1,
    }
}

fn texture(image: u64, image_view: u64) -> Texture {
    Texture { image: Handle::from_raw(image), image_view: Handle::from_raw(image_view) }
}

#[test]
fn a_new_pass_has_no_outputs() {
    let pass = Pass::new("forward", draw_op());
    assert_eq!(pass.name, "forward");
    assert!(pass.outputs_color.is_empty());
    assert!(pass.opt_output_depth.is_none());
    assert_eq!(pass.op, draw_op());
}

#[test]
fn color_outputs_are_kept_in_order() {
    let first = texture(1, 11);
    let second = texture(2, 12);
    let pass = Pass::new("gbuffer", draw_op()).with_output_color(&first).with_output_color(&second);
    assert_eq!(pass.outputs_color, vec![&first, &second]);
    assert!(pass.opt_output_depth.is_none());
    assert_eq!(pass.name, "gbuffer");
}

#[test]
fn the_last_depth_output_stands() {
    let color = texture(1, 11);
    let depth = texture(3, 13);
    let other = texture(4, 14);
    let pass = Pass::new("depth", draw_op())
        .with_output_depth(&depth)
        .with_output_color(&color)
        .with_output_depth(&other);
    assert_eq!(pass.opt_output_depth, Some(&other));
    assert_eq!(pass.outputs_color, vec![&color]);
    assert_eq!(pass.op, draw_op());
}
