use chip8::graphics::Graphics;

#[test]
fn draw_with_collision_no_overlap() {
    let mut gfx = Graphics::new();
    let bytes = &[0x9A, 0x3C];
    let collision = gfx.draw_with_collision(2, 2, bytes);
    assert_eq!(bytes, &gfx.read_buffer(2, 2, 2)[..]);
    assert_eq!(false, collision);
}

#[test]
fn draw_with_collision_overlap() {
    let mut gfx = Graphics::new();
    let bytes = &[0x9A, 0x3C];
    gfx.draw_with_collision(2, 2, &[bytes[0]]);
    let collision = gfx.draw_with_collision(2, 2, &[bytes[1]]);
    assert_eq!(0xA6, gfx.read_buffer(2, 2, 1)[0]);
    assert_eq!(true, collision);
}
