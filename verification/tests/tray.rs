use hanyeongkey::tray::tray_icon_rgba;

#[test]
fn the_tray_icon_is_a_blue_square_with_a_transparent_border() {
    let rgba = tray_icon_rgba();
    assert_eq!(rgba.len(), 32 * 32 * 4);
    let pixel = |x: usize, y: usize| &rgba[(y * 32 + x) * 4..(y * 32 + x) * 4 + 4];
    assert_eq!(pixel(0, 0), [0, 0, 0, 0]);
    assert_eq!(pixel(3, 10), [0, 0, 0, 0]);
    assert_eq!(pixel(4, 4), [37, 99, 235, 255]);
    assert_eq!(pixel(27, 27), [37, 99, 235, 255]);
    assert_eq!(pixel(28, 27), [0, 0, 0, 0]);
    let painted = (0..32 * 32).filter(|i| rgba[i * 4 + 3] == 255).count();
    assert_eq!(painted, 24 * 24);
}
