use cadence::create_app_icon;

/// The icon as the floating-point distance test draws it.
fn float_icon() -> Vec<u8> {
    let width = 32u32;
    let height = 32u32;
    let mut rgba = vec![0u8; (width * height * 4) as usize];
    let cx = 15.5f32;
    let cy = 15.5f32;
    let radius = 14.5f32;
    for y in 0..height {
        for x in 0..width {
            let dx = x as f32 - cx;
            let dy = y as f32 - cy;
            let dist = (dx * dx + dy * dy).sqrt();
            let idx = ((y * width + x) * 4) as usize;
            if dist <= radius {
                let px: [u8; 4] = if dist <= 4.5 {
                    [0xa8, 0xc7, 0xfa, 255]
                } else if dist >= 8.0 && dist <= 11.0 {
                    [0x33, 0x48, 0x72, 255]
                } else {
                    [0x1a, 0x1c, 0x24, 255]
                };
                rgba[idx..idx + 4].copy_from_slice(&px);
            }
        }
    }
    rgba
}

#[test]
fn icon_has_the_right_size() {
    let icon = create_app_icon().unwrap();
    assert_eq!(icon.width, 32);
    assert_eq!(icon.height, 32);
    assert_eq!(icon.rgba.len(), 4096);
}

#[test]
fn icon_matches_the_distance_drawing() {
    let icon = create_app_icon().unwrap();
    assert_eq!(icon.rgba, float_icon());
}

#[test]
fn icon_regions() {
    let icon = create_app_icon().unwrap();
    let px = |x: usize, y: usize| icon.rgba[(y * 32 + x) * 4..(y * 32 + x) * 4 + 4].to_vec();
    assert_eq!(px(15, 15), vec![0xa8, 0xc7, 0xfa, 255]);
    assert_eq!(px(15, 5), vec![0x33, 0x48, 0x72, 255]);
    assert_eq!(px(15, 4), vec![0x1a, 0x1c, 0x24, 255]);
    assert_eq!(px(0, 0), vec![0, 0, 0, 0]);
}
