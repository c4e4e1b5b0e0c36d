use mnist::render::render_image;

#[test]
fn blank_image_renders_as_background() {
    let image = [0u8; 784];
    let grid = render_image(&image);
    let blank_row = format!("{}\n", "__".repeat(28));
    assert_eq!(grid, blank_row.repeat(28));
}

#[test]
fn nonzero_pixels_render_as_ink() {
    let mut image = [0u8; 784];
    image[0] = 255;
    image[1] = 1; // any nonzero intensity is ink
    image[783] = 17;
    let grid = render_image(&image);
    let lines: Vec<&str> = grid.lines().collect();
    assert_eq!(lines.len(), 28);
    assert_eq!(&lines[0][0..4], "####");
    assert_eq!(&lines[0][4..6], "__");
    assert_eq!(&lines[27][52..56], "__##");
}

#[test]
fn rows_are_rendered_in_order() {
    let mut image = [0u8; 784];
    // Ink the whole second row (pixels 28..56).
    for i in 28..56 {
        image[i] = 9;
    }
    let grid = render_image(&image);
    let lines: Vec<&str> = grid.lines().collect();
    assert_eq!(lines[0], "__".repeat(28));
    assert_eq!(lines[1], "##".repeat(28));
    assert_eq!(lines[2], "__".repeat(28));
}
