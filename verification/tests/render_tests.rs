use mandelbrot::render::{glyph_for, render_mandelbrot};

#[test]
fn quantization_boundaries_are_exact() {
    assert_eq!(glyph_for(2), " ");
    assert_eq!(glyph_for(3), ".");
    assert_eq!(glyph_for(700), "#");
    assert_eq!(glyph_for(701), "%");
}

#[test]
fn every_bucket_has_its_glyph() {
    assert_eq!(glyph_for(0), " ");
    assert_eq!(glyph_for(5), ".");
    assert_eq!(glyph_for(6), "o");
    assert_eq!(glyph_for(10), "o");
    assert_eq!(glyph_for(11), "*");
    assert_eq!(glyph_for(30), "*");
    assert_eq!(glyph_for(31), "+");
    assert_eq!(glyph_for(100), "+");
    assert_eq!(glyph_for(101), "x");
    assert_eq!(glyph_for(200), "x");
    assert_eq!(glyph_for(201), "$");
    assert_eq!(glyph_for(400), "$");
    assert_eq!(glyph_for(401), "#");
    assert_eq!(glyph_for(1000000), "%");
}

#[test]
fn rendering_keeps_row_order_and_length() {
    let field = vec![vec![0, 3, 6], vec![11, 31, 101], vec![201, 401, 701]];
    let lines = render_mandelbrot(field);
    assert_eq!(lines, vec![" .o".to_string(), "*+x".to_string(), "$#%".to_string()]);
}

#[test]
fn rendering_an_empty_row_gives_an_empty_line() {
    let field = vec![vec![]];
    let lines = render_mandelbrot(field);
    assert_eq!(lines, vec![String::new()]);
}

#[test]
fn rendering_twice_gives_identical_lines() {
    let field = vec![vec![0, 4, 7, 12], vec![42, 150, 300, 500]];
    let first = render_mandelbrot(field.clone());
    let second = render_mandelbrot(field);
    assert_eq!(first, second);
}
