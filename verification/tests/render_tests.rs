use raytracer::color::Color;
use raytracer::framebuffer::Framebuffer;
use raytracer::render::{fill_row, render};

#[test]
fn fill_row_shades_from_left_to_right() {
    let mut row = vec![Color::new(0, 0, 0); 4];
    fill_row(&mut row, 7, &|x: usize, y: usize| Color::new(x as i32, y as i32, 1));
    assert_eq!(
        row,
        vec![Color::new(0, 7, 1), Color::new(1, 7, 1), Color::new(2, 7, 1), Color::new(3, 7, 1)]
    );
}

#[test]
fn fill_row_of_nothing_calls_nothing() {
    let mut row: Vec<Color> = Vec::new();
    fill_row(&mut row, 0, &|_x: usize, _y: usize| -> Color { panic!("no pixel to shade") });
    assert!(row.is_empty());
}

#[test]
fn render_gives_each_pixel_its_own_colour() {
    let mut fb = Framebuffer::new(5, 3);
    render(&mut fb, &|x: usize, y: usize| Color::new(10 * x as i32, 20 * y as i32, 200));
    for y in 0..3usize {
        for x in 0..5usize {
            assert_eq!(fb.buffer[y * 5 + x], Color::new(10 * x as i32, 20 * y as i32, 200));
        }
    }
    assert_eq!(fb.width, 5);
    assert_eq!(fb.height, 3);
}

#[test]
fn render_overwrites_what_was_there() {
    let mut fb = Framebuffer::new(2, 2);
    fb.draw_rectangle(0, 0, 2, 2, Color::new(255, 255, 255));
    render(&mut fb, &|_x: usize, _y: usize| Color::new(0, 90, 150));
    assert!(fb.buffer.iter().all(|c| *c == Color::new(0, 90, 150)));
}

#[test]
fn render_leaves_the_colour_state_alone() {
    let mut fb = Framebuffer::new(2, 2);
    fb.set_background_color(Color::new(1, 2, 3));
    fb.set_current_color(0x040506);
    render(&mut fb, &|_x: usize, _y: usize| Color::new(9, 9, 9));
    assert_eq!(fb.background_color, Color::new(1, 2, 3));
    assert_eq!(fb.current_color, Color::new(4, 5, 6));
}

#[test]
fn render_of_an_empty_framebuffer_does_nothing() {
    let mut narrow = Framebuffer::new(0, 4);
    render(&mut narrow, &|_x: usize, _y: usize| -> Color { panic!("no pixel to shade") });
    assert!(narrow.buffer.is_empty());
    let mut flat = Framebuffer::new(4, 0);
    render(&mut flat, &|_x: usize, _y: usize| -> Color { panic!("no pixel to shade") });
    assert!(flat.buffer.is_empty());
}

#[test]
fn render_of_a_large_frame_matches_a_plain_loop() {
    let shade = |x: usize, y: usize| Color::new((x % 256) as i32, (y % 256) as i32, ((x + y) % 256) as i32);
    let mut fb = Framebuffer::new(130, 90);
    render(&mut fb, &shade);
    let mut expected = Framebuffer::new(130, 90);
    for y in 0..90usize {
        for x in 0..130usize {
            expected.point_with_color(x, y, shade(x, y));
        }
    }
    assert_eq!(fb.buffer, expected.buffer);
}
