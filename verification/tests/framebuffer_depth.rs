use solar_renderer::fixed::Fixed;
use solar_renderer::framebuffer::Framebuffer;
use solar_renderer::framebuffer::STAR_COLOR;

fn depth(i: i32) -> Fixed {
    Fixed::from_int(i)
}

#[test]
fn a_new_framebuffer_is_black_and_infinitely_deep() {
    let fb = Framebuffer::new(4, 3);
    assert_eq!(fb.width, 4);
    assert_eq!(fb.height, 3);
    assert_eq!(fb.buffer, vec![0u32; 12]);
    assert_eq!(fb.zbuffer, vec![Fixed::infinity(); 12]);
    assert_eq!(fb.background_color, 0x000000);
    assert_eq!(fb.current_color, 0xFFFFFF);
    assert!(fb.star_positions.is_empty());
}

#[test]
fn a_framebuffer_without_pixels_ignores_every_write() {
    let mut fb = Framebuffer::new(0, 5);
    fb.point(0, 0, depth(1));
    fb.clear();
    fb.add_stars(0);
    assert!(fb.buffer.is_empty());
    assert!(fb.zbuffer.is_empty());
}

#[test]
fn a_write_lands_in_the_cell_of_its_row_and_column() {
    let mut fb = Framebuffer::new(4, 3);
    fb.set_current_color(0x123456);
    fb.point(1, 2, depth(5));
    for i in 0..12 {
        if i == 2 * 4 + 1 {
            assert_eq!(fb.buffer[i], 0x123456);
            assert_eq!(fb.zbuffer[i], depth(5));
        } else {
            assert_eq!(fb.buffer[i], 0);
            assert_eq!(fb.zbuffer[i], Fixed::infinity());
        }
    }
}

#[test]
fn equal_depths_never_overwrite() {
    let mut fb = Framebuffer::new(3, 3);
    fb.set_current_color(0xFF0000);
    fb.point(1, 1, depth(5));
    fb.set_current_color(0x00FF00);
    fb.point(1, 1, depth(5));
    assert_eq!(fb.buffer[4], 0xFF0000);
    assert_eq!(fb.zbuffer[4], depth(5));
}

#[test]
fn a_second_write_lands_exactly_when_it_is_nearer() {
    let first = Fixed::from_raw(1000);
    for second_raw in [i32::MIN, -1, 0, 998, 999, 1000, 1001, 1002, i32::MAX] {
        let second = Fixed::from_raw(second_raw);
        let mut fb = Framebuffer::new(2, 2);
        fb.set_current_color(0xAAAAAA);
        fb.point(1, 0, first);
        fb.set_current_color(0xBBBBBB);
        fb.point(1, 0, second);
        if second_raw < 1000 {
            assert_eq!(fb.buffer[1], 0xBBBBBB);
            assert_eq!(fb.zbuffer[1], second);
        } else {
            assert_eq!(fb.buffer[1], 0xAAAAAA);
            assert_eq!(fb.zbuffer[1], first);
        }
    }
}

#[test]
fn an_infinitely_deep_write_never_lands() {
    let mut fb = Framebuffer::new(2, 2);
    fb.point(0, 0, Fixed::infinity());
    assert_eq!(fb.buffer[0], 0);
    assert_eq!(fb.zbuffer[0], Fixed::infinity());
}

#[test]
fn writes_outside_the_planes_are_ignored() {
    let mut fb = Framebuffer::new(4, 3);
    fb.point(4, 0, depth(1));
    fb.point(0, 3, depth(1));
    fb.point(4, 3, depth(1));
    fb.point(5, 1, depth(1));
    fb.point(usize::MAX, usize::MAX, depth(1));
    fb.point(usize::MAX, 0, depth(1));
    assert_eq!(fb.buffer, vec![0u32; 12]);
    assert_eq!(fb.zbuffer, vec![Fixed::infinity(); 12]);
}

#[test]
fn the_depth_test_does_not_depend_on_the_order() {
    let mut one = Framebuffer::new(2, 2);
    one.set_current_color(0x111111);
    one.point(1, 1, depth(2));
    one.set_current_color(0x222222);
    one.point(1, 1, depth(1));

    let mut other = Framebuffer::new(2, 2);
    other.set_current_color(0x222222);
    other.point(1, 1, depth(1));
    other.set_current_color(0x111111);
    other.point(1, 1, depth(2));

    assert_eq!(one.buffer, other.buffer);
    assert_eq!(one.zbuffer, other.zbuffer);
    assert_eq!(one.buffer[3], 0x222222);
    assert_eq!(one.zbuffer[3], depth(1));
}

#[test]
fn clearing_resets_both_planes_whatever_was_drawn() {
    let mut fb = Framebuffer::new(3, 2);
    fb.set_background_color(0x102030);
    fb.set_current_color(0xFF00FF);
    fb.point(0, 0, depth(3));
    fb.point(2, 1, depth(-3));
    fb.point(1, 1, Fixed::from_raw(i32::MIN));
    fb.clear();
    assert_eq!(fb.buffer, vec![0x102030u32; 6]);
    assert_eq!(fb.zbuffer, vec![Fixed::infinity(); 6]);
    // The drawing color survives a clear, and the planes take writes again.
    fb.point(2, 1, depth(100));
    assert_eq!(fb.buffer[5], 0xFF00FF);
    assert_eq!(fb.zbuffer[5], depth(100));
}

#[test]
fn the_background_color_only_shows_after_a_clear() {
    let mut fb = Framebuffer::new(2, 1);
    fb.set_background_color(0x0000FF);
    assert_eq!(fb.buffer, vec![0u32; 2]);
    fb.clear();
    assert_eq!(fb.buffer, vec![0x0000FFu32; 2]);
}

#[test]
fn placed_stars_are_painted_at_once() {
    let mut fb = Framebuffer::new(3, 3);
    fb.place_stars(&vec![(0, 0), (2, 1)]);
    assert_eq!(fb.star_positions, vec![(0, 0), (2, 1)]);
    assert_eq!(fb.buffer, vec![STAR_COLOR, 0, 0, 0, 0, STAR_COLOR, 0, 0, 0]);
    assert_eq!(fb.zbuffer, vec![Fixed::infinity(); 9]);
}

#[test]
fn a_clear_wipes_the_stars_until_they_are_painted_again() {
    let mut fb = Framebuffer::new(3, 3);
    fb.set_background_color(0x000040);
    fb.place_stars(&vec![(0, 0), (2, 1)]);
    fb.set_current_color(0xFF0000);
    fb.point(0, 0, depth(1));
    fb.point(1, 1, depth(1));
    assert_eq!(fb.buffer[0], 0xFF0000);

    fb.clear();
    let b = 0x000040;
    assert_eq!(fb.buffer, vec![b; 9]);
    assert_eq!(fb.zbuffer, vec![Fixed::infinity(); 9]);
    assert_eq!(fb.star_positions, vec![(0, 0), (2, 1)]);

    fb.paint_stars();
    assert_eq!(fb.buffer, vec![STAR_COLOR, b, b, b, b, STAR_COLOR, b, b, b]);
    assert_eq!(fb.zbuffer, vec![Fixed::infinity(); 9]);
}

#[test]
fn what_is_drawn_later_covers_a_star() {
    let mut fb = Framebuffer::new(2, 1);
    fb.place_stars(&vec![(1, 0)]);
    fb.set_current_color(0x00FF00);
    fb.point(1, 0, depth(30000));
    assert_eq!(fb.buffer, vec![0, 0x00FF00]);
    fb.paint_stars();
    assert_eq!(fb.buffer, vec![0, STAR_COLOR]);
    assert_eq!(fb.zbuffer, vec![Fixed::infinity(), depth(30000)]);
}

#[test]
fn painting_without_stars_changes_nothing() {
    let mut fb = Framebuffer::new(2, 2);
    fb.set_current_color(0x123456);
    fb.point(0, 1, depth(2));
    let colors = fb.buffer.clone();
    let depths = fb.zbuffer.clone();
    fb.paint_stars();
    assert_eq!(fb.buffer, colors);
    assert_eq!(fb.zbuffer, depths);
}

#[test]
fn placing_more_stars_paints_the_old_ones_again() {
    let mut fb = Framebuffer::new(2, 2);
    fb.place_stars(&vec![(1, 1)]);
    fb.set_current_color(0x00FF00);
    fb.point(1, 1, depth(1));
    assert_eq!(fb.buffer[3], 0x00FF00);
    fb.place_stars(&vec![(0, 1), (0, 1)]);
    assert_eq!(fb.star_positions, vec![(1, 1), (0, 1), (0, 1)]);
    assert_eq!(fb.buffer, vec![0, 0, STAR_COLOR, STAR_COLOR]);
    // Stars do not touch the depth plane.
    assert_eq!(fb.zbuffer[3], depth(1));
    assert_eq!(fb.zbuffer[2], Fixed::infinity());
}

#[test]
fn random_stars_lie_inside_the_planes() {
    let mut fb = Framebuffer::new(3, 2);
    fb.add_stars(200);
    assert_eq!(fb.star_positions.len(), 200);
    for &(x, y) in &fb.star_positions {
        assert!(x < 3);
        assert!(y < 2);
        assert_eq!(fb.buffer[y * 3 + x], STAR_COLOR);
    }
    for i in 0..6 {
        let is_star = fb.star_positions.iter().any(|&(x, y)| y * 3 + x == i);
        assert_eq!(fb.buffer[i], if is_star { STAR_COLOR } else { 0 });
    }
    assert_eq!(fb.zbuffer, vec![Fixed::infinity(); 6]);
    fb.add_stars(5);
    assert_eq!(fb.star_positions.len(), 205);
}

#[test]
fn random_stars_on_a_single_pixel() {
    let mut fb = Framebuffer::new(1, 1);
    fb.add_stars(3);
    assert_eq!(fb.star_positions, vec![(0, 0), (0, 0), (0, 0)]);
    assert_eq!(fb.buffer, vec![STAR_COLOR]);
}
