use std::cell::Cell;

use solar_renderer::color::Color;
use solar_renderer::fixed::Fixed;
use solar_renderer::fragment::Fragment;
use solar_renderer::framebuffer::Framebuffer;
use solar_renderer::linalg::Mat4;
use solar_renderer::linalg::Vec2;
use solar_renderer::linalg::Vec3;
use solar_renderer::render::assemble_fragments;
use solar_renderer::render::draw_fragment;
use solar_renderer::render::draw_fragments;
use solar_renderer::render::render;
use solar_renderer::render::transform_vertices;
use solar_renderer::shaders::moon_color;
use solar_renderer::shaders::noise_query;
use solar_renderer::shaders::vertex_shader;
use solar_renderer::shaders::NoiseQuery;
use solar_renderer::shaders::NoiseSample;
use solar_renderer::triangle::triangle;
use solar_renderer::uniforms::CelestialBody;
use solar_renderer::uniforms::Uniforms;
use solar_renderer::vertex::Vertex;

fn n(i: i32) -> Fixed {
    Fixed::from_int(i)
}

fn uniforms(body: CelestialBody) -> Uniforms {
    Uniforms {
        model_matrix: Mat4::identity(),
        view_matrix: Mat4::identity(),
        projection_matrix: Mat4::identity(),
        viewport_matrix: Mat4::identity(),
        time: 0,
        current_body: body,
    }
}

fn at(x: i32, y: i32, z: i32) -> Vertex {
    Vertex::new(
        Vec3::new(n(x), n(y), n(z)),
        Vec3::new(n(0), n(0), n(1)),
        Vec2::new(n(0), n(0)),
        n(0),
    )
}

fn flat(surface: i32) -> NoiseSample {
    NoiseSample { surface: Fixed::from_raw(surface), clouds: n(0) }
}

const DARK: u32 = 0xA9A9A9;
const LIGHT: u32 = 0xD3D3D3;

#[test]
fn every_vertex_is_transformed_in_order() {
    let mut u = uniforms(CelestialBody::Moon);
    let o = n(0);
    let i = n(1);
    u.model_matrix = Mat4::new(i, o, o, n(1), o, i, o, n(2), o, o, i, n(3), o, o, o, i);
    let mesh = vec![at(0, 0, 0), at(1, 1, 1), at(-5, 6, 7)];
    let out = transform_vertices(&mesh, &u);
    assert_eq!(out.len(), 3);
    for k in 0..3 {
        assert_eq!(out[k], vertex_shader(&mesh[k], &u));
    }
    assert_eq!(out[0].transformed_position, Vec3::new(n(1), n(2), n(3)));
    assert_eq!(out[2].transformed_position, Vec3::new(n(-4), n(8), n(10)));
    assert!(transform_vertices(&Vec::new(), &u).is_empty());
}

#[test]
fn vertices_are_grouped_in_threes_and_a_partial_group_is_dropped() {
    let u = uniforms(CelestialBody::Moon);
    let first = [at(0, 0, 1), at(2, 0, 1), at(0, 2, 1)];
    let second = [at(5, 5, 2), at(6, 5, 2), at(5, 6, 2)];
    let one = triangle(&first[0], &first[1], &first[2]);
    let two = triangle(&second[0], &second[1], &second[2]);
    assert_eq!(one.len(), 6);
    assert_eq!(two.len(), 3);

    assert!(assemble_fragments(&Vec::new(), &u).is_empty());
    assert!(assemble_fragments(&first[..1].to_vec(), &u).is_empty());
    assert!(assemble_fragments(&first[..2].to_vec(), &u).is_empty());
    assert_eq!(assemble_fragments(&first.to_vec(), &u), one);

    let mut mesh = first.to_vec();
    mesh.push(second[0]);
    assert_eq!(assemble_fragments(&mesh, &u), one);
    mesh.push(second[1]);
    assert_eq!(assemble_fragments(&mesh, &u), one);
    mesh.push(second[2]);
    let mut both = one.clone();
    both.extend(two.iter().copied());
    assert_eq!(assemble_fragments(&mesh, &u), both);
    mesh.push(at(9, 9, 9));
    assert_eq!(assemble_fragments(&mesh, &u), both);
}

#[test]
fn a_fragment_outside_the_planes_is_dropped() {
    let u = uniforms(CelestialBody::Moon);
    let mut fb = Framebuffer::new(3, 2);
    let position = Vec3::new(n(0), n(0), n(0));
    for (x, y) in [(-1, 0), (0, -1), (3, 0), (0, 2), (i32::MIN, i32::MIN), (i32::MAX, 1)] {
        draw_fragment(&mut fb, &u, &Fragment::new(x, y, n(1), position, n(1)), &flat(0));
    }
    assert_eq!(fb.buffer, vec![0u32; 6]);
    assert_eq!(fb.zbuffer, vec![Fixed::infinity(); 6]);
    // A dropped fragment does not even change the drawing color.
    assert_eq!(fb.current_color, 0xFFFFFF);
}

#[test]
fn a_fragment_inside_the_planes_is_shaded_and_depth_tested() {
    let u = uniforms(CelestialBody::Moon);
    let mut fb = Framebuffer::new(3, 2);
    let position = Vec3::new(n(0), n(0), n(0));
    draw_fragment(&mut fb, &u, &Fragment::new(2, 1, n(4), position, n(1)), &flat(0));
    assert_eq!(fb.buffer[5], LIGHT);
    assert_eq!(fb.zbuffer[5], n(4));
    assert_eq!(fb.current_color, LIGHT);
    // Farther away: shaded, but it loses the depth test.
    draw_fragment(&mut fb, &u, &Fragment::new(2, 1, n(5), position, n(1)), &flat(-65536));
    assert_eq!(fb.buffer[5], LIGHT);
    assert_eq!(fb.zbuffer[5], n(4));
    assert_eq!(fb.current_color, DARK);
    draw_fragment(&mut fb, &u, &Fragment::new(2, 1, n(3), position, n(1)), &flat(-65536));
    assert_eq!(fb.buffer[5], DARK);
    assert_eq!(fb.zbuffer[5], n(3));
}

#[test]
fn fragments_are_written_in_order_each_with_its_sample() {
    let u = uniforms(CelestialBody::Moon);
    let position = Vec3::new(n(0), n(0), n(0));
    let fragments = vec![
        Fragment::new(0, 0, n(5), position, n(1)),
        Fragment::new(1, 0, n(5), position, n(1)),
        Fragment::new(0, 0, n(5), position, n(1)),
        Fragment::new(7, 7, n(1), position, n(1)),
        Fragment::new(1, 0, n(4), position, n(1)),
    ];
    let samples = vec![flat(0), flat(0), flat(-65536), flat(-65536), flat(-65536)];
    let mut fb = Framebuffer::new(2, 1);
    draw_fragments(&mut fb, &u, &fragments, &samples);
    // The first of two equally deep fragments wins; the nearer one wins whatever its place.
    assert_eq!(fb.buffer, vec![LIGHT, DARK]);
    assert_eq!(fb.zbuffer, vec![n(5), n(4)]);
    let mut untouched = Framebuffer::new(2, 1);
    draw_fragments(&mut untouched, &u, &Vec::new(), &Vec::new());
    assert_eq!(untouched.buffer, vec![0, 0]);
}

#[test]
fn a_draw_call_reads_the_noise_once_for_every_visible_fragment() {
    let u = uniforms(CelestialBody::Moon);
    let mesh = vec![at(-1, -1, 1), at(4, -1, 1), at(-1, 4, 1)];
    let calls = Cell::new(0usize);
    let asked: std::cell::RefCell<Vec<NoiseQuery>> = std::cell::RefCell::new(Vec::new());
    let noise = |query: NoiseQuery| {
        calls.set(calls.get() + 1);
        asked.borrow_mut().push(query);
        flat(0)
    };
    let mut fb = Framebuffer::new(3, 3);
    render(&mut fb, &u, &mesh, &noise);
    // The triangle covers x + y <= 3 from (-1, -1) on: all nine pixels but (2, 2).
    assert_eq!(calls.get(), 8);
    for y in 0..3usize {
        for x in 0..3usize {
            if x + y <= 3 {
                assert_eq!(fb.buffer[y * 3 + x], LIGHT);
                assert_eq!(fb.zbuffer[y * 3 + x], n(1));
            } else {
                assert_eq!(fb.buffer[y * 3 + x], 0);
                assert_eq!(fb.zbuffer[y * 3 + x], Fixed::infinity());
            }
        }
    }
    let visible: Vec<Fragment> = assemble_fragments(&mesh, &u)
        .into_iter()
        .filter(|f| f.x >= 0 && f.y >= 0 && f.x < 3 && f.y < 3)
        .collect();
    let expected: Vec<NoiseQuery> = visible.iter().map(|f| noise_query(f, &u)).collect();
    assert_eq!(*asked.borrow(), expected);
}

#[test]
fn a_draw_call_colors_each_fragment_by_its_own_sample() {
    let u = uniforms(CelestialBody::Moon);
    // The object-space position of each corner is its screen position, so the query of the
    // fragment at (x, y) asks for the point (20 x, 20 z) with z = 1.
    let mesh = vec![at(0, 0, 1), at(3, 0, 1), at(0, 3, 1)];
    let noise = |query: NoiseQuery| {
        if query.surface.x.raw >= 40 * 65536 {
            flat(65536)
        } else {
            flat(-65536)
        }
    };
    let mut fb = Framebuffer::new(4, 4);
    render(&mut fb, &u, &mesh, &noise);
    let bright = Color::new(240, 240, 240).to_hex();
    for y in 0..4usize {
        for x in 0..4usize {
            let expected = if x + y > 3 {
                0
            } else if x >= 2 {
                bright
            } else {
                DARK
            };
            assert_eq!(fb.buffer[y * 4 + x], expected);
        }
    }
    assert_eq!(moon_color(&flat(65536)).to_hex(), bright);
}

#[test]
fn two_draw_calls_give_the_same_picture_in_either_order() {
    let far = vec![at(0, 0, 2), at(4, 0, 2), at(0, 4, 2)];
    let near = vec![at(0, 0, 1), at(2, 0, 1), at(0, 2, 1)];
    let moon = uniforms(CelestialBody::Moon);
    let earth = uniforms(CelestialBody::earth);
    let noise = |_query: NoiseQuery| flat(0);

    let mut first = Framebuffer::new(5, 5);
    render(&mut first, &moon, &far, &noise);
    render(&mut first, &earth, &near, &noise);
    let mut second = Framebuffer::new(5, 5);
    render(&mut second, &earth, &near, &noise);
    render(&mut second, &moon, &far, &noise);

    assert_eq!(first.buffer, second.buffer);
    assert_eq!(first.zbuffer, second.zbuffer);
    let ground = Color::new(255, 150, 50).to_hex();
    for y in 0..5usize {
        for x in 0..5usize {
            let (color, depth) = if x + y <= 2 {
                (ground, n(1))
            } else if x + y <= 4 {
                (LIGHT, n(2))
            } else {
                (0, Fixed::infinity())
            };
            assert_eq!(first.buffer[y * 5 + x], color);
            assert_eq!(first.zbuffer[y * 5 + x], depth);
        }
    }
}

#[test]
fn a_mesh_without_a_complete_triangle_draws_nothing() {
    let u = uniforms(CelestialBody::sun);
    let calls = Cell::new(0usize);
    let noise = |_query: NoiseQuery| {
        calls.set(calls.get() + 1);
        flat(0)
    };
    let mut fb = Framebuffer::new(2, 2);
    render(&mut fb, &u, &vec![at(0, 0, 1), at(1, 0, 1)], &noise);
    render(&mut fb, &u, &Vec::new(), &noise);
    assert_eq!(calls.get(), 0);
    assert_eq!(fb.buffer, vec![0u32; 4]);
}
