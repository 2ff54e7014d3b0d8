use solar_renderer::color::Color;
use solar_renderer::fixed::Fixed;
use solar_renderer::fixed::RAW_MAX;
use solar_renderer::fixed::RAW_MIN;
use solar_renderer::linalg::Mat4;
use solar_renderer::linalg::Vec2;
use solar_renderer::linalg::Vec3;
use solar_renderer::linalg::Vec4;
use solar_renderer::shaders::vertex_shader;
use solar_renderer::uniforms::create_model_matrix;
use solar_renderer::uniforms::create_viewport_matrix;
use solar_renderer::uniforms::CelestialBody;
use solar_renderer::uniforms::Uniforms;
use solar_renderer::vertex::Vertex;

fn n(i: i32) -> Fixed {
    Fixed::from_int(i)
}

fn v3(x: i32, y: i32, z: i32) -> Vec3 {
    Vec3::new(n(x), n(y), n(z))
}

fn identity_uniforms() -> Uniforms {
    Uniforms {
        model_matrix: Mat4::identity(),
        view_matrix: Mat4::identity(),
        projection_matrix: Mat4::identity(),
        viewport_matrix: Mat4::identity(),
        time: 0,
        current_body: CelestialBody::earth,
    }
}

fn vertex(position: Vec3, normal: Vec3) -> Vertex {
    Vertex::new(position, normal, Vec2::new(n(0), n(0)), n(0))
}

fn no_rotation() -> (Vec3, Vec3) {
    (v3(0, 0, 0), v3(1, 1, 1))
}

#[test]
fn a_new_vertex_repeats_position_and_normal() {
    let v = Vertex::new(v3(1, 2, 3), v3(0, 1, 0), Vec2::new(n(4), n(5)), n(6));
    assert_eq!(v.position, v3(1, 2, 3));
    assert_eq!(v.normal, v3(0, 1, 0));
    assert_eq!(v.tex_coords, Vec2::new(n(4), n(5)));
    assert_eq!(v.color, Color::black());
    assert_eq!(v.transformed_position, v3(1, 2, 3));
    assert_eq!(v.transformed_normal, v3(0, 1, 0));
    assert_eq!(v.elevation, n(6));
}

#[test]
fn a_colored_vertex_is_zero_elsewhere() {
    let v = Vertex::new_with_color(v3(1, 2, 3), Color::new(9, 8, 7));
    assert_eq!(v.position, v3(1, 2, 3));
    assert_eq!(v.color, Color::new(9, 8, 7));
    assert_eq!(v.normal, v3(0, 0, 0));
    assert_eq!(v.tex_coords, Vec2::new(n(0), n(0)));
    assert_eq!(v.transformed_position, v3(0, 0, 0));
    assert_eq!(v.transformed_normal, v3(0, 0, 0));
    assert_eq!(v.elevation, n(0));
}

#[test]
fn the_default_vertex_points_up() {
    let v = Vertex::default();
    assert_eq!(v.position, v3(0, 0, 0));
    assert_eq!(v.normal, v3(0, 1, 0));
    assert_eq!(v.tex_coords, Vec2::new(n(0), n(0)));
    assert_eq!(v.color, Color::black());
    assert_eq!(v.transformed_position, v3(0, 0, 0));
    assert_eq!(v.transformed_normal, v3(0, 1, 0));
    assert_eq!(v.elevation, n(0));
}

#[test]
fn setting_the_transformed_values_changes_nothing_else() {
    let before = Vertex::new(v3(1, 2, 3), v3(0, 1, 0), Vec2::new(n(4), n(5)), n(6));
    let mut v = before;
    v.set_transformed(v3(7, 8, 9), v3(1, 0, 0));
    assert_eq!(v.transformed_position, v3(7, 8, 9));
    assert_eq!(v.transformed_normal, v3(1, 0, 0));
    v.set_transformed(before.transformed_position, before.transformed_normal);
    assert_eq!(v, before);
}

#[test]
fn elevation_bands() {
    let color_at = |elevation: Fixed| {
        let mut v = Vertex::new(v3(0, 0, 0), v3(0, 1, 0), Vec2::new(n(0), n(0)), elevation);
        v.update_color_based_on_elevation();
        v.color
    };
    let ocean = Color::new(0, 105, 148);
    let land = Color::new(34, 139, 34);
    let mountain = Color::new(139, 69, 19);
    assert_eq!(color_at(n(-5)), ocean);
    assert_eq!(color_at(Fixed::from_raw(-1)), ocean);
    assert_eq!(color_at(n(0)), land);
    assert_eq!(color_at(Fixed::from_raw(32767)), land);
    assert_eq!(color_at(Fixed::from_ratio(1, 2)), mountain);
    assert_eq!(color_at(n(9)), mountain);
}

#[test]
fn identity_matrices_leave_the_position_where_it_is() {
    let u = identity_uniforms();
    for position in [
        v3(0, 0, 0),
        v3(3, -4, 5),
        Vec3::new(Fixed::from_raw(1), Fixed::from_raw(-1), Fixed::from_raw(12345)),
        Vec3::new(Fixed::from_raw(RAW_MAX), Fixed::from_raw(RAW_MIN), n(0)),
    ] {
        let normal = Vec3::new(Fixed::from_raw(7), n(-2), Fixed::from_ratio(1, 3));
        let input = vertex(position, normal);
        let out = vertex_shader(&input, &u);
        assert_eq!(out.transformed_position, position);
        assert_eq!(out.transformed_normal, normal);
        assert_eq!(out.position, position);
        assert_eq!(out.normal, normal);
    }
}

#[test]
fn the_transform_keeps_the_attributes_and_recolors_by_elevation() {
    let mut input = Vertex::new(v3(1, 2, 3), v3(0, 1, 0), Vec2::new(n(4), n(5)), n(-1));
    input.color = Color::new(1, 1, 1);
    let copy = input;
    let out = vertex_shader(&input, &identity_uniforms());
    assert_eq!(input, copy);
    assert_eq!(out.tex_coords, Vec2::new(n(4), n(5)));
    assert_eq!(out.elevation, n(-1));
    assert_eq!(out.color, Color::new(0, 105, 148));
}

#[test]
fn the_viewport_maps_to_pixels_with_y_pointing_down() {
    let viewport = create_viewport_matrix(n(8), n(6));
    let o = n(0);
    let i = n(1);
    assert_eq!(
        viewport,
        Mat4::new(n(4), o, o, n(4), o, n(-3), o, n(3), o, o, i, o, o, o, o, i)
    );
    let big = create_viewport_matrix(n(760), n(800));
    assert_eq!(big.r0, Vec4::new(n(380), o, o, n(380)));
    assert_eq!(big.r1, Vec4::new(o, n(-400), o, n(400)));
    let mut u = identity_uniforms();
    u.viewport_matrix = viewport;
    let at = |x: Fixed, y: Fixed, z: Fixed| {
        vertex_shader(&vertex(Vec3::new(x, y, z), v3(0, 0, 1)), &u).transformed_position
    };
    let h = Fixed::from_ratio(1, 2);
    let q = Fixed::from_ratio(1, 4);
    assert_eq!(at(o, o, o), v3(4, 3, 0));
    assert_eq!(at(n(-1), n(1), o), v3(0, 0, 0));
    assert_eq!(at(n(1), n(-1), i), v3(8, 6, 1));
    assert_eq!(at(h, h, q), Vec3::new(n(6), Fixed::from_raw(98304), q));
}

#[test]
fn the_perspective_divide_divides_by_w() {
    let o = n(0);
    let i = n(1);
    let mut u = identity_uniforms();
    // w becomes twice z.
    u.projection_matrix = Mat4::new(i, o, o, o, o, i, o, o, o, o, i, o, o, o, n(2), o);
    let out = vertex_shader(&vertex(v3(8, -6, 2), v3(0, 0, 1)), &u);
    assert_eq!(
        out.transformed_position,
        Vec3::new(n(2), Fixed::from_raw(-98304), Fixed::from_ratio(1, 2))
    );
}

#[test]
fn a_zero_w_saturates_instead_of_failing() {
    let o = n(0);
    let i = n(1);
    let mut u = identity_uniforms();
    u.projection_matrix = Mat4::new(i, o, o, o, o, i, o, o, o, o, i, o, o, o, o, o);
    let out = vertex_shader(&vertex(v3(8, -6, 0), v3(0, 0, 1)), &u);
    assert_eq!(
        out.transformed_position,
        Vec3::new(Fixed::from_raw(RAW_MAX), Fixed::from_raw(RAW_MIN), n(0))
    );
}

#[test]
fn projection_view_and_model_apply_from_the_right() {
    let o = n(0);
    let i = n(1);
    let mut u = identity_uniforms();
    // The model doubles, the view moves by (1, 1, 1), the projection swaps x and y.
    u.model_matrix = Mat4::new(n(2), o, o, o, o, n(2), o, o, o, o, n(2), o, o, o, o, i);
    u.view_matrix = Mat4::new(i, o, o, i, o, i, o, i, o, o, i, i, o, o, o, i);
    u.projection_matrix = Mat4::new(o, i, o, o, i, o, o, o, o, o, i, o, o, o, o, i);
    let out = vertex_shader(&vertex(v3(1, 2, 3), v3(0, 0, 1)), &u);
    assert_eq!(out.transformed_position, v3(5, 3, 7));
}

#[test]
fn normals_go_through_the_inverse_transpose_of_the_model() {
    let o = n(0);
    let i = n(1);
    let mut u = identity_uniforms();
    u.model_matrix = Mat4::new(n(2), o, o, n(5), o, n(4), o, n(6), o, o, n(8), n(7), o, o, o, i);
    let out = vertex_shader(&vertex(v3(0, 0, 0), v3(2, 4, 8)), &u);
    assert_eq!(out.transformed_normal, v3(1, 1, 1));
    assert_eq!(out.transformed_position, v3(5, 6, 7));
    // A shear: the model maps (x, y, z) to (x + y, y, z); its inverse transpose maps the
    // normal (a, b, c) to (a, b - a, c).
    u.model_matrix = Mat4::new(i, i, o, o, o, i, o, o, o, o, i, o, o, o, o, i);
    let out = vertex_shader(&vertex(v3(0, 0, 0), v3(3, 5, 7)), &u);
    assert_eq!(out.transformed_normal, v3(3, 2, 7));
}

#[test]
fn a_singular_model_keeps_the_normal() {
    let o = n(0);
    let i = n(1);
    let mut u = identity_uniforms();
    u.model_matrix = Mat4::new(n(2), o, o, o, o, o, o, o, o, o, n(2), o, o, o, o, i);
    let out = vertex_shader(&vertex(v3(1, 1, 1), v3(3, 5, 7)), &u);
    assert_eq!(out.transformed_normal, v3(3, 5, 7));
    assert_eq!(out.transformed_position, v3(2, 0, 2));
}

#[test]
fn a_model_matrix_without_rotation_scales_and_translates() {
    let (sin, cos) = no_rotation();
    let m = create_model_matrix(v3(1, 2, 3), n(2), sin, cos);
    let o = n(0);
    let i = n(1);
    assert_eq!(
        m,
        Mat4::new(n(2), o, o, n(1), o, n(2), o, n(2), o, o, n(2), n(3), o, o, o, i)
    );
    assert_eq!(m.apply(Vec4::new(n(1), n(1), n(1), n(1))), Vec4::new(n(3), n(4), n(5), n(1)));
}

#[test]
fn a_model_matrix_rotates_about_x_then_y_then_z() {
    let o = n(0);
    let i = n(1);
    let point = |x: i32, y: i32, z: i32| Vec4::new(n(x), n(y), n(z), i);
    // A quarter turn about z takes x to y.
    let about_z = create_model_matrix(v3(0, 0, 0), i, v3(0, 0, 1), v3(1, 1, 0));
    assert_eq!(about_z.apply(point(1, 0, 0)), point(0, 1, 0));
    assert_eq!(about_z.apply(point(0, 1, 0)), point(-1, 0, 0));
    // A quarter turn about x takes y to z.
    let about_x = create_model_matrix(v3(0, 0, 0), i, v3(1, 0, 0), v3(0, 1, 1));
    assert_eq!(about_x.apply(point(0, 1, 0)), point(0, 0, 1));
    // A quarter turn about y takes z to x.
    let about_y = create_model_matrix(v3(0, 0, 0), i, v3(0, 1, 0), v3(1, 0, 1));
    assert_eq!(about_y.apply(point(0, 0, 1)), point(1, 0, 0));
    // Quarter turns about x and then about z: y goes to z and stays there; x goes to y.
    let both = create_model_matrix(v3(10, 20, 30), n(3), v3(1, 0, 1), v3(0, 1, 0));
    assert_eq!(both.apply(point(0, 1, 0)), point(10, 20, 33));
    assert_eq!(both.apply(point(1, 0, 0)), point(10, 23, 30));
    assert_eq!(both.apply(point(0, 0, 1)), point(13, 20, 30));
    assert_eq!(both.r3, Vec4::new(o, o, o, i));
}
