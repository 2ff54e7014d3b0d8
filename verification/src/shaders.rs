//! The vertex transform and the procedural shading recipes.
//!
//! The recipes color a surface from a coherent noise field. The field itself is not part of
//! this library: [`noise_query`] says where a fragment's shading reads the field, and the
//! recipes take what was read there as a [`NoiseSample`].

use vstd::prelude::*;
use crate::color::Color;
use crate::fixed::lemma_product_bound;
use crate::fixed::saturate_i128;
use crate::fixed::Fixed;
use crate::fragment::Fragment;
use crate::linalg::minor;
use crate::linalg::Mat3;
use crate::linalg::Mat4;
use crate::linalg::Vec2;
use crate::linalg::Vec3;
use crate::linalg::Vec4;
use crate::uniforms::CelestialBody;
use crate::uniforms::Uniforms;
use crate::vertex::elevation_color;
use crate::vertex::Vertex;
use rand::rngs::StdRng;
use rand::Rng;
use rand::SeedableRng;

verus! {

/// The clip-space position of an object-space position: the position with a fourth coordinate
/// of one under `projection * view * model`.
pub open spec fn clip_position(position: Vec3, uniforms: Uniforms) -> Vec4 {
    uniforms.projection_matrix.spec_times(uniforms.view_matrix).spec_times(
        uniforms.model_matrix,
    ).spec_apply(Vec4 { x: position.x, y: position.y, z: position.z, w: Fixed::one() })
}

/// The perspective divide: the first three coordinates over the fourth, and one in its place.
pub open spec fn perspective_divide(clip: Vec4) -> Vec4 {
    Vec4 {
        x: clip.x.spec_over(clip.w),
        y: clip.y.spec_over(clip.w),
        z: clip.z.spec_over(clip.w),
        w: Fixed::one(),
    }
}

/// The screen-space position of an object-space position: pixels in x and y, depth in z.
pub open spec fn screen_position(position: Vec3, uniforms: Uniforms) -> Vec3 {
    let screen = uniforms.viewport_matrix.spec_apply(
        perspective_divide(clip_position(position, uniforms)),
    );
    Vec3 { x: screen.x, y: screen.y, z: screen.z }
}

/// The matrix that transforms normals: the inverse of the transpose of the upper left block of
/// the model matrix, or the identity where that block cannot be inverted.
pub open spec fn normal_matrix(model: Mat4) -> Mat3 {
    match Mat3::spec_from_mat4(model).spec_transpose().spec_try_inverse() {
        Some(inverse) => inverse,
        None => Mat3::spec_identity(),
    }
}

/// The vertex after the transform: screen position, transformed normal and the color of its
/// elevation band are new; the rest is the input's.
pub open spec fn spec_vertex_shader(vertex: Vertex, uniforms: Uniforms) -> Vertex {
    Vertex {
        position: vertex.position,
        normal: vertex.normal,
        tex_coords: vertex.tex_coords,
        color: elevation_color(vertex.elevation),
        transformed_position: screen_position(vertex.position, uniforms),
        transformed_normal: normal_matrix(uniforms.model_matrix).spec_apply(vertex.normal),
        elevation: vertex.elevation,
    }
}

/// Transforms one vertex to screen space. The position goes through model, view and projection
/// matrix, the perspective divide and the viewport matrix; the normal goes through the inverse
/// transpose of the model matrix, or is kept where the model matrix cannot be inverted; the
/// color becomes that of the elevation band. The input is not changed.
pub fn vertex_shader(vertex: &Vertex, uniforms: &Uniforms) -> (out: Vertex)
    ensures
        out == spec_vertex_shader(*vertex, *uniforms),
{
    let position: Vec4 = Vec4::new(
        vertex.position.x,
        vertex.position.y,
        vertex.position.z,
        Fixed::one(),
    );
    let transformed: Vec4 = uniforms.projection_matrix.times(uniforms.view_matrix).times(
        uniforms.model_matrix,
    ).apply(position);
    let w: Fixed = transformed.w;
    let transformed_position: Vec4 = Vec4::new(
        transformed.x.over(w),
        transformed.y.over(w),
        transformed.z.over(w),
        Fixed::one(),
    );
    let screen_position: Vec4 = uniforms.viewport_matrix.apply(transformed_position);
    let model_mat3: Mat3 = Mat3::from_mat4(uniforms.model_matrix);
    let normal_matrix: Mat3 = match model_mat3.transpose().try_inverse() {
        Some(inverse) => inverse,
        None => Mat3::identity(),
    };
    let transformed_normal: Vec3 = normal_matrix.apply(vertex.normal);
    let mut new_vertex: Vertex = Vertex {
        position: vertex.position,
        normal: vertex.normal,
        tex_coords: vertex.tex_coords,
        color: vertex.color,
        transformed_position: Vec3::new(screen_position.x, screen_position.y, screen_position.z),
        transformed_normal,
        elevation: vertex.elevation,
    };
    new_vertex.update_color_based_on_elevation();
    new_vertex
}

/// The identity matrix times itself is the identity matrix.
pub proof fn lemma_identity_times_identity()
    ensures
        Mat4::spec_identity().spec_times(Mat4::spec_identity()) == Mat4::spec_identity(),
{
}

/// The identity matrix maps every vector to itself.
pub proof fn lemma_identity_apply(v: Vec4)
    ensures
        Mat4::spec_identity().spec_apply(v) == v,
{
    let (x, y, z, w) = (v.x@, v.y@, v.z@, v.w@);
    assert(0 * x == 0 && 0 * y == 0 && 0 * z == 0 && 0 * w == 0) by (nonlinear_arith);
    assert((65536 * x) / 65536 == x && (65536 * y) / 65536 == y && (65536 * z) / 65536 == z && (
    65536 * w) / 65536 == w) by (nonlinear_arith);
}

/// The normal matrix of the identity model matrix is the identity, and it keeps every normal.
pub proof fn lemma_identity_normal_matrix(normal: Vec3)
    ensures
        normal_matrix(Mat4::spec_identity()) == Mat3::spec_identity(),
        Mat3::spec_identity().spec_apply(normal) == normal,
{
    let (x, y, z) = (normal.x@, normal.y@, normal.z@);
    assert(0 * x == 0 && 0 * y == 0 && 0 * z == 0) by (nonlinear_arith);
    assert((65536 * x) / 65536 == x && (65536 * y) / 65536 == y && (65536 * z) / 65536 == z)
        by (nonlinear_arith);
    let m = Mat3::spec_from_mat4(Mat4::spec_identity()).spec_transpose();
    assert(m == Mat3::spec_identity());
    assert(minor(65536, 0, 0, 65536) == 0x1_0000_0000);
    assert(minor(0, 0, 0, 65536) == 0);
    assert(minor(0, 65536, 0, 0) == 0);
    assert(m.scaled_determinant() == 0x1_0000_0000_0000);
}

/// With identity model, view, projection and viewport matrices the transform moves nothing:
/// the screen position of a vertex is its object-space position, in all three coordinates, and
/// its transformed normal is its normal.
pub proof fn lemma_identity_transform(vertex: Vertex, uniforms: Uniforms)
    requires
        uniforms.model_matrix == Mat4::spec_identity(),
        uniforms.view_matrix == Mat4::spec_identity(),
        uniforms.projection_matrix == Mat4::spec_identity(),
        uniforms.viewport_matrix == Mat4::spec_identity(),
    ensures
        spec_vertex_shader(vertex, uniforms).transformed_position == vertex.position,
        spec_vertex_shader(vertex, uniforms).transformed_normal == vertex.normal,
{
    let p = vertex.position;
    let lifted = Vec4 { x: p.x, y: p.y, z: p.z, w: Fixed::one() };
    lemma_identity_times_identity();
    lemma_identity_apply(lifted);
    assert(clip_position(p, uniforms) == lifted);
    assert(perspective_divide(lifted) == lifted);
    lemma_identity_normal_matrix(vertex.normal);
}

/// Where the shading of one fragment reads the noise field.
#[derive(Clone, Copy, Debug, PartialEq, Eq)]
pub struct NoiseQuery {
    /// The point of the two-dimensional field that gives the surface value.
    pub surface: Vec2,
    /// The point of the three-dimensional field that gives the cloud value, where the recipe
    /// has clouds.
    pub clouds: Option<Vec3>,
}

/// What the noise field holds at the points of a [`NoiseQuery`].
#[derive(Clone, Copy, Debug, PartialEq, Eq, Structural)]
pub struct NoiseSample {
    pub surface: Fixed,
    /// The cloud value; not read where the query asked for none.
    pub clouds: Fixed,
}

/// The frame counter as animation time: a hundredth of a unit per frame.
pub open spec fn spec_animation_time(time: u32) -> Fixed {
    Fixed::from_scaled((time * 65536) / 100)
}

/// The frame counter as animation time.
#[verifier::when_used_as_spec(spec_animation_time)]
pub fn animation_time(time: u32) -> (t: Fixed)
    ensures
        t == spec_animation_time(time),
{
    let scaled: i128 = (time as i128) * 65536 / 100;
    Fixed { raw: saturate_i128(scaled) }
}

/// A surface point of the two-dimensional field: two coordinates, each times `frequency`.
pub open spec fn surface_point(u: Fixed, v: Fixed, frequency: i32) -> Vec2 {
    Vec2 {
        x: u.spec_times(Fixed::spec_from_int(frequency)),
        y: v.spec_times(Fixed::spec_from_int(frequency)),
    }
}

/// Where the recipe of the draw call's surface reads the noise field for a fragment.
pub open spec fn spec_noise_query(fragment: Fragment, uniforms: Uniforms) -> NoiseQuery {
    let p = fragment.vertex_position;
    match uniforms.current_body {
        CelestialBody::earth => {
            let t = spec_animation_time(uniforms.time);
            let at = surface_point(p.x, p.y, 50);
            NoiseQuery {
                surface: at,
                clouds: Some(
                    Vec3 {
                        x: at.x.spec_plus(t),
                        y: at.y.spec_plus(t.spec_times(Fixed::spec_from_ratio(1, 2))),
                        z: t,
                    },
                ),
            }
        },
        CelestialBody::Moon => NoiseQuery { surface: surface_point(p.x, p.z, 20), clouds: None },
        CelestialBody::sun => NoiseQuery { surface: surface_point(p.x, p.z, 10), clouds: None },
        _ => NoiseQuery { surface: surface_point(p.x, p.z, 5), clouds: None },
    }
}

fn scaled_point(u: Fixed, v: Fixed, frequency: i32) -> (at: Vec2)
    ensures
        at == surface_point(u, v, frequency),
{
    Vec2 { x: u.times(Fixed::from_int(frequency)), y: v.times(Fixed::from_int(frequency)) }
}

/// Says where the shading of `fragment` reads the noise field.
pub fn noise_query(fragment: &Fragment, uniforms: &Uniforms) -> (query: NoiseQuery)
    requires
        uniforms.current_body.has_recipe(),
    ensures
        query == spec_noise_query(*fragment, *uniforms),
{
    let p: Vec3 = fragment.vertex_position;
    match uniforms.current_body {
        CelestialBody::earth => {
            let t: Fixed = animation_time(uniforms.time);
            let at: Vec2 = scaled_point(p.x, p.y, 50);
            NoiseQuery {
                surface: at,
                clouds: Some(
                    Vec3 {
                        x: at.x.plus(t),
                        y: at.y.plus(t.times(Fixed::from_ratio(1, 2))),
                        z: t,
                    },
                ),
            }
        },
        CelestialBody::Moon => NoiseQuery { surface: scaled_point(p.x, p.z, 20), clouds: None },
        CelestialBody::sun => NoiseQuery { surface: scaled_point(p.x, p.z, 10), clouds: None },
        _ => NoiseQuery { surface: scaled_point(p.x, p.z, 5), clouds: None },
    }
}

/// The earth recipe: land where the surface value is above a tenth, else a lighter ground;
/// where the cloud value is above four tenths, white is blended in, twice as much as the cloud
/// value exceeds them.
pub open spec fn spec_earth(sample: NoiseSample) -> Color {
    let surface_color = Color { r: 255, g: 150, b: 50 };
    let land_color = Color { r: 255, g: 100, b: 0 };
    let cloud_color = Color { r: 255, g: 255, b: 255 };
    let base_color = if sample.surface@ > Fixed::spec_from_ratio(1, 10)@ {
        land_color
    } else {
        surface_color
    };
    if sample.clouds@ > Fixed::spec_from_ratio(4, 10)@ {
        base_color.spec_lerp(
            cloud_color,
            sample.clouds.spec_minus(Fixed::spec_from_ratio(4, 10)).spec_times(
                Fixed::spec_from_int(2),
            ),
        )
    } else {
        base_color
    }
}

/// The moon recipe: four bands of grey by the surface value, with borders at minus a tenth,
/// a tenth and three tenths.
pub open spec fn spec_moon_color(sample: NoiseSample) -> Color {
    let elevation = sample.surface@;
    if elevation < Fixed::spec_from_ratio(-1i32, 10)@ {
        Color { r: 169, g: 169, b: 169 }
    } else if elevation < Fixed::spec_from_ratio(1, 10)@ {
        Color { r: 211, g: 211, b: 211 }
    } else if elevation < Fixed::spec_from_ratio(3, 10)@ {
        Color { r: 255, g: 255, b: 255 }
    } else {
        Color { r: 240, g: 240, b: 240 }
    }
}

/// How far a height is inside the sun's glow: one at height five, falling to zero ten units
/// above and below.
pub open spec fn sun_gradient_factor(height: Fixed) -> Fixed {
    Fixed::one().spec_minus(
        height.spec_minus(Fixed::spec_from_int(5)).spec_abs().spec_over(Fixed::spec_from_int(10)),
    ).spec_max(Fixed::zero()).spec_min(Fixed::one())
}

/// The sun recipe: a blend of oranges by the gradient factor of the fragment's height, a white
/// glow on top, and a halo where the surface value is above two tenths.
pub open spec fn spec_sun_gradient(fragment: Fragment, sample: NoiseSample) -> Color {
    let deep_orange_color = Color { r: 255, g: 140, b: 0 };
    let light_orange_color = Color { r: 255, g: 165, b: 80 };
    let white_color = Color { r: 255, g: 255, b: 255 };
    let warm_orange_color = Color { r: 255, g: 200, b: 100 };
    let half = Fixed::spec_from_ratio(1, 2);
    let three_tenths = Fixed::spec_from_ratio(3, 10);
    let gradient_factor = sun_gradient_factor(fragment.vertex_position.y);
    let sun_color = deep_orange_color.spec_scaled(gradient_factor).spec_scaled(half).spec_plus(
        light_orange_color.spec_scaled(Fixed::one().spec_minus(gradient_factor)).spec_scaled(half),
    ).spec_plus(warm_orange_color.spec_scaled(gradient_factor).spec_scaled(three_tenths));
    let glow_color = white_color.spec_scaled(three_tenths).spec_scaled(gradient_factor);
    let final_color = sun_color.spec_plus(glow_color);
    if sample.surface@ > Fixed::spec_from_ratio(2, 10)@ {
        let halo_color = Color { r: 255, g: 160, b: 50 };
        let halo_factor = sample.surface.spec_minus(Fixed::spec_from_ratio(2, 10)).spec_min(half);
        final_color.spec_plus(halo_color.spec_scaled(halo_factor))
    } else {
        final_color
    }
}

/// The colors of a cloudy planet.
pub struct Palette {
    pub base: Color,
    pub cloud: Color,
    pub shadow: Color,
    pub glow: Color,
}

/// The recipe that the gas planet and the rocky planet share. The cloud factor is the square of
/// the surface value moved from `-1..=1` to `0..=1`. A random number below fifty blends the
/// base color with clouds, any other leaves clouds only. On top come a shadow that grows as the
/// surface value falls, and a glow that fades with height.
pub open spec fn cloudy_planet_color(
    palette: Palette,
    fragment: Fragment,
    sample: NoiseSample,
    random_number: int,
) -> Color {
    let one = Fixed::one();
    let half = Fixed::spec_from_ratio(1, 2);
    let lifted = sample.surface.spec_times(half).spec_plus(half);
    let cloud_factor = lifted.spec_times(lifted);
    let planet_color = if random_number < 50 {
        palette.base.spec_scaled(one.spec_minus(cloud_factor)).spec_plus(
            palette.cloud.spec_scaled(cloud_factor),
        )
    } else {
        palette.cloud.spec_scaled(cloud_factor)
    };
    let shadow_factor = one.spec_minus(sample.surface).spec_max(Fixed::zero());
    let shadow_effect = palette.shadow.spec_scaled(shadow_factor).spec_scaled(
        Fixed::spec_from_ratio(3, 10),
    );
    let final_color = planet_color.spec_plus(shadow_effect);
    let glow_factor = one.spec_minus(
        fragment.vertex_position.y.spec_over(Fixed::spec_from_int(10)).spec_max(
            Fixed::zero(),
        ).spec_min(one),
    ).spec_max(Fixed::zero());
    let final_glow = palette.glow.spec_scaled(glow_factor).spec_scaled(
        Fixed::spec_from_ratio(1, 10),
    );
    final_color.spec_plus(final_glow)
}

/// The palette of the gas planet: blue under white clouds.
pub open spec fn gas_palette() -> Palette {
    Palette {
        base: Color { r: 70, g: 130, b: 180 },
        cloud: Color { r: 255, g: 255, b: 255 },
        shadow: Color { r: 50, g: 50, b: 100 },
        glow: Color { r: 200, g: 200, b: 255 },
    }
}

/// The palette of the rocky planet: red-brown under golden clouds.
pub open spec fn rocky_palette() -> Palette {
    Palette {
        base: Color { r: 210, g: 105, b: 30 },
        cloud: Color { r: 255, g: 215, b: 0 },
        shadow: Color { r: 139, g: 69, b: 19 },
        glow: Color { r: 255, g: 140, b: 0 },
    }
}

/// The seed of the random number of a fragment's shading: the whole part of the absolute value
/// of the frame counter times the fragment's height times its x coordinate.
pub open spec fn spec_shading_seed(time: u32, position: Vec3) -> u64 {
    let product = time * position.y@ * position.x@;
    let magnitude = if product < 0 {
        -product
    } else {
        product
    };
    (magnitude / 0x1_0000_0000) as u64
}

/// The seed of the random number of a fragment's shading.
#[verifier::when_used_as_spec(spec_shading_seed)]
pub fn shading_seed(time: u32, position: Vec3) -> (seed: u64)
    ensures
        seed == spec_shading_seed(time, position),
{
    proof {
        lemma_product_bound(time as int, position.y@, 0x1_0000_0000, 0x8000_0000);
        lemma_product_bound(
            time * position.y@,
            position.x@,
            0x8000_0000_0000_0000,
            0x8000_0000,
        );
    }
    let product: i128 = (time as i128) * (position.y.raw as i128) * (position.x.raw as i128);
    let magnitude: i128 = if product < 0 {
        -product
    } else {
        product
    };
    (magnitude / 0x1_0000_0000) as u64
}

/// The number from 0 to 100 that a generator seeded with `seed` draws first.
pub uninterp spec fn seeded_percent(seed: u64) -> int;

/// Seeds a standard generator and draws one number from 0 to 100.
///
/// Calls `rand::rngs::StdRng::seed_from_u64` and then `rand::Rng::gen_range` on `0..=100`.
/// The generator is deterministic, so the result is a function of the seed; it lies in the
/// range asked for.
#[verifier::external_body]
fn draw_percent(seed: u64) -> (r: i32)
    ensures
        r == seeded_percent(seed),
        0 <= r <= 100,
{
    StdRng::seed_from_u64(seed).gen_range(0..=100)
}

/// The color that the recipe of `body` gives a fragment, from the noise read for it and the
/// random number drawn for it. The random number matters to the gas and the rocky planet only.
pub open spec fn shade(
    body: CelestialBody,
    fragment: Fragment,
    sample: NoiseSample,
    random_number: int,
) -> Color {
    match body {
        CelestialBody::earth => spec_earth(sample),
        CelestialBody::Moon => spec_moon_color(sample),
        CelestialBody::sun => spec_sun_gradient(fragment, sample),
        CelestialBody::gas => cloudy_planet_color(gas_palette(), fragment, sample, random_number),
        _ => cloudy_planet_color(rocky_palette(), fragment, sample, random_number),
    }
}

/// The color that a draw call gives a fragment.
pub open spec fn spec_fragment_shader(
    fragment: Fragment,
    uniforms: Uniforms,
    sample: NoiseSample,
) -> Color {
    shade(
        uniforms.current_body,
        fragment,
        sample,
        seeded_percent(spec_shading_seed(uniforms.time, fragment.vertex_position)),
    )
}

/// Colors a fragment by the recipe of the draw call's surface. The surface must have a recipe.
pub fn fragment_shader(
    fragment: &Fragment,
    uniforms: &Uniforms,
    sample: &NoiseSample,
) -> (color: Color)
    requires
        uniforms.current_body.has_recipe(),
    ensures
        color == spec_fragment_shader(*fragment, *uniforms, *sample),
{
    match uniforms.current_body {
        CelestialBody::earth => earth(sample),
        CelestialBody::Moon => moon_color(sample),
        CelestialBody::sun => sun_gradient(fragment, sample),
        CelestialBody::gas => gas_planet_color(fragment, uniforms, sample),
        _ => rocky_planet_color(fragment, uniforms, sample),
    }
}

/// The earth recipe.
pub fn earth(sample: &NoiseSample) -> (color: Color)
    ensures
        color == spec_earth(*sample),
{
    let surface_color: Color = Color::new(255, 150, 50);
    let land_color: Color = Color::new(255, 100, 0);
    let cloud_color: Color = Color::new(255, 255, 255);
    let four_tenths: Fixed = Fixed::from_ratio(4, 10);
    let base_color: Color = if sample.surface.raw > Fixed::from_ratio(1, 10).raw {
        land_color
    } else {
        surface_color
    };
    if sample.clouds.raw > four_tenths.raw {
        base_color.lerp(cloud_color, sample.clouds.minus(four_tenths).times(Fixed::from_int(2)))
    } else {
        base_color
    }
}

/// The moon recipe.
pub fn moon_color(sample: &NoiseSample) -> (color: Color)
    ensures
        color == spec_moon_color(*sample),
{
    let elevation: i32 = sample.surface.raw;
    if elevation < Fixed::from_ratio(-1, 10).raw {
        Color::new(169, 169, 169)
    } else if elevation < Fixed::from_ratio(1, 10).raw {
        Color::new(211, 211, 211)
    } else if elevation < Fixed::from_ratio(3, 10).raw {
        Color::new(255, 255, 255)
    } else {
        Color::new(240, 240, 240)
    }
}

/// The sun recipe.
pub fn sun_gradient(fragment: &Fragment, sample: &NoiseSample) -> (color: Color)
    ensures
        color == spec_sun_gradient(*fragment, *sample),
{
    let deep_orange_color: Color = Color::new(255, 140, 0);
    let light_orange_color: Color = Color::new(255, 165, 80);
    let white_color: Color = Color::new(255, 255, 255);
    let warm_orange_color: Color = Color::new(255, 200, 100);
    let one: Fixed = Fixed::one();
    let half: Fixed = Fixed::from_ratio(1, 2);
    let two_tenths: Fixed = Fixed::from_ratio(2, 10);
    let three_tenths: Fixed = Fixed::from_ratio(3, 10);
    let distance_to_sun: Fixed = fragment.vertex_position.y.minus(Fixed::from_int(5)).abs();
    let gradient_factor: Fixed = one.minus(distance_to_sun.over(Fixed::from_int(10))).max(
        Fixed::zero(),
    ).min(one);
    let sun_color: Color = deep_orange_color.scaled(gradient_factor).scaled(half).plus(
        light_orange_color.scaled(one.minus(gradient_factor)).scaled(half),
    ).plus(warm_orange_color.scaled(gradient_factor).scaled(three_tenths));
    let glow_color: Color = white_color.scaled(three_tenths).scaled(gradient_factor);
    let final_color: Color = sun_color.plus(glow_color);
    if sample.surface.raw > two_tenths.raw {
        let halo_color: Color = Color::new(255, 160, 50);
        let halo_factor: Fixed = sample.surface.minus(two_tenths).min(half);
        return final_color.plus(halo_color.scaled(halo_factor));
    }
    final_color
}

fn cloudy_planet(
    palette: &Palette,
    fragment: &Fragment,
    sample: &NoiseSample,
    random_number: i32,
) -> (color: Color)
    ensures
        color == cloudy_planet_color(*palette, *fragment, *sample, random_number as int),
{
    let one: Fixed = Fixed::one();
    let half: Fixed = Fixed::from_ratio(1, 2);
    let lifted: Fixed = sample.surface.times(half).plus(half);
    let cloud_factor: Fixed = lifted.times(lifted);
    let planet_color: Color = if random_number < 50 {
        palette.base.scaled(one.minus(cloud_factor)).plus(palette.cloud.scaled(cloud_factor))
    } else {
        palette.cloud.scaled(cloud_factor)
    };
    let shadow_factor: Fixed = one.minus(sample.surface).max(Fixed::zero());
    let shadow_effect: Color = palette.shadow.scaled(shadow_factor).scaled(
        Fixed::from_ratio(3, 10),
    );
    let final_color: Color = planet_color.plus(shadow_effect);
    let glow_factor: Fixed = one.minus(
        fragment.vertex_position.y.over(Fixed::from_int(10)).max(Fixed::zero()).min(one),
    ).max(Fixed::zero());
    let final_glow: Color = palette.glow.scaled(glow_factor).scaled(Fixed::from_ratio(1, 10));
    final_color.plus(final_glow)
}

/// The gas planet recipe for a given random number.
pub fn gas_planet_color_with(
    fragment: &Fragment,
    sample: &NoiseSample,
    random_number: i32,
) -> (color: Color)
    ensures
        color == cloudy_planet_color(gas_palette(), *fragment, *sample, random_number as int),
{
    let palette: Palette = Palette {
        base: Color::new(70, 130, 180),
        cloud: Color::new(255, 255, 255),
        shadow: Color::new(50, 50, 100),
        glow: Color::new(200, 200, 255),
    };
    cloudy_planet(&palette, fragment, sample, random_number)
}

/// The rocky planet recipe for a given random number.
pub fn rocky_planet_color_with(
    fragment: &Fragment,
    sample: &NoiseSample,
    random_number: i32,
) -> (color: Color)
    ensures
        color == cloudy_planet_color(rocky_palette(), *fragment, *sample, random_number as int),
{
    let palette: Palette = Palette {
        base: Color::new(210, 105, 30),
        cloud: Color::new(255, 215, 0),
        shadow: Color::new(139, 69, 19),
        glow: Color::new(255, 140, 0),
    };
    cloudy_planet(&palette, fragment, sample, random_number)
}

/// The gas planet recipe, with the random number drawn from the fragment's seed.
pub fn gas_planet_color(
    fragment: &Fragment,
    uniforms: &Uniforms,
    sample: &NoiseSample,
) -> (color: Color)
    ensures
        color == cloudy_planet_color(
            gas_palette(),
            *fragment,
            *sample,
            seeded_percent(spec_shading_seed(uniforms.time, fragment.vertex_position)),
        ),
{
    let seed: u64 = shading_seed(uniforms.time, fragment.vertex_position);
    let random_number: i32 = draw_percent(seed);
    gas_planet_color_with(fragment, sample, random_number)
}

/// The rocky planet recipe, with the random number drawn from the fragment's seed.
pub fn rocky_planet_color(
    fragment: &Fragment,
    uniforms: &Uniforms,
    sample: &NoiseSample,
) -> (color: Color)
    ensures
        color == cloudy_planet_color(
            rocky_palette(),
            *fragment,
            *sample,
            seeded_percent(spec_shading_seed(uniforms.time, fragment.vertex_position)),
        ),
{
    let seed: u64 = shading_seed(uniforms.time, fragment.vertex_position);
    let random_number: i32 = draw_percent(seed);
    rocky_planet_color_with(fragment, sample, random_number)
}

} // verus!
