//! The draw call: transform the vertices, group them into triangles, rasterize, shade, and
//! write through the depth test.

use vstd::prelude::*;
use crate::color::Color;
use crate::fixed::Fixed;
use crate::fragment::Fragment;
use crate::framebuffer::Framebuffer;
use crate::framebuffer::lemma_cell_in_range;
use crate::framebuffer::lemma_write_keeps_nearest;
use crate::framebuffer::FramebufferView;
use crate::shaders::fragment_shader;
use crate::shaders::noise_query;
use crate::shaders::spec_fragment_shader;
use crate::shaders::spec_noise_query;
use crate::shaders::spec_vertex_shader;
use crate::shaders::vertex_shader;
use crate::shaders::NoiseQuery;
use crate::shaders::NoiseSample;
use crate::triangle::rasterize;
use crate::triangle::triangle;
use crate::uniforms::Uniforms;
use crate::vertex::Vertex;

verus! {

/// Every vertex after the vertex transform, in the order of the input.
pub open spec fn transformed(vertices: Seq<Vertex>, uniforms: Uniforms) -> Seq<Vertex> {
    Seq::new(vertices.len(), |i: int| spec_vertex_shader(vertices[i], uniforms))
}

/// The fragments of the first `count` triangles of a vertex stream, triangle after triangle.
/// The triangle with index `k` has the vertices `3 * k`, `3 * k + 1` and `3 * k + 2`.
pub open spec fn triangles_fragments(vertices: Seq<Vertex>, count: nat) -> Seq<Fragment>
    decreases count,
{
    if count == 0 {
        Seq::empty()
    } else {
        let k = count - 1;
        triangles_fragments(vertices, k as nat) + rasterize(
            vertices[3 * k],
            vertices[3 * k + 1],
            vertices[3 * k + 2],
        )
    }
}

/// The fragments of a mesh under a draw call's transform. The vertices are grouped in threes;
/// one or two vertices left over at the end are dropped.
pub open spec fn mesh_fragments(vertices: Seq<Vertex>, uniforms: Uniforms) -> Seq<Fragment> {
    triangles_fragments(transformed(vertices, uniforms), vertices.len() / 3)
}

/// The framebuffer after one fragment was shaded and written: a fragment outside the planes
/// changes nothing; one inside makes its color the current color and goes through the depth
/// test.
pub open spec fn write_fragment(
    fb: FramebufferView,
    uniforms: Uniforms,
    fragment: Fragment,
    sample: NoiseSample,
) -> FramebufferView {
    if fb.in_bounds(fragment.x as int, fragment.y as int) {
        fb.draw(
            fragment.x as int,
            fragment.y as int,
            fragment.depth,
            spec_fragment_shader(fragment, uniforms, sample).spec_to_hex(),
        )
    } else {
        fb
    }
}

/// The framebuffer after the fragments were shaded and written in order, each with the noise
/// sample at its index.
pub open spec fn write_fragments(
    fb: FramebufferView,
    uniforms: Uniforms,
    fragments: Seq<Fragment>,
    samples: Seq<NoiseSample>,
) -> FramebufferView
    decreases fragments.len(),
{
    if fragments.len() == 0 {
        fb
    } else {
        write_fragment(
            write_fragments(fb, uniforms, fragments.drop_last(), samples.drop_last()),
            uniforms,
            fragments.last(),
            samples.last(),
        )
    }
}

/// Whether `samples` holds, for every fragment that lies inside the planes, a value that the
/// noise field `noise` can return for the fragment's query.
pub open spec fn sampled_from<N: Fn(NoiseQuery) -> NoiseSample>(
    noise: N,
    fb: FramebufferView,
    uniforms: Uniforms,
    fragments: Seq<Fragment>,
    samples: Seq<NoiseSample>,
) -> bool {
    &&& samples.len() == fragments.len()
    &&& forall|i: int|
        0 <= i < fragments.len() && fb.in_bounds(fragments[i].x as int, fragments[i].y as int)
            ==> call_ensures(
            noise,
            (spec_noise_query(fragments[i], uniforms),),
            #[trigger] samples[i],
        )
}

/// Runs the vertex transform over every vertex.
pub fn transform_vertices(vertex_array: &Vec<Vertex>, uniforms: &Uniforms) -> (out: Vec<Vertex>)
    ensures
        out@ == transformed(vertex_array@, *uniforms),
{
    let mut transformed_vertices: Vec<Vertex> = Vec::new();
    let mut i: usize = 0;
    while i < vertex_array.len()
        invariant
            i <= vertex_array.len(),
            transformed_vertices@ == transformed(vertex_array@.take(i as int), *uniforms),
        decreases vertex_array.len() - i,
    {
        let vertex: Vertex = vertex_shader(&vertex_array[i], uniforms);
        transformed_vertices.push(vertex);
        i += 1;
        assert(transformed_vertices@ =~= transformed(vertex_array@.take(i as int), *uniforms));
    }
    assert(vertex_array@.take(vertex_array.len() as int) == vertex_array@);
    transformed_vertices
}

/// Transforms a mesh and rasterizes its triangles: the fragments of every complete group of
/// three vertices, group after group.
pub fn assemble_fragments(vertex_array: &Vec<Vertex>, uniforms: &Uniforms) -> (fragments: Vec<
    Fragment,
>)
    ensures
        fragments@ == mesh_fragments(vertex_array@, *uniforms),
{
    let transformed_vertices: Vec<Vertex> = transform_vertices(vertex_array, uniforms);
    let count: usize = transformed_vertices.len() / 3;
    let mut fragments: Vec<Fragment> = Vec::new();
    let mut k: usize = 0;
    while k < count
        invariant
            k <= count,
            3 * count <= transformed_vertices.len(),
            fragments@ == triangles_fragments(transformed_vertices@, k as nat),
        decreases count - k,
    {
        let mut piece: Vec<Fragment> = triangle(
            &transformed_vertices[3 * k],
            &transformed_vertices[3 * k + 1],
            &transformed_vertices[3 * k + 2],
        );
        fragments.append(&mut piece);
        k += 1;
    }
    fragments
}

/// Shades one fragment and writes it through the depth test. A fragment outside the planes is
/// dropped without being shaded.
pub fn draw_fragment(
    framebuffer: &mut Framebuffer,
    uniforms: &Uniforms,
    fragment: &Fragment,
    sample: &NoiseSample,
)
    requires
        old(framebuffer).wf(),
        uniforms.current_body.has_recipe(),
    ensures
        final(framebuffer).wf(),
        final(framebuffer)@ == write_fragment(old(framebuffer)@, *uniforms, *fragment, *sample),
{
    if fragment.x >= 0 && fragment.y >= 0 {
        let x: usize = fragment.x as usize;
        let y: usize = fragment.y as usize;
        if x < framebuffer.width && y < framebuffer.height {
            let shaded_color: Color = fragment_shader(fragment, uniforms, sample);
            let color: u32 = shaded_color.to_hex();
            framebuffer.set_current_color(color);
            framebuffer.point(x, y, fragment.depth);
        }
    }
}

/// Shades the fragments in order, each with the noise sample at its index, and writes them
/// through the depth test.
pub fn draw_fragments(
    framebuffer: &mut Framebuffer,
    uniforms: &Uniforms,
    fragments: &Vec<Fragment>,
    samples: &Vec<NoiseSample>,
)
    requires
        old(framebuffer).wf(),
        uniforms.current_body.has_recipe(),
        fragments@.len() == samples@.len(),
    ensures
        final(framebuffer).wf(),
        final(framebuffer)@ == write_fragments(
            old(framebuffer)@,
            *uniforms,
            fragments@,
            samples@,
        ),
{
    let mut i: usize = 0;
    while i < fragments.len()
        invariant
            i <= fragments.len(),
            fragments@.len() == samples@.len(),
            uniforms.current_body.has_recipe(),
            framebuffer.wf(),
            framebuffer@ == write_fragments(
                old(framebuffer)@,
                *uniforms,
                fragments@.take(i as int),
                samples@.take(i as int),
            ),
        decreases fragments.len() - i,
    {
        draw_fragment(framebuffer, uniforms, &fragments[i], &samples[i]);
        i += 1;
        proof {
            let f = fragments@.take(i as int);
            let s = samples@.take(i as int);
            assert(f.drop_last() =~= fragments@.take(i as int - 1));
            assert(s.drop_last() =~= samples@.take(i as int - 1));
        }
    }
    proof {
        assert(fragments@.take(fragments.len() as int) == fragments@);
        assert(samples@.take(samples.len() as int) == samples@);
    }
}

/// Draws a mesh: transforms its vertices, rasterizes its triangles, and shades and writes every
/// fragment that lies inside the planes, reading the noise field `noise` once for each of them.
///
/// The planes end as [`write_fragments`] says for the mesh's fragments and some samples that
/// `noise` returned for their queries.
pub fn render<N: Fn(NoiseQuery) -> NoiseSample>(
    framebuffer: &mut Framebuffer,
    uniforms: &Uniforms,
    vertex_array: &Vec<Vertex>,
    noise: &N,
)
    requires
        old(framebuffer).wf(),
        uniforms.current_body.has_recipe(),
        forall|query: NoiseQuery| call_requires(*noise, (query,)),
    ensures
        final(framebuffer).wf(),
        exists|samples: Seq<NoiseSample>|
            sampled_from(
                *noise,
                old(framebuffer)@,
                *uniforms,
                mesh_fragments(vertex_array@, *uniforms),
                samples,
            ) && final(framebuffer)@ == #[trigger] write_fragments(
                old(framebuffer)@,
                *uniforms,
                mesh_fragments(vertex_array@, *uniforms),
                samples,
            ),
{
    let fragments: Vec<Fragment> = assemble_fragments(vertex_array, uniforms);
    let mut samples: Vec<NoiseSample> = Vec::new();
    let mut i: usize = 0;
    while i < fragments.len()
        invariant
            i <= fragments.len(),
            samples@.len() == i,
            uniforms.current_body.has_recipe(),
            forall|query: NoiseQuery| call_requires(*noise, (query,)),
            framebuffer@ == old(framebuffer)@,
            sampled_from(
                *noise,
                old(framebuffer)@,
                *uniforms,
                fragments@.take(i as int),
                samples@,
            ),
        decreases fragments.len() - i,
    {
        let fragment: Fragment = fragments[i];
        let visible: bool = fragment.x >= 0 && fragment.y >= 0 && (fragment.x as usize)
            < framebuffer.width && (fragment.y as usize) < framebuffer.height;
        let sample: NoiseSample = if visible {
            noise(noise_query(&fragment, uniforms))
        } else {
            NoiseSample { surface: Fixed::zero(), clouds: Fixed::zero() }
        };
        samples.push(sample);
        i += 1;
    }
    assert(fragments@.take(fragments.len() as int) == fragments@);
    draw_fragments(framebuffer, uniforms, &fragments, &samples);
}

/// The least of `start` and the depths of the fragments that lie on the pixel `(x, y)`.
pub open spec fn nearest_depth(start: Fixed, fragments: Seq<Fragment>, x: int, y: int) -> Fixed
    decreases fragments.len(),
{
    if fragments.len() == 0 {
        start
    } else {
        let before = nearest_depth(start, fragments.drop_last(), x, y);
        let fragment = fragments.last();
        if fragment.x == x && fragment.y == y {
            fragment.depth.spec_min(before)
        } else {
            before
        }
    }
}

/// Writing fragments keeps the planes well formed and their size, background and stars.
pub proof fn lemma_write_fragments_keeps_shape(
    fb: FramebufferView,
    uniforms: Uniforms,
    fragments: Seq<Fragment>,
    samples: Seq<NoiseSample>,
)
    requires
        fb.wf(),
    ensures
        write_fragments(fb, uniforms, fragments, samples).wf(),
        write_fragments(fb, uniforms, fragments, samples).width == fb.width,
        write_fragments(fb, uniforms, fragments, samples).height == fb.height,
        write_fragments(fb, uniforms, fragments, samples).background == fb.background,
        write_fragments(fb, uniforms, fragments, samples).stars == fb.stars,
    decreases fragments.len(),
{
    if fragments.len() > 0 {
        lemma_write_fragments_keeps_shape(
            fb,
            uniforms,
            fragments.drop_last(),
            samples.drop_last(),
        );
        let before = write_fragments(fb, uniforms, fragments.drop_last(), samples.drop_last());
        let f = fragments.last();
        let color = spec_fragment_shader(f, uniforms, samples.last()).spec_to_hex();
        lemma_write_keeps_nearest(before, f.x as int, f.y as int, f.depth, color);
    }
}

/// The depth plane is authoritative: after a draw call every pixel holds the least of the depth
/// it held before and the depths of the call's fragments on that pixel, in whatever order the
/// fragments came and whatever colors they had.
pub proof fn lemma_draw_call_keeps_nearest(
    fb: FramebufferView,
    uniforms: Uniforms,
    fragments: Seq<Fragment>,
    samples: Seq<NoiseSample>,
    x: int,
    y: int,
)
    requires
        fb.wf(),
        fb.in_bounds(x, y),
    ensures
        write_fragments(fb, uniforms, fragments, samples).depth_at(x, y) == nearest_depth(
            fb.depth_at(x, y),
            fragments,
            x,
            y,
        ),
    decreases fragments.len(),
{
    if fragments.len() > 0 {
        let before = write_fragments(fb, uniforms, fragments.drop_last(), samples.drop_last());
        let f = fragments.last();
        let color = spec_fragment_shader(f, uniforms, samples.last()).spec_to_hex();
        lemma_draw_call_keeps_nearest(
            fb,
            uniforms,
            fragments.drop_last(),
            samples.drop_last(),
            x,
            y,
        );
        lemma_write_fragments_keeps_shape(
            fb,
            uniforms,
            fragments.drop_last(),
            samples.drop_last(),
        );
        lemma_write_keeps_nearest(before, f.x as int, f.y as int, f.depth, color);
        if !(f.x == x && f.y == y) {
            assert(before.draw(f.x as int, f.y as int, f.depth, color).color_at(x, y)
                == before.color_at(x, y));
        }
    }
}

/// The least depth on a pixel does not depend on where the search starts: it is the smaller of
/// the start and the least depth found from infinity.
pub proof fn lemma_nearest_depth_from(start: Fixed, fragments: Seq<Fragment>, x: int, y: int)
    ensures
        nearest_depth(start, fragments, x, y) == nearest_depth(
            Fixed::spec_infinity(),
            fragments,
            x,
            y,
        ).spec_min(start),
    decreases fragments.len(),
{
    if fragments.len() > 0 {
        lemma_nearest_depth_from(start, fragments.drop_last(), x, y);
    }
}

/// The depths that two draw calls leave do not depend on the order of the calls.
pub proof fn lemma_draw_calls_commute_in_depth(
    fb: FramebufferView,
    first_uniforms: Uniforms,
    first_fragments: Seq<Fragment>,
    first_samples: Seq<NoiseSample>,
    second_uniforms: Uniforms,
    second_fragments: Seq<Fragment>,
    second_samples: Seq<NoiseSample>,
    x: int,
    y: int,
)
    requires
        fb.wf(),
        fb.in_bounds(x, y),
    ensures
        write_fragments(
            write_fragments(fb, first_uniforms, first_fragments, first_samples),
            second_uniforms,
            second_fragments,
            second_samples,
        ).depth_at(x, y) == write_fragments(
            write_fragments(fb, second_uniforms, second_fragments, second_samples),
            first_uniforms,
            first_fragments,
            first_samples,
        ).depth_at(x, y),
{
    let after_first = write_fragments(fb, first_uniforms, first_fragments, first_samples);
    let after_second = write_fragments(fb, second_uniforms, second_fragments, second_samples);
    lemma_write_fragments_keeps_shape(fb, first_uniforms, first_fragments, first_samples);
    lemma_write_fragments_keeps_shape(fb, second_uniforms, second_fragments, second_samples);
    lemma_draw_call_keeps_nearest(fb, first_uniforms, first_fragments, first_samples, x, y);
    lemma_draw_call_keeps_nearest(fb, second_uniforms, second_fragments, second_samples, x, y);
    lemma_draw_call_keeps_nearest(
        after_first,
        second_uniforms,
        second_fragments,
        second_samples,
        x,
        y,
    );
    lemma_draw_call_keeps_nearest(
        after_second,
        first_uniforms,
        first_fragments,
        first_samples,
        x,
        y,
    );
    lemma_nearest_depth_from(fb.depth_at(x, y), first_fragments, x, y);
    lemma_nearest_depth_from(fb.depth_at(x, y), second_fragments, x, y);
    lemma_nearest_depth_from(after_first.depth_at(x, y), second_fragments, x, y);
    lemma_nearest_depth_from(after_second.depth_at(x, y), first_fragments, x, y);
}

/// Whether the pixel `(x, y)` of `after` shows the fragment with index `i`: the fragment lies on
/// the pixel, and the pixel holds the fragment's depth and the color that shading gave it.
pub open spec fn shows(
    after: FramebufferView,
    uniforms: Uniforms,
    fragments: Seq<Fragment>,
    samples: Seq<NoiseSample>,
    x: int,
    y: int,
    i: int,
) -> bool {
    &&& 0 <= i < fragments.len()
    &&& fragments[i].x == x
    &&& fragments[i].y == y
    &&& after.depth_at(x, y) == fragments[i].depth
    &&& after.color_at(x, y) == spec_fragment_shader(
        fragments[i],
        uniforms,
        samples[i],
    ).spec_to_hex()
}

/// Color and depth of a pixel always belong together: after a draw call a pixel either holds
/// what it held before, or the depth and the color of one and the same fragment of the call.
pub proof fn lemma_color_belongs_to_depth(
    fb: FramebufferView,
    uniforms: Uniforms,
    fragments: Seq<Fragment>,
    samples: Seq<NoiseSample>,
    x: int,
    y: int,
)
    requires
        fb.wf(),
        fb.in_bounds(x, y),
        samples.len() == fragments.len(),
    ensures
        ({
            let after = write_fragments(fb, uniforms, fragments, samples);
            ||| after.depth_at(x, y) == fb.depth_at(x, y) && after.color_at(x, y) == fb.color_at(
                x,
                y,
            )
            ||| exists|i: int| #[trigger] shows(after, uniforms, fragments, samples, x, y, i)
        }),
    decreases fragments.len(),
{
    if fragments.len() > 0 {
        let fewer = fragments.drop_last();
        let fewer_samples = samples.drop_last();
        let before = write_fragments(fb, uniforms, fewer, fewer_samples);
        let after = write_fragments(fb, uniforms, fragments, samples);
        let f = fragments.last();
        let color = spec_fragment_shader(f, uniforms, samples.last()).spec_to_hex();
        lemma_color_belongs_to_depth(fb, uniforms, fewer, fewer_samples, x, y);
        lemma_write_fragments_keeps_shape(fb, uniforms, fewer, fewer_samples);
        lemma_write_keeps_nearest(before, f.x as int, f.y as int, f.depth, color);
        lemma_cell_in_range(before.width, before.height, x, y);
        if f.x == x && f.y == y && before.passes(x, y, f.depth) {
            assert(shows(after, uniforms, fragments, samples, x, y, fragments.len() - 1));
        } else {
            assert(after.color_at(x, y) == before.color_at(x, y));
            assert(after.depth_at(x, y) == before.depth_at(x, y));
            if !(before.depth_at(x, y) == fb.depth_at(x, y) && before.color_at(x, y)
                == fb.color_at(x, y)) {
                let i = choose|i: int|
                    #[trigger] shows(before, uniforms, fewer, fewer_samples, x, y, i);
                assert(fewer[i] == fragments[i]);
                assert(fewer_samples[i] == samples[i]);
                assert(shows(after, uniforms, fragments, samples, x, y, i));
            }
        }
    }
}

} // verus!
