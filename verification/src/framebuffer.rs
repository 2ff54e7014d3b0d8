//! A color plane and a depth plane with a strict nearer-wins depth test.

use vstd::prelude::*;
use crate::fixed::Fixed;
use rand::Rng;

verus! {

/// The color that stars are painted in.
pub const STAR_COLOR: u32 = 0xFFFFFF;

/// The index of the cell at column `pos.0` and row `pos.1` in a plane `width` cells wide.
pub open spec fn cell_index(width: int, pos: (usize, usize)) -> int {
    pos.1 * width + pos.0
}

/// Whether one of `stars` lies on the cell with index `i`.
pub open spec fn star_on(stars: Seq<(usize, usize)>, width: int, i: int) -> bool {
    exists|k: int| 0 <= k < stars.len() && #[trigger] cell_index(width, stars[k]) == i
}

/// The mathematical model of a [`Framebuffer`].
pub struct FramebufferView {
    pub width: int,
    pub height: int,
    /// The color plane, row by row.
    pub colors: Seq<u32>,
    /// The depth plane, row by row.
    pub depths: Seq<Fixed>,
    pub background: u32,
    pub current: u32,
    /// The columns and rows of the stars, in the order they were added.
    pub stars: Seq<(usize, usize)>,
}

impl FramebufferView {
    /// Both planes hold one cell per pixel and every star lies inside them.
    pub open spec fn wf(self) -> bool {
        &&& 0 <= self.width
        &&& 0 <= self.height
        &&& self.colors.len() == self.width * self.height
        &&& self.depths.len() == self.width * self.height
        &&& forall|k: int|
            0 <= k < self.stars.len() ==> (#[trigger] self.stars[k]).0 < self.width
                && self.stars[k].1 < self.height
    }

    pub open spec fn in_bounds(self, x: int, y: int) -> bool {
        0 <= x < self.width && 0 <= y < self.height
    }

    pub open spec fn color_at(self, x: int, y: int) -> u32 {
        self.colors[y * self.width + x]
    }

    pub open spec fn depth_at(self, x: int, y: int) -> Fixed {
        self.depths[y * self.width + x]
    }

    /// Whether a fragment of the given depth passes the depth test at `(x, y)`: the pixel is
    /// inside the planes and the fragment is strictly nearer than what the pixel holds.
    pub open spec fn passes(self, x: int, y: int, depth: Fixed) -> bool {
        self.in_bounds(x, y) && depth@ < self.depth_at(x, y)@
    }

    /// The framebuffer after a depth-tested write of the current color at `(x, y)`.
    pub open spec fn point(self, x: int, y: int, depth: Fixed) -> FramebufferView {
        if self.passes(x, y, depth) {
            FramebufferView {
                colors: self.colors.update(y * self.width + x, self.current),
                depths: self.depths.update(y * self.width + x, depth),
                ..self
            }
        } else {
            self
        }
    }

    /// The framebuffer after a clear: every depth is infinite and every color is the background.
    pub open spec fn clear(self) -> FramebufferView {
        FramebufferView {
            colors: Seq::new(self.colors.len(), |i: int| self.background),
            depths: Seq::new(self.depths.len(), |i: int| Fixed::spec_infinity()),
            ..self
        }
    }

    /// The framebuffer after all stars were painted into the color plane; the depth plane is
    /// untouched.
    pub open spec fn paint_stars(self) -> FramebufferView {
        FramebufferView {
            colors: Seq::new(
                self.colors.len(),
                |i: int|
                    if star_on(self.stars, self.width, i) {
                        STAR_COLOR
                    } else {
                        self.colors[i]
                    },
            ),
            ..self
        }
    }

    /// The framebuffer after `extra` stars were added and all stars, old and new, were painted.
    pub open spec fn add_stars(self, extra: Seq<(usize, usize)>) -> FramebufferView {
        (FramebufferView { stars: self.stars + extra, ..self }).paint_stars()
    }

    pub open spec fn set_current_color(self, color: u32) -> FramebufferView {
        FramebufferView { current: color, ..self }
    }

    /// The framebuffer after `color` was made the current color and written at `(x, y)` under
    /// the depth test.
    pub open spec fn draw(self, x: int, y: int, depth: Fixed, color: u32) -> FramebufferView {
        self.set_current_color(color).point(x, y, depth)
    }

    pub open spec fn set_background_color(self, color: u32) -> FramebufferView {
        FramebufferView { background: color, ..self }
    }
}

/// Whether every position lies inside a plane of the given size.
pub open spec fn all_inside(positions: Seq<(usize, usize)>, width: int, height: int) -> bool {
    forall|k: int|
        0 <= k < positions.len() ==> (#[trigger] positions[k]).0 < width && positions[k].1 < height
}

/// A cell inside the planes has an index inside them.
pub proof fn lemma_cell_in_range(width: int, height: int, x: int, y: int)
    by (nonlinear_arith)
    requires
        0 <= x < width,
        0 <= y < height,
    ensures
        0 <= y * width + x < width * height,
{
}

/// Different pixels have different cell indices.
pub proof fn lemma_cell_injective(width: int, x1: int, y1: int, x2: int, y2: int)
    by (nonlinear_arith)
    requires
        0 <= x1 < width,
        0 <= x2 < width,
        0 <= y1,
        0 <= y2,
        y1 * width + x1 == y2 * width + x2,
    ensures
        x1 == x2,
        y1 == y2,
{
}

pub struct Framebuffer {
    pub width: usize,
    pub height: usize,
    /// The color plane: one packed RGB color per pixel, row by row.
    pub buffer: Vec<u32>,
    /// The depth plane: the depth of what each pixel shows, row by row.
    pub zbuffer: Vec<Fixed>,
    pub background_color: u32,
    pub current_color: u32,
    /// The columns and rows of the stars.
    pub star_positions: Vec<(usize, usize)>,
}

impl View for Framebuffer {
    type V = FramebufferView;

    open spec fn view(&self) -> FramebufferView {
        FramebufferView {
            width: self.width as int,
            height: self.height as int,
            colors: self.buffer@,
            depths: self.zbuffer@,
            background: self.background_color,
            current: self.current_color,
            stars: self.star_positions@,
        }
    }
}

/// Draws a column or row below `bound` from the thread's random generator.
///
/// Calls `rand::thread_rng` and `rand::Rng::gen_range` on the range `0..bound`. The range must
/// not be empty; the result lies in it. Nothing else is claimed: two calls may differ.
#[verifier::external_body]
fn random_below(bound: usize) -> (r: usize)
    requires
        bound > 0,
    ensures
        r < bound,
{
    rand::thread_rng().gen_range(0..bound)
}

impl Framebuffer {
    /// Both planes hold one cell per pixel and every star lies inside them.
    pub open spec fn wf(&self) -> bool {
        self@.wf()
    }

    /// A framebuffer of the given size: black everywhere, nothing drawn yet, white as the
    /// drawing color, and no stars.
    pub fn new(width: usize, height: usize) -> (fb: Framebuffer)
        requires
            width * height <= usize::MAX,
        ensures
            fb.wf(),
            fb@.width == width,
            fb@.height == height,
            fb@.colors == Seq::new((width * height) as nat, |i: int| 0u32),
            fb@.depths == Seq::new((width * height) as nat, |i: int| Fixed::spec_infinity()),
            fb@.background == 0x000000,
            fb@.current == 0xFFFFFF,
            fb@.stars == Seq::<(usize, usize)>::empty(),
    {
        let cells: usize = width * height;
        let mut buffer: Vec<u32> = Vec::new();
        let mut zbuffer: Vec<Fixed> = Vec::new();
        let mut i: usize = 0;
        while i < cells
            invariant
                i <= cells,
                buffer@ == Seq::new(i as nat, |k: int| 0u32),
                zbuffer@ == Seq::new(i as nat, |k: int| Fixed::spec_infinity()),
            decreases cells - i,
        {
            buffer.push(0);
            zbuffer.push(Fixed::infinity());
            i += 1;
            assert(buffer@ =~= Seq::new(i as nat, |k: int| 0u32));
            assert(zbuffer@ =~= Seq::new(i as nat, |k: int| Fixed::spec_infinity()));
        }
        Framebuffer {
            width,
            height,
            buffer,
            zbuffer,
            background_color: 0x000000,
            current_color: 0xFFFFFF,
            star_positions: Vec::new(),
        }
    }

    /// Writes the current color at `(x, y)` if the pixel is inside the planes and `depth` is
    /// strictly less than the depth that the pixel holds; otherwise does nothing.
    pub fn point(&mut self, x: usize, y: usize, depth: Fixed)
        requires
            old(self).wf(),
        ensures
            final(self).wf(),
            final(self)@ == old(self)@.point(x as int, y as int, depth),
    {
        if x < self.width && y < self.height {
            proof {
                lemma_cell_in_range(self.width as int, self.height as int, x as int, y as int);
                assert(self.buffer.len() == self.buffer@.len());
            }
            let index: usize = y * self.width + x;
            if self.zbuffer[index].raw > depth.raw {
                self.buffer.set(index, self.current_color);
                self.zbuffer.set(index, depth);
            }
        }
        assert(self@.stars == old(self)@.stars);
    }

    /// Paints every star into the color plane. The depth plane is not touched, so what is
    /// drawn later still passes the depth test over a star.
    pub fn paint_stars(&mut self)
        requires
            old(self).wf(),
        ensures
            final(self).wf(),
            final(self)@ == old(self)@.paint_stars(),
    {
        let count: usize = self.star_positions.len();
        let ghost before = self@;
        let mut j: usize = 0;
        while j < count
            invariant
                j <= count,
                count == self.star_positions@.len(),
                before.wf(),
                self@ == (FramebufferView { colors: self@.colors, ..before }),
                self@.colors.len() == before.colors.len(),
                forall|i: int|
                    0 <= i < before.colors.len() ==> #[trigger] self@.colors[i] == (if star_on(
                        before.stars.take(j as int),
                        before.width,
                        i,
                    ) {
                        STAR_COLOR
                    } else {
                        before.colors[i]
                    }),
            decreases count - j,
        {
            let (x, y): (usize, usize) = self.star_positions[j];
            proof {
                assert(before.stars[j as int] == (x, y));
                lemma_cell_in_range(before.width, before.height, x as int, y as int);
                assert(self.buffer.len() == self.buffer@.len());
            }
            let index: usize = y * self.width + x;
            self.buffer.set(index, STAR_COLOR);
            proof {
                let shorter = before.stars.take(j as int);
                let longer = before.stars.take(j as int + 1);
                assert(cell_index(before.width, longer[j as int]) == index);
                assert forall|i: int|
                    0 <= i < before.colors.len() implies #[trigger] self@.colors[i] == (if star_on(
                    longer,
                    before.width,
                    i,
                ) {
                    STAR_COLOR
                } else {
                    before.colors[i]
                }) by {
                    if star_on(shorter, before.width, i) {
                        let k = choose|k: int|
                            0 <= k < shorter.len() && #[trigger] cell_index(
                                before.width,
                                shorter[k],
                            ) == i;
                        assert(cell_index(before.width, longer[k]) == i);
                    }
                    if star_on(longer, before.width, i) && i != index {
                        let k = choose|k: int|
                            0 <= k < longer.len() && #[trigger] cell_index(before.width, longer[k])
                                == i;
                        assert(cell_index(before.width, shorter[k]) == i);
                    }
                }
            }
            j += 1;
        }
        proof {
            assert(before.stars.take(count as int) == before.stars);
            assert(self@.colors == before.paint_stars().colors);
        }
    }

    /// Resets every depth to infinity and every color to the background color. The stars are
    /// kept but not painted: `paint_stars` paints them again.
    pub fn clear(&mut self)
        requires
            old(self).wf(),
        ensures
            final(self).wf(),
            final(self)@ == old(self)@.clear(),
    {
        let cells: usize = self.buffer.len();
        let mut i: usize = 0;
        while i < cells
            invariant
                i <= cells,
                cells == self.buffer@.len(),
                self@ == (FramebufferView { colors: self@.colors, ..old(self)@ }),
                forall|k: int| 0 <= k < i ==> self@.colors[k] == self@.background,
            decreases cells - i,
        {
            self.buffer.set(i, self.background_color);
            i += 1;
        }
        let mut j: usize = 0;
        while j < cells
            invariant
                j <= cells,
                cells == self.zbuffer@.len(),
                cells == self.buffer@.len(),
                self@ == (FramebufferView {
                    colors: self@.colors,
                    depths: self@.depths,
                    ..old(self)@
                }),
                forall|k: int| 0 <= k < cells ==> self@.colors[k] == self@.background,
                forall|k: int| 0 <= k < j ==> self@.depths[k] == Fixed::spec_infinity(),
            decreases cells - j,
        {
            self.zbuffer.set(j, Fixed::infinity());
            j += 1;
        }
        assert(self@.depths == old(self)@.clear().depths);
        assert(self@.colors == old(self)@.clear().colors);
        assert(self@.stars == old(self)@.stars);
    }

    /// Adds the given stars and paints all stars, old and new, into the color plane.
    pub fn place_stars(&mut self, positions: &Vec<(usize, usize)>)
        requires
            old(self).wf(),
            all_inside(positions@, old(self)@.width, old(self)@.height),
        ensures
            final(self).wf(),
            final(self)@ == old(self)@.add_stars(positions@),
    {
        let count: usize = positions.len();
        let mut j: usize = 0;
        while j < count
            invariant
                j <= count,
                count == positions@.len(),
                self@ == (FramebufferView {
                    stars: old(self)@.stars + positions@.take(j as int),
                    ..old(self)@
                }),
            decreases count - j,
        {
            self.star_positions.push(positions[j]);
            j += 1;
            assert(old(self)@.stars + positions@.take(j as int) == (old(self)@.stars
                + positions@.take(j as int - 1)).push(positions@[j as int - 1]));
        }
        assert(positions@.take(count as int) == positions@);
        assert(self@.wf());
        self.paint_stars();
    }

    /// Adds `star_count` stars at random pixels and paints all stars into the color plane.
    /// The planes must not be empty unless no star is asked for.
    pub fn add_stars(&mut self, star_count: usize)
        requires
            old(self).wf(),
            star_count > 0 ==> old(self)@.width > 0 && old(self)@.height > 0,
        ensures
            final(self).wf(),
            exists|extra: Seq<(usize, usize)>|
                extra.len() == star_count && all_inside(extra, old(self)@.width, old(self)@.height)
                    && final(self)@ == #[trigger] old(self)@.add_stars(extra),
    {
        let mut positions: Vec<(usize, usize)> = Vec::new();
        let mut i: usize = 0;
        while i < star_count
            invariant
                i <= star_count,
                positions@.len() == i,
                star_count > 0 ==> self.width > 0 && self.height > 0,
                all_inside(positions@, self.width as int, self.height as int),
            decreases star_count - i,
        {
            let x: usize = random_below(self.width);
            let y: usize = random_below(self.height);
            positions.push((x, y));
            i += 1;
        }
        self.place_stars(&positions);
    }

    /// Sets the color that `clear` fills the color plane with.
    pub fn set_background_color(&mut self, color: u32)
        ensures
            final(self)@ == old(self)@.set_background_color(color),
    {
        self.background_color = color;
    }

    /// Sets the color that `point` writes.
    pub fn set_current_color(&mut self, color: u32)
        ensures
            final(self)@ == old(self)@.set_current_color(color),
    {
        self.current_color = color;
    }
}

/// Two writes at one pixel, one after the other. Once a first write of depth `d1` has landed, a
/// second write of depth `d2` passes the depth test exactly when `d2` is strictly less than
/// `d1`. If it passes, the pixel takes the second color and depth; if not, the pixel keeps the
/// first color and depth. Equal depths never overwrite.
pub proof fn lemma_second_write_lands_iff_nearer(
    fb: FramebufferView,
    x: int,
    y: int,
    d1: Fixed,
    c1: u32,
    d2: Fixed,
    c2: u32,
)
    requires
        fb.wf(),
        fb.passes(x, y, d1),
    ensures
        ({
            let first = fb.draw(x, y, d1, c1);
            let second = first.draw(x, y, d2, c2);
            &&& first.color_at(x, y) == c1
            &&& first.depth_at(x, y) == d1
            &&& first.passes(x, y, d2) <==> d2@ < d1@
            &&& d2@ < d1@ ==> second.color_at(x, y) == c2 && second.depth_at(x, y) == d2
            &&& d2@ >= d1@ ==> second.color_at(x, y) == c1 && second.depth_at(x, y) == d1
            &&& d2@ >= d1@ ==> second.colors == first.colors && second.depths == first.depths
        }),
{
    lemma_cell_in_range(fb.width, fb.height, x, y);
}

/// A write leaves every other pixel as it was, and leaves at its own pixel the smaller of the
/// old and the new depth.
pub proof fn lemma_write_keeps_nearest(
    fb: FramebufferView,
    x: int,
    y: int,
    depth: Fixed,
    color: u32,
)
    requires
        fb.wf(),
    ensures
        fb.draw(x, y, depth, color).wf(),
        forall|u: int, v: int|
            fb.in_bounds(u, v) && !(u == x && v == y) ==> #[trigger] fb.draw(
                x,
                y,
                depth,
                color,
            ).color_at(u, v) == fb.color_at(u, v) && fb.draw(x, y, depth, color).depth_at(u, v)
                == fb.depth_at(u, v),
        fb.in_bounds(x, y) ==> fb.draw(x, y, depth, color).depth_at(x, y) == depth.spec_min(
            fb.depth_at(x, y),
        ),
{
    let after = fb.draw(x, y, depth, color);
    assert forall|u: int, v: int|
        fb.in_bounds(u, v) && !(u == x && v == y) implies #[trigger] after.color_at(u, v)
        == fb.color_at(u, v) && after.depth_at(u, v) == fb.depth_at(u, v) by {
        lemma_cell_in_range(fb.width, fb.height, u, v);
        if fb.in_bounds(x, y) {
            lemma_cell_in_range(fb.width, fb.height, x, y);
            if v * fb.width + u == y * fb.width + x {
                lemma_cell_injective(fb.width, u, v, x, y);
            }
        }
    }
    if fb.in_bounds(x, y) {
        lemma_cell_in_range(fb.width, fb.height, x, y);
    }
}

/// The depth test does not depend on the order of the writes: two writes, at the same pixel or
/// at different ones, leave the same color and depth planes in either order, unless they meet
/// at one pixel with equal depths and different colors (there the first writer wins).
pub proof fn lemma_writes_commute(
    fb: FramebufferView,
    x1: int,
    y1: int,
    d1: Fixed,
    c1: u32,
    x2: int,
    y2: int,
    d2: Fixed,
    c2: u32,
)
    requires
        fb.wf(),
        !(x1 == x2 && y1 == y2) || d1@ != d2@ || c1 == c2,
    ensures
        fb.draw(x1, y1, d1, c1).draw(x2, y2, d2, c2).colors == fb.draw(x2, y2, d2, c2).draw(
            x1,
            y1,
            d1,
            c1,
        ).colors,
        fb.draw(x1, y1, d1, c1).draw(x2, y2, d2, c2).depths == fb.draw(x2, y2, d2, c2).draw(
            x1,
            y1,
            d1,
            c1,
        ).depths,
{
    if fb.in_bounds(x1, y1) {
        lemma_cell_in_range(fb.width, fb.height, x1, y1);
    }
    if fb.in_bounds(x2, y2) {
        lemma_cell_in_range(fb.width, fb.height, x2, y2);
    }
    if fb.in_bounds(x1, y1) && fb.in_bounds(x2, y2) && y1 * fb.width + x1 == y2 * fb.width + x2 {
        lemma_cell_injective(fb.width, x1, y1, x2, y2);
    }
    let a = fb.draw(x1, y1, d1, c1).draw(x2, y2, d2, c2);
    let b = fb.draw(x2, y2, d2, c2).draw(x1, y1, d1, c1);
    assert(a.colors =~= b.colors);
    assert(a.depths =~= b.depths);
}

/// A clear forgets everything drawn before it: whatever the planes held, afterwards every depth
/// is infinite and every pixel shows the background color.
pub proof fn lemma_clear_resets(fb: FramebufferView)
    requires
        fb.wf(),
    ensures
        fb.clear().wf(),
        forall|x: int, y: int|
            fb.in_bounds(x, y) ==> (#[trigger] fb.clear().depth_at(x, y)) == Fixed::spec_infinity(),
        forall|x: int, y: int|
            fb.in_bounds(x, y) ==> #[trigger] fb.clear().color_at(x, y) == fb.background,
{
    assert forall|x: int, y: int| fb.in_bounds(x, y) implies (#[trigger] fb.clear().depth_at(x, y))
        == Fixed::spec_infinity() by {
        lemma_cell_in_range(fb.width, fb.height, x, y);
    }
    assert forall|x: int, y: int| fb.in_bounds(x, y) implies #[trigger] fb.clear().color_at(x, y)
        == fb.background by {
        lemma_cell_in_range(fb.width, fb.height, x, y);
    }
}

/// After a clear nothing is drawn yet: the first write at any pixel inside the planes lands,
/// unless its depth is infinite.
pub proof fn lemma_first_write_after_clear_lands(fb: FramebufferView, x: int, y: int, depth: Fixed)
    requires
        fb.wf(),
        fb.in_bounds(x, y),
    ensures
        fb.clear().passes(x, y, depth) <==> depth != Fixed::spec_infinity(),
{
    lemma_cell_in_range(fb.width, fb.height, x, y);
}

} // verus!
