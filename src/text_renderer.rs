use vstd::prelude::*;
use crate::bitmap_font::{BitmapCharacter, BitmapFont};
use crate::pipeline_cache::{PipelineCache, with_pipeline};
use crate::utils::{ensure_capacity, grown_size, max_required_size};

verus! {

/// One corner of a glyph quad. `x`, `y` is its position in pixels from the
/// text's anchor; `texel_x`, `texel_y` is the matching point of the font atlas,
/// in texels from its top-left corner (divided by the atlas size it gives the
/// texture coordinate). `world_position` is the world point that the text is
/// anchored at, or `None` for text anchored on the screen.
pub struct TextVertex<W, C> {
    pub x: i64,
    pub y: i64,
    pub texel_x: u32,
    pub texel_y: u32,
    pub world_position: Option<W>,
    pub color: C,
}

/// Corner `corner` of the quad of glyph `g` drawn with the cursor at `x`, `y`:
/// 0 top left, 1 bottom left, 2 bottom right, 3 top right.
pub open spec fn corner_vertex<W, C>(
    g: BitmapCharacter,
    x: int,
    y: int,
    corner: int,
    world_position: Option<W>,
    color: C,
) -> TextVertex<W, C> {
    let left = x + g.xoffset;
    let top = y + g.yoffset;
    let right = (corner == 2 || corner == 3);
    let bottom = (corner == 1 || corner == 2);
    TextVertex {
        x: (if right {
            left + g.width
        } else {
            left
        }) as i64,
        y: (if bottom {
            top + g.height
        } else {
            top
        }) as i64,
        texel_x: (if right {
            g.x + g.width
        } else {
            g.x as int
        }) as u32,
        texel_y: (if bottom {
            g.y + g.height
        } else {
            g.y as int
        }) as u32,
        world_position,
        color,
    }
}

/// The four corners of the quad of glyph `g` at cursor `x`, `y`, in
/// counter-clockwise order from the top left.
pub open spec fn glyph_quad<W, C>(g: BitmapCharacter, x: int, y: int, world_position: Option<W>, color: C) -> Seq<
    TextVertex<W, C>,
> {
    seq![
        corner_vertex(g, x, y, 0, world_position, color),
        corner_vertex(g, x, y, 1, world_position, color),
        corner_vertex(g, x, y, 2, world_position, color),
        corner_vertex(g, x, y, 3, world_position, color),
    ]
}

/// How far the cursor moves over `s`: the sum of its glyphs' advances.
pub open spec fn text_advance(font: BitmapFont, s: Seq<char>) -> int
    decreases s.len(),
{
    if s.len() == 0 {
        0
    } else {
        text_advance(font, s.drop_last()) + font.glyph(s.last() as u32).xadvance
    }
}

/// The quads of `s` set on one line from `x`, `y`: each glyph at the cursor,
/// the cursor moving right by each glyph's advance.
pub open spec fn text_vertices<W, C>(
    font: BitmapFont,
    s: Seq<char>,
    x: int,
    y: int,
    world_position: Option<W>,
    color: C,
) -> Seq<TextVertex<W, C>>
    decreases s.len(),
{
    if s.len() == 0 {
        Seq::empty()
    } else {
        text_vertices(font, s.drop_last(), x, y, world_position, color) + glyph_quad(
            font.glyph(s.last() as u32),
            x + text_advance(font, s.drop_last()),
            y,
            world_position,
            color,
        )
    }
}

/// The two counter-clockwise triangles of the quad whose first vertex is at
/// `base`: corners (0, 1, 3) and (3, 1, 2).
pub open spec fn quad_indices(base: int) -> Seq<u32> {
    seq![
        base as u32,
        (base + 1) as u32,
        (base + 3) as u32,
        (base + 3) as u32,
        (base + 1) as u32,
        (base + 2) as u32,
    ]
}

/// The indices of `n` quads whose vertices follow one another from `base`.
pub open spec fn text_indices(base: int, n: nat) -> Seq<u32>
    decreases n,
{
    if n == 0 {
        Seq::empty()
    } else {
        text_indices(base, (n - 1) as nat) + quad_indices(base + 4 * (n - 1))
    }
}

/// Each glyph moves the cursor right by at most 255 pixels.
pub proof fn lemma_text_advance_bounds(font: BitmapFont, s: Seq<char>)
    ensures
        0 <= text_advance(font, s) <= 255 * s.len(),
    decreases s.len(),
{
    if s.len() > 0 {
        lemma_text_advance_bounds(font, s.drop_last());
    }
}

/// The device work that one frame's text batch needs, in order: grow the
/// vertex and index buffers where they say, upload `vertices` and `indices`,
/// build a pipeline for the target's format where `build_pipeline` says, and
/// draw all of `indices` as a triangle list.
pub struct TextDraw<W, C> {
    pub grow_vertex_buffer_to: Option<usize>,
    pub grow_index_buffer_to: Option<usize>,
    pub build_pipeline: bool,
    pub vertices: Vec<TextVertex<W, C>>,
    pub indices: Vec<u32>,
}

/// A batch of bitmap-font text gathered during a frame and drawn at once; `S`
/// is the device's pipeline state.
pub struct TextRenderer<W, C, S> {
    bitmap_font: BitmapFont,
    vertex_data: Vec<TextVertex<W, C>>,
    index_data: Vec<u32>,
    vertex_buffer_size: usize,
    index_buffer_size: usize,
    screen_width: u32,
    screen_height: u32,
    pso_map: PipelineCache<S>,
}

impl<W: Copy, C: Copy, S> TextRenderer<W, C, S> {
    /// The font that text is set in.
    pub closed spec fn font(&self) -> BitmapFont {
        self.bitmap_font
    }

    /// The glyph corners waiting to be drawn, four per character.
    pub closed spec fn pending_vertices(&self) -> Seq<TextVertex<W, C>> {
        self.vertex_data@
    }

    /// The triangle indices waiting to be drawn, six per character.
    pub closed spec fn pending_indices(&self) -> Seq<u32> {
        self.index_data@
    }

    /// The capacity, in vertices, of the device's vertex buffer.
    pub closed spec fn vertex_capacity(&self) -> nat {
        self.vertex_buffer_size as nat
    }

    /// The capacity, in indices, of the device's index buffer.
    pub closed spec fn index_capacity(&self) -> nat {
        self.index_buffer_size as nat
    }

    /// The size of the screen, in pixels, that screen positions map onto.
    pub closed spec fn screen(&self) -> (u32, u32) {
        (self.screen_width, self.screen_height)
    }

    /// The pipelines built so far, by format.
    pub closed spec fn pipelines(&self) -> Map<u32, S> {
        self.pso_map@
    }

    /// Both device buffers have room for at least one element.
    pub open spec fn wf(&self) -> bool {
        self.vertex_capacity() > 0 && self.index_capacity() > 0
    }

    /// An empty batch that sets text in `bitmap_font` on a screen of
    /// `frame_size` pixels; both device buffers start with room for
    /// `initial_buffer_size` elements.
    pub fn new(frame_size: [u32; 2], initial_buffer_size: usize, bitmap_font: BitmapFont) -> (r:
        TextRenderer<W, C, S>)
        requires
            initial_buffer_size > 0,
        ensures
            r.wf(),
            r.font() == bitmap_font,
            r.pending_vertices() == Seq::<TextVertex<W, C>>::empty(),
            r.pending_indices() == Seq::<u32>::empty(),
            r.vertex_capacity() == initial_buffer_size,
            r.index_capacity() == initial_buffer_size,
            r.screen() == (frame_size[0], frame_size[1]),
            r.pipelines() == Map::<u32, S>::empty(),
    {
        TextRenderer {
            bitmap_font,
            vertex_data: Vec::new(),
            index_data: Vec::new(),
            vertex_buffer_size: initial_buffer_size,
            index_buffer_size: initial_buffer_size,
            screen_width: frame_size[0],
            screen_height: frame_size[1],
            pso_map: PipelineCache::new(),
        }
    }

    /// Takes note of a new screen size, in pixels.
    pub fn resize(&mut self, width: u32, height: u32)
        ensures
            final(self).screen() == (width, height),
            final(self).wf() == old(self).wf(),
            final(self).font() == old(self).font(),
            final(self).pending_vertices() == old(self).pending_vertices(),
            final(self).pending_indices() == old(self).pending_indices(),
            final(self).vertex_capacity() == old(self).vertex_capacity(),
            final(self).index_capacity() == old(self).index_capacity(),
            final(self).pipelines() == old(self).pipelines(),
    {
        self.screen_width = width;
        self.screen_height = height;
    }

    /// Adds `text` anchored at the world point `world_position`.
    pub fn draw_text_at_position(&mut self, text: &str, world_position: W, color: C)
        requires
            old(self).wf(),
            old(self).pending_vertices().len() + 4 * text@.len() <= u32::MAX + 1,
            old(self).pending_indices().len() + 6 * text@.len() <= usize::MAX,
        ensures
            final(self).wf(),
            final(self).pending_vertices() == old(self).pending_vertices() + text_vertices(
                old(self).font(),
                text@,
                0,
                0,
                Some(world_position),
                color,
            ),
            final(self).pending_indices() == old(self).pending_indices() + text_indices(
                old(self).pending_vertices().len() as int,
                text@.len(),
            ),
            final(self).font() == old(self).font(),
            final(self).vertex_capacity() == old(self).vertex_capacity(),
            final(self).index_capacity() == old(self).index_capacity(),
            final(self).screen() == old(self).screen(),
            final(self).pipelines() == old(self).pipelines(),
    {
        self.draw_text(text, [0, 0], Some(world_position), color);
    }

    /// Adds `text` anchored at `screen_position`, in pixels from the top left
    /// of the screen.
    pub fn draw_text_on_screen(&mut self, text: &str, screen_position: [i32; 2], color: C)
        requires
            old(self).wf(),
            old(self).pending_vertices().len() + 4 * text@.len() <= u32::MAX + 1,
            old(self).pending_indices().len() + 6 * text@.len() <= usize::MAX,
        ensures
            final(self).wf(),
            final(self).pending_vertices() == old(self).pending_vertices() + text_vertices(
                old(self).font(),
                text@,
                screen_position[0] as int,
                screen_position[1] as int,
                None,
                color,
            ),
            final(self).pending_indices() == old(self).pending_indices() + text_indices(
                old(self).pending_vertices().len() as int,
                text@.len(),
            ),
            final(self).font() == old(self).font(),
            final(self).vertex_capacity() == old(self).vertex_capacity(),
            final(self).index_capacity() == old(self).index_capacity(),
            final(self).screen() == old(self).screen(),
            final(self).pipelines() == old(self).pipelines(),
    {
        self.draw_text(text, screen_position, None, color);
    }

    fn draw_text(
        &mut self,
        text: &str,
        screen_position: [i32; 2],
        world_position: Option<W>,
        color: C,
    )
        requires
            old(self).wf(),
            old(self).pending_vertices().len() + 4 * text@.len() <= u32::MAX + 1,
            old(self).pending_indices().len() + 6 * text@.len() <= usize::MAX,
        ensures
            final(self).wf(),
            final(self).pending_vertices() == old(self).pending_vertices() + text_vertices(
                old(self).font(),
                text@,
                screen_position[0] as int,
                screen_position[1] as int,
                world_position,
                color,
            ),
            final(self).pending_indices() == old(self).pending_indices() + text_indices(
                old(self).pending_vertices().len() as int,
                text@.len(),
            ),
            final(self).font() == old(self).font(),
            final(self).vertex_capacity() == old(self).vertex_capacity(),
            final(self).index_capacity() == old(self).index_capacity(),
            final(self).screen() == old(self).screen(),
            final(self).pipelines() == old(self).pipelines(),
    {
        let x0: i64 = screen_position[0] as i64;
        let y: i64 = screen_position[1] as i64;
        let n = text.unicode_len();
        let ghost font = self.bitmap_font;
        let ghost old_v = self.vertex_data@;
        let ghost old_i = self.index_data@;
        let mut x: i64 = x0;
        let mut i: usize = 0;
        while i < n
            invariant
                i <= n,
                n == text@.len(),
                old_v == old(self).pending_vertices(),
                old_i == old(self).pending_indices(),
                font == old(self).font(),
                self.bitmap_font == font,
                self.vertex_buffer_size == old(self).vertex_buffer_size,
                self.index_buffer_size == old(self).index_buffer_size,
                self.screen_width == old(self).screen_width,
                self.screen_height == old(self).screen_height,
                self.pso_map == old(self).pso_map,
                old_v.len() + 4 * n <= u32::MAX + 1,
                old_i.len() + 6 * n <= usize::MAX,
                x0 == screen_position[0] as int,
                y == screen_position[1] as int,
                x == x0 + text_advance(font, text@.subrange(0, i as int)),
                self.vertex_data@ == old_v + text_vertices(
                    font,
                    text@.subrange(0, i as int),
                    x0 as int,
                    y as int,
                    world_position,
                    color,
                ),
                self.index_data@ == old_i + text_indices(old_v.len() as int, i as nat),
                self.vertex_data@.len() == old_v.len() + 4 * i,
                self.index_data@.len() == old_i.len() + 6 * i,
            decreases n - i,
        {
            let c = text.get_char(i);
            let bc = self.bitmap_font.character(c);
            let ghost prefix = text@.subrange(0, i as int);
            let ghost next = text@.subrange(0, i + 1);
            proof {
                assert(next.drop_last() == prefix);
                assert(next.last() == c);
                lemma_text_advance_bounds(font, prefix);
            }
            let index = self.vertex_data.len();
            let left = x + bc.xoffset as i64;
            let top = y + bc.yoffset as i64;
            let right = left + bc.width as i64;
            let bottom = top + bc.height as i64;
            let tex_left = bc.x as u32;
            let tex_top = bc.y as u32;
            let tex_right = bc.x as u32 + bc.width as u32;
            let tex_bottom = bc.y as u32 + bc.height as u32;
            // Push quad vertices in counter-clockwise order.
            self.vertex_data.push(
                TextVertex { x: left, y: top, texel_x: tex_left, texel_y: tex_top, world_position, color },
            );
            self.vertex_data.push(
                TextVertex { x: left, y: bottom, texel_x: tex_left, texel_y: tex_bottom, world_position, color },
            );
            self.vertex_data.push(
                TextVertex { x: right, y: bottom, texel_x: tex_right, texel_y: tex_bottom, world_position, color },
            );
            self.vertex_data.push(
                TextVertex { x: right, y: top, texel_x: tex_right, texel_y: tex_top, world_position, color },
            );
            let index32 = index as u32;
            // Top-left triangle
            self.index_data.push(index32);
            self.index_data.push(index32 + 1);
            self.index_data.push(index32 + 3);
            // Bottom-right triangle
            self.index_data.push(index32 + 3);
            self.index_data.push(index32 + 1);
            self.index_data.push(index32 + 2);
            x = x + bc.xadvance as i64;
            proof {
                let q = glyph_quad(font.glyph(c as u32), x0 + text_advance(font, prefix), y as int, world_position, color);
                assert(text_vertices(font, next, x0 as int, y as int, world_position, color)
                    == text_vertices(font, prefix, x0 as int, y as int, world_position, color) + q);
                assert(self.vertex_data@ =~= old_v + text_vertices(font, next, x0 as int, y as int, world_position, color));
                assert(text_indices(old_v.len() as int, (i + 1) as nat) == text_indices(old_v.len() as int, i as nat)
                    + quad_indices(old_v.len() + 4 * i));
                assert(self.index_data@ =~= old_i + text_indices(old_v.len() as int, (i + 1) as nat));
            }
            i = i + 1;
        }
        proof {
            assert(text@.subrange(0, n as int) == text@);
        }
    }

    /// Takes the batch for drawing into a target of pixel format `format`, and
    /// leaves it empty for the next frame. Each device buffer grows first,
    /// on its own, where the batch does not fit in it, and a pipeline is built
    /// where none exists for `format` yet.
    pub fn render(&mut self, format: u32) -> (r: TextDraw<W, C>)
        requires
            old(self).wf(),
            old(self).pending_vertices().len() <= max_required_size(),
            old(self).pending_indices().len() <= max_required_size(),
        ensures
            final(self).wf(),
            r.vertices@ == old(self).pending_vertices(),
            r.indices@ == old(self).pending_indices(),
            final(self).pending_vertices() == Seq::<TextVertex<W, C>>::empty(),
            final(self).pending_indices() == Seq::<u32>::empty(),
            old(self).pending_vertices().len() <= old(self).vertex_capacity()
                ==> r.grow_vertex_buffer_to is None && final(self).vertex_capacity() == old(
                self,
            ).vertex_capacity(),
            old(self).pending_vertices().len() > old(self).vertex_capacity()
                ==> r.grow_vertex_buffer_to == Some(
                grown_size(old(self).vertex_capacity(), old(self).pending_vertices().len()) as usize,
            ) && final(self).vertex_capacity() == grown_size(
                old(self).vertex_capacity(),
                old(self).pending_vertices().len(),
            ),
            old(self).pending_indices().len() <= old(self).index_capacity()
                ==> r.grow_index_buffer_to is None && final(self).index_capacity() == old(
                self,
            ).index_capacity(),
            old(self).pending_indices().len() > old(self).index_capacity()
                ==> r.grow_index_buffer_to == Some(
                grown_size(old(self).index_capacity(), old(self).pending_indices().len()) as usize,
            ) && final(self).index_capacity() == grown_size(
                old(self).index_capacity(),
                old(self).pending_indices().len(),
            ),
            final(self).vertex_capacity() >= old(self).pending_vertices().len(),
            final(self).index_capacity() >= old(self).pending_indices().len(),
            r.build_pipeline == !old(self).pipelines().contains_key(format),
            final(self).pipelines() == old(self).pipelines(),
            final(self).font() == old(self).font(),
            final(self).screen() == old(self).screen(),
    {
        let grow_vertex_buffer_to = ensure_capacity(self.vertex_buffer_size, self.vertex_data.len());
        match grow_vertex_buffer_to {
            Some(size) => {
                self.vertex_buffer_size = size;
            },
            None => {},
        }
        let grow_index_buffer_to = ensure_capacity(self.index_buffer_size, self.index_data.len());
        match grow_index_buffer_to {
            Some(size) => {
                self.index_buffer_size = size;
            },
            None => {},
        }
        proof {
            crate::utils::lemma_grown_size_minimal(
                old(self).vertex_capacity(),
                old(self).pending_vertices().len(),
            );
            crate::utils::lemma_grown_size_minimal(
                old(self).index_capacity(),
                old(self).pending_indices().len(),
            );
        }
        let mut vertices: Vec<TextVertex<W, C>> = Vec::new();
        std::mem::swap(&mut vertices, &mut self.vertex_data);
        let mut indices: Vec<u32> = Vec::new();
        std::mem::swap(&mut indices, &mut self.index_data);
        TextDraw {
            grow_vertex_buffer_to,
            grow_index_buffer_to,
            build_pipeline: !self.pso_map.contains(format),
            vertices,
            indices,
        }
    }

    /// Keeps `pipeline` as the one for `format`, unless one was built already.
    pub fn add_pipeline(&mut self, format: u32, pipeline: S)
        requires
            old(self).wf(),
        ensures
            final(self).wf(),
            final(self).pipelines() == with_pipeline(old(self).pipelines(), format, pipeline),
            final(self).font() == old(self).font(),
            final(self).pending_vertices() == old(self).pending_vertices(),
            final(self).pending_indices() == old(self).pending_indices(),
            final(self).vertex_capacity() == old(self).vertex_capacity(),
            final(self).index_capacity() == old(self).index_capacity(),
            final(self).screen() == old(self).screen(),
    {
        self.pso_map.insert_if_absent(format, pipeline);
    }

    /// The pipeline built for `format`, if any.
    pub fn pipeline(&self, format: u32) -> (r: Option<&S>)
        ensures
            r is Some <==> self.pipelines().contains_key(format),
            r is Some ==> *r.unwrap() == self.pipelines()[format],
    {
        self.pso_map.get(format)
    }

    /// The font that text is set in.
    pub fn bitmap_font(&self) -> (r: &BitmapFont)
        ensures
            *r == self.font(),
    {
        &self.bitmap_font
    }

    /// The screen size, in pixels, as width and height.
    pub fn screen_size(&self) -> (r: [u32; 2])
        ensures
            r[0] == self.screen().0,
            r[1] == self.screen().1,
    {
        [self.screen_width, self.screen_height]
    }

    /// The numbers of vertices and of indices waiting to be drawn.
    pub fn pending_len(&self) -> (r: (usize, usize))
        ensures
            r.0 == self.pending_vertices().len(),
            r.1 == self.pending_indices().len(),
    {
        (self.vertex_data.len(), self.index_data.len())
    }

    /// The capacities of the vertex and the index buffer, in elements.
    pub fn buffer_sizes(&self) -> (r: (usize, usize))
        ensures
            r.0 == self.vertex_capacity(),
            r.1 == self.index_capacity(),
    {
        (self.vertex_buffer_size, self.index_buffer_size)
    }
}

/// A text batch has four vertices and six indices per character: the `i`-th
/// character's quad stands at `4 * i`, drawn at the cursor after the
/// characters before it, and its two triangles at `6 * i`.
pub proof fn lemma_text_batch_layout<W, C>(
    font: BitmapFont,
    s: Seq<char>,
    x: int,
    y: int,
    world_position: Option<W>,
    color: C,
    base: int,
)
    ensures
        text_vertices(font, s, x, y, world_position, color).len() == 4 * s.len(),
        text_indices(base, s.len()).len() == 6 * s.len(),
        forall|i: int, k: int|
            0 <= i < s.len() && 0 <= k < 4 ==> #[trigger] text_vertices(
                font,
                s,
                x,
                y,
                world_position,
                color,
            )[4 * i + k] == glyph_quad(
                font.glyph(s[i] as u32),
                x + text_advance(font, s.subrange(0, i)),
                y,
                world_position,
                color,
            )[k],
        forall|i: int, k: int|
            0 <= i < s.len() && 0 <= k < 6 ==> #[trigger] text_indices(base, s.len())[6 * i + k]
                == quad_indices(base + 4 * i)[k],
    decreases s.len(),
{
    if s.len() > 0 {
        let p = s.drop_last();
        lemma_text_batch_layout(font, p, x, y, world_position, color, base);
        let n = s.len() - 1;
        assert(s.subrange(0, n) == p);
        assert forall|i: int, k: int| 0 <= i < s.len() && 0 <= k < 4 implies #[trigger] text_vertices(
            font,
            s,
            x,
            y,
            world_position,
            color,
        )[4 * i + k] == glyph_quad(
            font.glyph(s[i] as u32),
            x + text_advance(font, s.subrange(0, i)),
            y,
            world_position,
            color,
        )[k] by {
            if i < n {
                assert(p[i] == s[i]);
                assert(p.subrange(0, i) == s.subrange(0, i));
                assert(text_vertices(font, p, x, y, world_position, color)[4 * i + k] == glyph_quad(
                    font.glyph(p[i] as u32),
                    x + text_advance(font, p.subrange(0, i)),
                    y,
                    world_position,
                    color,
                )[k]);
            }
        }
        assert forall|i: int, k: int| 0 <= i < s.len() && 0 <= k < 6 implies #[trigger] text_indices(
            base,
            s.len(),
        )[6 * i + k] == quad_indices(base + 4 * i)[k] by {
            assert(((s.len() - 1) as nat) == p.len());
            if i < n {
                assert(text_indices(base, p.len())[6 * i + k] == quad_indices(base + 4 * i)[k]);
            }
        }
    }
}

/// A character that the font has is drawn as a quad of the glyph's own
/// footprint, `width` by `height` pixels, whose texture rectangle is the
/// glyph's rectangle of the atlas; where that rectangle lies within the atlas,
/// every texture coordinate (texel over atlas size) lies within [0, 1].
pub proof fn lemma_present_character_quad<W, C>(
    font: BitmapFont,
    c: char,
    x: int,
    y: int,
    world_position: Option<W>,
    color: C,
)
    requires
        font.characters@.contains_key(c as u32),
        -0x4000_0000_0000_0000 <= x <= 0x4000_0000_0000_0000,
        -0x4000_0000_0000_0000 <= y <= 0x4000_0000_0000_0000,
    ensures
        ({
            let g = font.characters@[c as u32];
            let q = glyph_quad(font.glyph(c as u32), x, y, world_position, color);
            &&& q.len() == 4
            &&& q[2].x - q[0].x == g.width
            &&& q[2].y - q[0].y == g.height
            &&& q[1].x == q[0].x && q[3].y == q[0].y
            &&& q[3].x == q[2].x && q[1].y == q[2].y
            &&& q[0].texel_x == g.x && q[0].texel_y == g.y
            &&& q[2].texel_x == g.x + g.width && q[2].texel_y == g.y + g.height
            &&& (g.x + g.width <= font.scale_w && g.y + g.height <= font.scale_h) ==> forall|k: int|
                0 <= k < 4 ==> 0 <= #[trigger] q[k].texel_x <= font.scale_w && 0 <= q[k].texel_y
                    <= font.scale_h
        }),
{
}

/// A character that the font lacks is drawn as a quad of zero size at the
/// cursor, sampling texel (0, 0), and does not move the cursor.
pub proof fn lemma_absent_character_quad<W, C>(
    font: BitmapFont,
    s: Seq<char>,
    c: char,
    x: int,
    y: int,
    world_position: Option<W>,
    color: C,
)
    requires
        !font.characters@.contains_key(c as u32),
        -0x4000_0000_0000_0000 <= x <= 0x4000_0000_0000_0000,
        -0x4000_0000_0000_0000 <= y <= 0x4000_0000_0000_0000,
    ensures
        font.glyph(c as u32) == crate::bitmap_font::zero_character(),
        text_advance(font, s.push(c)) == text_advance(font, s),
        forall|k: int|
            0 <= k < 4 ==> #[trigger] glyph_quad(font.glyph(c as u32), x, y, world_position, color)[k]
                == (TextVertex { x: x as i64, y: y as i64, texel_x: 0, texel_y: 0, world_position, color }),
{
    assert(s.push(c).drop_last() == s);
}

/// A character that the font lacks moves no later character: with it left
/// out, the text after it is set from the same cursor.
pub proof fn lemma_absent_character_keeps_cursor(font: BitmapFont, s: Seq<char>, c: char, u: Seq<char>)
    requires
        !font.characters@.contains_key(c as u32),
    ensures
        text_advance(font, s.push(c) + u) == text_advance(font, s + u),
    decreases u.len(),
{
    if u.len() == 0 {
        assert(s.push(c) + u == s.push(c));
        assert(s + u == s);
        assert(s.push(c).drop_last() == s);
    } else {
        let p = u.drop_last();
        lemma_absent_character_keeps_cursor(font, s, c, p);
        assert((s.push(c) + u).drop_last() == s.push(c) + p);
        assert((s + u).drop_last() == s + p);
        assert((s.push(c) + u).last() == u.last());
        assert((s + u).last() == u.last());
    }
}

} // verus!
