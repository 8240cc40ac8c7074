use vstd::prelude::*;
use crate::pipeline_cache::{PipelineCache, with_pipeline};
use crate::utils::{ensure_capacity, grown_size, max_required_size};

verus! {

/// One end of a line segment: a position and a color, in whatever vector
/// types the graphics device takes.
pub struct LineVertex<P, C> {
    pub position: P,
    pub color: C,
}

/// The device work that one frame's line batch needs, in order: grow the
/// vertex buffer where `grow_to` says, upload `vertices` at offset 0, build a
/// pipeline for the target's format where `build_pipeline` says, and draw
/// `vertices` as a line list.
pub struct LineDraw<P, C> {
    pub grow_to: Option<usize>,
    pub build_pipeline: bool,
    pub vertices: Vec<LineVertex<P, C>>,
}

/// A batch of line segments gathered during a frame and drawn at once; `S`
/// is the device's pipeline state.
pub struct LineRenderer<P, C, S> {
    vertex_data: Vec<LineVertex<P, C>>,
    buffer_size: usize,
    pso_map: PipelineCache<S>,
}

/// The batch after one more line from `start` to `end`: its two ends, in that
/// order, with the line's color.
pub open spec fn with_line<P, C>(pending: Seq<LineVertex<P, C>>, start: P, end: P, color: C) -> Seq<
    LineVertex<P, C>,
> {
    pending.push(LineVertex { position: start, color }).push(LineVertex { position: end, color })
}

/// The batch after drawing each of `lines` (start, end, color) in turn.
pub open spec fn with_lines<P, C>(pending: Seq<LineVertex<P, C>>, lines: Seq<(P, P, C)>) -> Seq<
    LineVertex<P, C>,
>
    decreases lines.len(),
{
    if lines.len() == 0 {
        pending
    } else {
        let l = lines.last();
        with_line(with_lines(pending, lines.drop_last()), l.0, l.1, l.2)
    }
}

impl<P, C: Copy, S> LineRenderer<P, C, S> {
    /// The line ends waiting to be drawn, two per line.
    pub closed spec fn pending(&self) -> Seq<LineVertex<P, C>> {
        self.vertex_data@
    }

    /// The capacity, in vertices, of the device's vertex buffer.
    pub closed spec fn capacity(&self) -> nat {
        self.buffer_size as nat
    }

    /// The pipelines built so far, by format.
    pub closed spec fn pipelines(&self) -> Map<u32, S> {
        self.pso_map@
    }

    /// The vertex buffer has room for at least one vertex.
    pub open spec fn wf(&self) -> bool {
        self.capacity() > 0
    }

    /// An empty batch whose vertex buffer starts with room for
    /// `initial_buffer_size` vertices.
    pub fn new(initial_buffer_size: usize) -> (r: LineRenderer<P, C, S>)
        requires
            initial_buffer_size > 0,
        ensures
            r.wf(),
            r.pending() == Seq::<LineVertex<P, C>>::empty(),
            r.capacity() == initial_buffer_size,
            r.pipelines() == Map::<u32, S>::empty(),
    {
        LineRenderer { vertex_data: Vec::new(), buffer_size: initial_buffer_size, pso_map: PipelineCache::new() }
    }

    /// Adds a line from `start` to `end` to the batch; nothing is drawn until
    /// `render`.
    pub fn draw_line(&mut self, start: P, end: P, color: C)
        requires
            old(self).wf(),
        ensures
            final(self).wf(),
            final(self).pending() == with_line(old(self).pending(), start, end, color),
            final(self).capacity() == old(self).capacity(),
            final(self).pipelines() == old(self).pipelines(),
    {
        self.vertex_data.push(LineVertex { position: start, color });
        self.vertex_data.push(LineVertex { position: end, color });
    }

    /// Takes the batch for drawing into a target of pixel format `format`, and
    /// leaves it empty for the next frame. The vertex buffer grows first where
    /// the batch does not fit, and a pipeline is built where none exists for
    /// `format` yet.
    pub fn render(&mut self, format: u32) -> (r: LineDraw<P, C>)
        requires
            old(self).wf(),
            old(self).pending().len() <= max_required_size(),
        ensures
            final(self).wf(),
            r.vertices@ == old(self).pending(),
            final(self).pending() == Seq::<LineVertex<P, C>>::empty(),
            old(self).pending().len() <= old(self).capacity() ==> r.grow_to is None
                && final(self).capacity() == old(self).capacity(),
            old(self).pending().len() > old(self).capacity() ==> r.grow_to == Some(
                grown_size(old(self).capacity(), old(self).pending().len()) as usize,
            ) && final(self).capacity() == grown_size(
                old(self).capacity(),
                old(self).pending().len(),
            ),
            final(self).capacity() >= old(self).pending().len(),
            r.build_pipeline == !old(self).pipelines().contains_key(format),
            final(self).pipelines() == old(self).pipelines(),
    {
        let grow_to = ensure_capacity(self.buffer_size, self.vertex_data.len());
        match grow_to {
            Some(size) => {
                self.buffer_size = size;
            },
            None => {},
        }
        proof {
            crate::utils::lemma_grown_size_minimal(
                old(self).capacity(),
                old(self).pending().len(),
            );
        }
        let mut vertices: Vec<LineVertex<P, C>> = Vec::new();
        std::mem::swap(&mut vertices, &mut self.vertex_data);
        LineDraw { grow_to, build_pipeline: !self.pso_map.contains(format), vertices }
    }

    /// Keeps `pipeline` as the one for `format`, unless one was built already.
    pub fn add_pipeline(&mut self, format: u32, pipeline: S)
        requires
            old(self).wf(),
        ensures
            final(self).wf(),
            final(self).pipelines() == with_pipeline(old(self).pipelines(), format, pipeline),
            final(self).pending() == old(self).pending(),
            final(self).capacity() == old(self).capacity(),
    {
        self.pso_map.insert_if_absent(format, pipeline);
    }

    /// The pipeline built for `format`, if any.
    pub fn pipeline(&self, format: u32) -> (r: Option<&S>)
        ensures
            r is Some <==> self.pipelines().contains_key(format),
            r is Some ==> *r.unwrap() == self.pipelines()[format],
    {
        self.pso_map.get(format)
    }

    /// The capacity of the vertex buffer, in vertices.
    pub fn buffer_size(&self) -> (r: usize)
        ensures
            r == self.capacity(),
    {
        self.buffer_size
    }

    /// The number of line ends waiting to be drawn.
    pub fn pending_len(&self) -> (r: usize)
        ensures
            r == self.pending().len(),
    {
        self.vertex_data.len()
    }
}

/// A batch of `n` lines holds `2n` vertices, the two ends of the `k`-th line
/// at `2k` and `2k + 1`, each with the line's color.
pub proof fn lemma_lines_batch<P, C>(lines: Seq<(P, P, C)>)
    ensures
        with_lines(Seq::<LineVertex<P, C>>::empty(), lines).len() == 2 * lines.len(),
        forall|k: int|
            0 <= k < lines.len() ==> {
                &&& #[trigger] with_lines(Seq::<LineVertex<P, C>>::empty(), lines)[2 * k]
                    == LineVertex { position: lines[k].0, color: lines[k].2 }
                &&& with_lines(Seq::<LineVertex<P, C>>::empty(), lines)[2 * k + 1]
                    == LineVertex { position: lines[k].1, color: lines[k].2 }
            },
    decreases lines.len(),
{
    if lines.len() > 0 {
        lemma_lines_batch::<P, C>(lines.drop_last());
        let prev = with_lines(Seq::<LineVertex<P, C>>::empty(), lines.drop_last());
        let cur = with_lines(Seq::<LineVertex<P, C>>::empty(), lines);
        assert forall|k: int| 0 <= k < lines.len() implies {
            &&& #[trigger] cur[2 * k] == LineVertex { position: lines[k].0, color: lines[k].2 }
            &&& cur[2 * k + 1] == LineVertex { position: lines[k].1, color: lines[k].2 }
        } by {
            if k < lines.len() - 1 {
                assert(lines.drop_last()[k] == lines[k]);
                assert(cur[2 * k] == prev[2 * k]);
                assert(cur[2 * k + 1] == prev[2 * k + 1]);
            }
        }
    }
}

} // verus!
