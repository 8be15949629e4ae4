use vstd::prelude::*;

verus! {

/// Which of the two vertices of a segment a vertex is.
#[derive(Clone, Copy, Debug, PartialEq, Eq, Structural)]
pub enum VertexRole {
    /// The vertex on the strip's own x-offset, at y = 0.
    Anchor,
    /// The vertex on the unit circle, at the angle of the segment.
    Ring,
}

/// One vertex of a line strip, described exactly: `segment` out of the
/// strip's segment count fixes the angle of the sweep (and so the colour), and
/// `strip` fixes the x-offset of the anchor.
#[derive(Clone, Copy, Debug, PartialEq, Eq, Structural)]
pub struct LineVertex {
    pub role: VertexRole,
    pub strip: u32,
    pub segment: u32,
}

/// An x-coordinate in clip space as the fraction `num / den`.
#[derive(Clone, Copy, Debug, PartialEq, Eq, Structural)]
pub struct StripOffset {
    pub num: i64,
    pub den: u64,
}

/// The strips split the clip-space width [-1, 1] evenly: strip `k` of `n`
/// stands at -1 + 2 (k + 1) / (n + 1), that is (2k + 1 - n) / (n + 1).
pub open spec fn offset_num(k: int, n: int) -> int {
    2 * k + 1 - n
}

pub open spec fn offset_den(n: int) -> int {
    n + 1
}

/// The `j`-th vertex of strip `k` with `m` segments: two per segment, the
/// anchor first.
pub open spec fn strip_vertex(k: u32, j: int) -> LineVertex {
    LineVertex {
        role: if j % 2 == 0 {
            VertexRole::Anchor
        } else {
            VertexRole::Ring
        },
        strip: k,
        segment: (j / 2) as u32,
    }
}

pub open spec fn strip_spec(k: u32, m: u32) -> Seq<LineVertex> {
    Seq::new((2 * m) as nat, |j: int| strip_vertex(k, j))
}

/// The number of vertices that each strip's draw call covers.
pub fn vertex_count(segments: u32) -> (r: u32)
    requires
        2 * segments <= u32::MAX,
    ensures
        r == 2 * segments,
{
    2 * segments
}

/// The x-offset of strip `k` out of `n`.
pub fn strip_offset(k: u32, n: u32) -> (r: StripOffset)
    ensures
        r.num == offset_num(k as int, n as int),
        r.den == offset_den(n as int),
{
    StripOffset { num: 2 * (k as i64) + 1 - (n as i64), den: (n as u64) + 1 }
}

/// The vertices of one strip: for each segment its anchor, then its ring
/// vertex.
pub fn line_strip(k: u32, segments: u32) -> (r: Vec<LineVertex>)
    requires
        2 * segments <= u32::MAX,
    ensures
        r@ == strip_spec(k, segments),
{
    let mut v: Vec<LineVertex> = Vec::new();
    let mut i: u32 = 0;
    while i < segments
        invariant
            i <= segments,
            v@.len() == 2 * i,
            forall|j: int| 0 <= j < v@.len() ==> v@[j] == strip_vertex(k, j),
        decreases segments - i,
    {
        v.push(LineVertex { role: VertexRole::Anchor, strip: k, segment: i });
        v.push(LineVertex { role: VertexRole::Ring, strip: k, segment: i });
        i = i + 1;
    }
    assert(v@ =~= strip_spec(k, segments));
    v
}

/// The vertex data of all strips: `strip_count` lists of `2 * segments`
/// vertices each, one vertex buffer apiece.
pub fn line_strips(strip_count: u32, segments: u32) -> (r: Vec<Vec<LineVertex>>)
    requires
        2 * segments <= u32::MAX,
    ensures
        r@.len() == strip_count,
        forall|k: int| 0 <= k < strip_count ==> #[trigger] r@[k]@ == strip_spec(k as u32, segments),
{
    let mut out: Vec<Vec<LineVertex>> = Vec::new();
    let mut k: u32 = 0;
    while k < strip_count
        invariant
            k <= strip_count,
            2 * segments <= u32::MAX,
            out@.len() == k,
            forall|i: int| 0 <= i < k ==> #[trigger] out@[i]@ == strip_spec(i as u32, segments),
        decreases strip_count - k,
    {
        let strip = line_strip(k, segments);
        out.push(strip);
        k = k + 1;
    }
    out
}

/// Each strip holds two vertices per segment, and its first vertex is the
/// anchor of that strip, which lies on the strip's x-offset at y = 0.
pub proof fn lemma_strip_shape(k: u32, m: u32)
    requires
        m > 0,
    ensures
        strip_spec(k, m).len() == 2 * m,
        strip_spec(k, m)[0] == (LineVertex { role: VertexRole::Anchor, strip: k, segment: 0 }),
        forall|j: int|
            0 <= j < 2 * m ==> (#[trigger] strip_spec(k, m)[j]).strip == k && strip_spec(
                k,
                m,
            )[j].segment < m,
{
    assert forall|j: int| 0 <= j < 2 * m implies (#[trigger] strip_spec(k, m)[j]).strip == k
        && strip_spec(k, m)[j].segment < m by {
        assert(j / 2 < m);
    }
}

} // verus!
