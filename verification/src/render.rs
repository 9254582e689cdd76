use vstd::prelude::*;

verus! {

/// The vertex indices of the `k`-th triangle when vertices are taken three at a time.
pub open spec fn triangle_at(k: int) -> (usize, usize, usize) {
    ((3 * k) as usize, (3 * k + 1) as usize, (3 * k + 2) as usize)
}

/// Primitive assembly: groups `vertex_count` transformed vertices into
/// triangles of three consecutive vertices, dropping an incomplete last group.
pub fn assemble_triangles(vertex_count: usize) -> (tris: Vec<(usize, usize, usize)>)
    ensures
        tris.len() == vertex_count / 3,
        forall|k: int| 0 <= k < tris.len() ==> #[trigger] tris@[k] == triangle_at(k),
        forall|k: int|
            0 <= k < tris.len() ==> #[trigger] tris@[k].0 == 3 * k && tris@[k].1 == 3 * k + 1 && tris@[k].2
                == 3 * k + 2,
{
    let mut tris: Vec<(usize, usize, usize)> = Vec::new();
    let count = vertex_count / 3;
    let mut k: usize = 0;
    while k < count
        invariant
            count == vertex_count / 3,
            k <= count,
            tris.len() == k,
            forall|j: int| 0 <= j < tris.len() ==> #[trigger] tris@[j] == triangle_at(j),
        decreases count - k,
    {
        let i = 3 * k;
        tris.push((i, i + 1, i + 2));
        k = k + 1;
    }
    tris
}

/// Closed outline through `point_count` points: point `i` is joined to the
/// next one, and the last back to the first.
pub fn orbit_segments(point_count: usize) -> (segs: Vec<(usize, usize)>)
    ensures
        segs.len() == point_count,
        forall|i: int|
            0 <= i < segs.len() ==> #[trigger] segs@[i] == (i as usize, ((i + 1) % (point_count as int)) as usize),
{
    let mut segs: Vec<(usize, usize)> = Vec::new();
    let mut i: usize = 0;
    while i < point_count
        invariant
            i <= point_count,
            segs.len() == i,
            forall|j: int|
                0 <= j < segs.len() ==> #[trigger] segs@[j] == (j as usize, ((j + 1) % (point_count as int)) as usize),
        decreases point_count - i,
    {
        let next = (i + 1) % point_count;
        segs.push((i, next));
        i = i + 1;
    }
    segs
}

/// Open polyline through `point_count` recorded positions: each position is
/// joined to the following one. The count must not be zero (the renderer
/// computes `point_count - 1` first).
pub fn polyline_segments(point_count: usize) -> (segs: Vec<(usize, usize)>)
    requires
        point_count > 0,
    ensures
        segs.len() == point_count - 1,
        forall|j: int| 0 <= j < segs.len() ==> #[trigger] segs@[j] == (j as usize, (j + 1) as usize),
{
    let mut segs: Vec<(usize, usize)> = Vec::new();
    let last = point_count - 1;
    let mut j: usize = 0;
    while j < last
        invariant
            last == point_count - 1,
            j <= last,
            segs.len() == j,
            forall|k: int| 0 <= k < segs.len() ==> #[trigger] segs@[k] == (k as usize, (k + 1) as usize),
        decreases last - j,
    {
        segs.push((j, j + 1));
        j = j + 1;
    }
    segs
}

/// The `0xAARRGGBB` pixel of a trail particle: the particle's RGB with the
/// alpha byte replaced by the low byte of `alpha` (the bits of `alpha << 24`
/// that fit in 32 bits).
pub open spec fn spec_trail_pixel(color: u32, alpha: u32) -> int {
    (color % 0x100_0000) + (alpha % 256) * 0x100_0000
}

/// Pixel colour of a trail particle: `(color & 0x00FFFFFF) | (alpha << 24)`.
pub fn trail_pixel_color(color: u32, alpha: u32) -> (px: u32)
    ensures
        px == spec_trail_pixel(color, alpha),
{
    let px = (color & 0x00FF_FFFF) | (alpha << 24u32);
    assert(px == (color % 0x100_0000) + (alpha % 256) * 0x100_0000) by (bit_vector)
        requires
            px == (color & 0x00FF_FFFF) | (alpha << 24u32),
    ;
    px
}

/// A trail pixel keeps the particle's RGB and carries the given alpha; giving
/// a pixel a new alpha replaces the old one entirely.
pub proof fn lemma_trail_pixel_alpha(color: u32, alpha: u32, new_alpha: u32)
    ensures
        spec_trail_pixel(color, alpha) % 0x100_0000 == color % 0x100_0000,
        spec_trail_pixel(color, alpha) / 0x100_0000 == alpha % 256,
        spec_trail_pixel(spec_trail_pixel(color, alpha) as u32, new_alpha) == spec_trail_pixel(color, new_alpha),
{
    let lo = color % 0x100_0000;
    let hi = alpha % 256;
    assert((lo + hi * 0x100_0000) % 0x100_0000 == lo && (lo + hi * 0x100_0000) / 0x100_0000 == hi)
        by (nonlinear_arith)
        requires
            0 <= lo < 0x100_0000,
            0 <= hi < 256,
    ;
}

/// Every vertex index of an assembled triangle is a vertex that exists, and
/// every complete group of three vertices becomes a triangle.
pub proof fn lemma_triangles_in_range(vertex_count: nat, k: int)
    requires
        vertex_count <= usize::MAX,
        0 <= k < vertex_count / 3,
    ensures
        triangle_at(k).0 < vertex_count,
        triangle_at(k).1 < vertex_count,
        triangle_at(k).2 < vertex_count,
        triangle_at(k).0 == 3 * k,
        triangle_at(k).1 == triangle_at(k).0 + 1,
        triangle_at(k).2 == triangle_at(k).0 + 2,
{
    assert(3 * k + 2 < vertex_count) by (nonlinear_arith)
        requires
            0 <= k < vertex_count / 3,
    ;
    assert(triangle_at(k).0 == 3 * k);
    assert(triangle_at(k).1 == 3 * k + 1);
    assert(triangle_at(k).2 == 3 * k + 2);
}

/// Every vertex of a complete group of three is drawn, in exactly one
/// triangle: vertex `v` sits at corner `v % 3` of triangle `v / 3`, and later
/// triangles use only later vertices, so no two triangles share a vertex.
pub proof fn lemma_each_vertex_in_one_triangle(vertex_count: nat, v: int, k1: int, k2: int)
    requires
        vertex_count <= usize::MAX,
        0 <= v < (vertex_count / 3) * 3,
        0 <= k1 < k2 < vertex_count / 3,
    ensures
        v / 3 < vertex_count / 3,
        v % 3 == 0 ==> triangle_at(v / 3).0 == v,
        v % 3 == 1 ==> triangle_at(v / 3).1 == v,
        v % 3 == 2 ==> triangle_at(v / 3).2 == v,
        triangle_at(k1).2 < triangle_at(k2).0,
{
    lemma_triangles_in_range(vertex_count, k1);
    lemma_triangles_in_range(vertex_count, k2);
    assert(v / 3 < vertex_count / 3) by (nonlinear_arith)
        requires
            0 <= v < (vertex_count / 3) * 3,
    ;
    lemma_triangles_in_range(vertex_count, v / 3);
    assert(v == 3 * (v / 3) + v % 3) by (nonlinear_arith)
        requires
            0 <= v,
    ;
}

/// The outline of an orbit is closed: the last segment ends at the first
/// point, and every segment joins two existing points.
pub proof fn lemma_orbit_closed(point_count: nat, i: int)
    requires
        0 <= i < point_count,
    ensures
        ((i + 1) % (point_count as int)) < point_count,
        i == point_count - 1 ==> (i + 1) % (point_count as int) == 0,
        i < point_count - 1 ==> (i + 1) % (point_count as int) == i + 1,
{
    let n = point_count as int;
    if i == n - 1 {
        vstd::arithmetic::div_mod::lemma_mod_self_0(n);
    } else {
        vstd::arithmetic::div_mod::lemma_small_mod((i + 1) as nat, point_count);
    }
    vstd::arithmetic::div_mod::lemma_mod_bound(i + 1, n);
}

} // verus!
