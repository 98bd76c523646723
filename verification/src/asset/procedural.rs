use vstd::arithmetic::div_mod::{lemma_fundamental_div_mod_converse, lemma_mod_multiples_basic};
use vstd::prelude::*;
use vstd::string::StringExecFns;

verus! {

/// Integer skeleton of a generated mesh: how many vertices it has and which
/// of them each triangle joins. Vertex attributes are filled in by the caller
/// in the order the documentation of each generator gives.
pub struct MeshTopology {
    pub name: String,
    pub vertex_count: u32,
    pub indices: Vec<u32>,
}

impl MeshTopology {
    /// Every index names an existing vertex and the list holds whole triangles.
    pub open spec fn renderable(&self) -> bool {
        &&& self.vertex_count > 0
        &&& self.indices@.len() > 0
        &&& self.indices@.len() % 3 == 0
        &&& forall|n: int| 0 <= n < self.indices@.len() ==> #[trigger] self.indices@[n] < self.vertex_count
    }
}

/// Generators of procedural meshes.
pub struct ProceduralGenerator;

pub open spec fn clamp_spec(value: int, lo: int, hi: int) -> int {
    if value < lo {
        lo
    } else if value > hi {
        hi
    } else {
        value
    }
}

pub fn safe_plane_subdivisions(subdivisions: u32) -> (r: u32)
    ensures
        r == clamp_spec(subdivisions as int, 1, 512),
{
    if subdivisions < 1 {
        1
    } else if subdivisions > 512 {
        512
    } else {
        subdivisions
    }
}

pub fn safe_sphere_segments(segments: u32) -> (r: u32)
    ensures
        r == clamp_spec(segments as int, 3, 256),
{
    if segments < 3 {
        3
    } else if segments > 256 {
        256
    } else {
        segments
    }
}

pub fn safe_sphere_rings(rings: u32) -> (r: u32)
    ensures
        r == clamp_spec(rings as int, 2, 128),
{
    if rings < 2 {
        2
    } else if rings > 128 {
        128
    } else {
        rings
    }
}

pub fn safe_cylinder_segments(segments: u32) -> (r: u32)
    ensures
        r == clamp_spec(segments as int, 3, 256),
{
    if segments < 3 {
        3
    } else if segments > 256 {
        256
    } else {
        segments
    }
}

/// The two triangles of grid cell (`row`, `col`) in a vertex grid whose rows
/// are `stride` vertices long: top-left, bottom-left, top-right, then
/// top-right, bottom-left, bottom-right.
pub open spec fn grid_cell(stride: int, row: int, col: int) -> Seq<int> {
    let tl = row * stride + col;
    let bl = (row + 1) * stride + col;
    seq![tl, bl, tl + 1, tl + 1, bl, bl + 1]
}

/// The `n`-th entry of the index list of a grid with `cols` cells per row,
/// cells listed row by row.
pub open spec fn grid_index(cols: int, n: int) -> int {
    let cell = n / 6;
    grid_cell(cols + 1, cell / cols, cell % cols)[n % 6]
}

proof fn lemma_grid_position(cols: int, row: int, col: int, k: int)
    requires
        cols > 0,
        row >= 0,
        0 <= col < cols,
        0 <= k < 6,
    ensures
        grid_index(cols, 6 * (row * cols + col) + k) == grid_cell(cols + 1, row, col)[k],
{
    let cell = row * cols + col;
    lemma_fundamental_div_mod_converse(6 * cell + k, 6, cell, k);
    lemma_fundamental_div_mod_converse(cell, cols, row, col);
}

proof fn lemma_grid_bound(rows: int, cols: int, row: int, col: int)
    requires
        cols > 0,
        0 <= row < rows,
        0 <= col < cols,
    ensures
        (row + 1) * (cols + 1) + col + 1 < (rows + 1) * (cols + 1),
        0 <= row * (cols + 1) + col,
{
    assert((row + 1) * (cols + 1) + col + 1 < (rows + 1) * (cols + 1)) by (nonlinear_arith)
        requires
            0 <= row < rows,
            0 <= col < cols,
    ;
    assert(0 <= row * (cols + 1) + col) by (nonlinear_arith)
        requires
            0 <= row,
            0 <= col,
            cols > 0,
    ;
}

/// Triangle list of a `rows` x `cols` cell grid over a vertex grid of
/// `(rows + 1) * (cols + 1)` vertices laid out row by row.
pub fn grid_triangles(rows: u32, cols: u32) -> (r: Vec<u32>)
    requires
        1 <= rows <= 1024,
        1 <= cols <= 1024,
    ensures
        r@.len() == 6 * rows * cols,
        forall|n: int| 0 <= n < r@.len() ==> #[trigger] r@[n] as int == grid_index(cols as int, n),
        forall|n: int| 0 <= n < r@.len() ==> #[trigger] r@[n] < (rows + 1) * (cols + 1),
{
    let mut out: Vec<u32> = Vec::new();
    let stride = cols + 1;
    let mut row: u32 = 0;
    while row < rows
        invariant
            row <= rows <= 1024,
            1 <= cols <= 1024,
            stride == cols + 1,
            out@.len() == 6 * (row * cols),
            forall|n: int| 0 <= n < out@.len() ==> #[trigger] out@[n] as int == grid_index(cols as int, n),
            forall|n: int| 0 <= n < out@.len() ==> #[trigger] out@[n] < (rows + 1) * (cols + 1),
        decreases rows - row,
    {
        let mut col: u32 = 0;
        while col < cols
            invariant
                row < rows <= 1024,
                1 <= cols <= 1024,
                col <= cols,
                stride == cols + 1,
                out@.len() == 6 * (row * cols + col),
                forall|n: int| 0 <= n < out@.len() ==> #[trigger] out@[n] as int == grid_index(cols as int, n),
                forall|n: int| 0 <= n < out@.len() ==> #[trigger] out@[n] < (rows + 1) * (cols + 1),
            decreases cols - col,
        {
            proof {
                lemma_grid_bound(rows as int, cols as int, row as int, col as int);
                assert((row + 1) * (cols + 1) <= 1025 * 1025) by (nonlinear_arith)
                    requires
                        row < rows <= 1024,
                        cols <= 1024,
                ;
                assert(row * (cols + 1) <= (row + 1) * (cols + 1)) by (nonlinear_arith);
                assert(6 * (row * cols + col + 1) == 6 * (row * cols + col) + 6) by (nonlinear_arith);
            }
            let tl = row * stride + col;
            let bl = (row + 1) * stride + col;
            let ghost start = out@.len() as int;
            out.push(tl);
            out.push(bl);
            out.push(tl + 1);
            out.push(tl + 1);
            out.push(bl);
            out.push(bl + 1);
            proof {
                assert forall|k: int| 0 <= k < 6 implies #[trigger] out@[start + k] as int == grid_index(cols as int, start + k) by {
                    lemma_grid_position(cols as int, row as int, col as int, k);
                }
                assert forall|n: int| 0 <= n < out@.len() implies #[trigger] out@[n] as int == grid_index(cols as int, n) by {
                    if n >= start {
                        assert(out@[start + (n - start)] as int == grid_index(cols as int, start + (n - start)));
                    }
                }
            }
            col = col + 1;
        }
        proof {
            assert(6 * ((row + 1) * cols) == 6 * (row * cols + cols)) by (nonlinear_arith);
        }
        row = row + 1;
    }
    assert(6 * (rows * cols) == 6 * rows * cols) by (nonlinear_arith);
    out
}

/// The `n`-th entry of a cylinder index list with `s` segments: `3s` entries
/// of top cap fan, `3s` of bottom cap fan, then `6s` of side quads.
pub open spec fn cylinder_index(s: int, n: int) -> int {
    if n < 3 * s {
        let i = n / 3;
        seq![0, i + 2, i + 1][n % 3]
    } else if n < 6 * s {
        let m = n - 3 * s;
        let b = s + 2;
        let i = m / 3;
        seq![b, b + i + 1, b + i + 2][m % 3]
    } else {
        let m = n - 6 * s;
        let t = 2 * s + 4 + 2 * (m / 6);
        seq![t, t + 2, t + 1, t + 2, t + 3, t + 1][m % 6]
    }
}

/// Index list of a capped cylinder with `s` segments over `4s + 6` vertices:
/// top centre (0), top rim (`1..=s+1`), bottom centre (`s+2`), bottom rim
/// (`s+3..=2s+3`), then `s+1` side pairs (upper, lower) from `2s+4`.
pub fn cylinder_triangles(s: u32) -> (r: Vec<u32>)
    requires
        1 <= s <= 1024,
    ensures
        r@.len() == 12 * s,
        forall|n: int| 0 <= n < r@.len() ==> #[trigger] r@[n] as int == cylinder_index(s as int, n),
        forall|n: int| 0 <= n < r@.len() ==> #[trigger] r@[n] < 4 * s + 6,
{
    let mut out: Vec<u32> = Vec::new();
    let mut i: u32 = 0;
    while i < s
        invariant
            i <= s <= 1024,
            out@.len() == 3 * i,
            forall|n: int| 0 <= n < out@.len() ==> #[trigger] out@[n] as int == cylinder_index(s as int, n),
            forall|n: int| 0 <= n < out@.len() ==> #[trigger] out@[n] < 4 * s + 6,
        decreases s - i,
    {
        let ghost start = out@.len() as int;
        out.push(0);
        out.push(i + 2);
        out.push(i + 1);
        proof {
            assert forall|k: int| 0 <= k < 3 implies #[trigger] out@[start + k] as int == cylinder_index(s as int, start + k) by {
                lemma_fundamental_div_mod_converse(start + k, 3, i as int, k);
            }
            assert forall|n: int| 0 <= n < out@.len() implies #[trigger] out@[n] as int == cylinder_index(s as int, n) by {
                if n >= start {
                    assert(out@[start + (n - start)] as int == cylinder_index(s as int, start + (n - start)));
                }
            }
        }
        i = i + 1;
    }
    let b = s + 2;
    let mut i: u32 = 0;
    while i < s
        invariant
            i <= s <= 1024,
            b == s + 2,
            out@.len() == 3 * s + 3 * i,
            forall|n: int| 0 <= n < out@.len() ==> #[trigger] out@[n] as int == cylinder_index(s as int, n),
            forall|n: int| 0 <= n < out@.len() ==> #[trigger] out@[n] < 4 * s + 6,
        decreases s - i,
    {
        let ghost start = out@.len() as int;
        out.push(b);
        out.push(b + i + 1);
        out.push(b + i + 2);
        proof {
            assert forall|k: int| 0 <= k < 3 implies #[trigger] out@[start + k] as int == cylinder_index(s as int, start + k) by {
                lemma_fundamental_div_mod_converse(start + k - 3 * s, 3, i as int, k);
            }
            assert forall|n: int| 0 <= n < out@.len() implies #[trigger] out@[n] as int == cylinder_index(s as int, n) by {
                if n >= start {
                    assert(out@[start + (n - start)] as int == cylinder_index(s as int, start + (n - start)));
                }
            }
        }
        i = i + 1;
    }
    let side = 2 * s + 4;
    let mut i: u32 = 0;
    while i < s
        invariant
            i <= s <= 1024,
            side == 2 * s + 4,
            out@.len() == 6 * s + 6 * i,
            forall|n: int| 0 <= n < out@.len() ==> #[trigger] out@[n] as int == cylinder_index(s as int, n),
            forall|n: int| 0 <= n < out@.len() ==> #[trigger] out@[n] < 4 * s + 6,
        decreases s - i,
    {
        let t = side + i * 2;
        let ghost start = out@.len() as int;
        out.push(t);
        out.push(t + 2);
        out.push(t + 1);
        out.push(t + 2);
        out.push(t + 3);
        out.push(t + 1);
        proof {
            assert forall|k: int| 0 <= k < 6 implies #[trigger] out@[start + k] as int == cylinder_index(s as int, start + k) by {
                lemma_fundamental_div_mod_converse(start + k - 6 * s, 6, i as int, k);
            }
            assert forall|n: int| 0 <= n < out@.len() implies #[trigger] out@[n] as int == cylinder_index(s as int, n) by {
                if n >= start {
                    assert(out@[start + (n - start)] as int == cylinder_index(s as int, start + (n - start)));
                }
            }
        }
        i = i + 1;
    }
    out
}

/// Corner order of the two triangles of one quad face.
pub open spec fn quad_corner(k: int) -> int {
    seq![0, 1, 2, 2, 3, 0][k]
}

/// The `n`-th entry of the index list of a box whose 24 vertices start at
/// `base`: face `n / 6` uses vertices `base + 4 * face ..`.
pub open spec fn box_index(base: int, n: int) -> int {
    base + 4 * (n / 6) + quad_corner(n % 6)
}

/// Index list of an axis-aligned box whose six 4-vertex faces start at `base`.
pub fn box_triangles(base: u32) -> (r: Vec<u32>)
    requires
        base as int + 24 <= u32::MAX,
    ensures
        r@.len() == 36,
        forall|n: int| 0 <= n < 36 ==> #[trigger] r@[n] as int == box_index(base as int, n),
        forall|n: int| 0 <= n < 36 ==> base <= #[trigger] r@[n] < base + 24,
{
    let mut out: Vec<u32> = Vec::new();
    let mut face: u32 = 0;
    while face < 6
        invariant
            face <= 6,
            base as int + 24 <= u32::MAX,
            out@.len() == 6 * face,
            forall|n: int| 0 <= n < out@.len() ==> #[trigger] out@[n] as int == box_index(base as int, n),
            forall|n: int| 0 <= n < out@.len() ==> base <= #[trigger] out@[n] < base + 24,
        decreases 6 - face,
    {
        let v = base + face * 4;
        let ghost start = out@.len() as int;
        out.push(v);
        out.push(v + 1);
        out.push(v + 2);
        out.push(v + 2);
        out.push(v + 3);
        out.push(v);
        proof {
            assert forall|k: int| 0 <= k < 6 implies #[trigger] out@[start + k] as int == box_index(base as int, start + k) by {
                lemma_fundamental_div_mod_converse(start + k, 6, face as int, k);
            }
            assert forall|n: int| 0 <= n < out@.len() implies #[trigger] out@[n] as int == box_index(base as int, n) by {
                if n >= start {
                    assert(out@[start + (n - start)] as int == box_index(base as int, start + (n - start)));
                }
            }
        }
        face = face + 1;
    }
    out
}

/// Index list of one flat face whose `corners` (3 or 4) vertices start at
/// `base`: a triangle, or a quad split as `0 1 2 / 2 3 0`.
pub fn face_triangles(base: u32, corners: u32) -> (r: Vec<u32>)
    requires
        corners == 3 || corners == 4,
        base as int + 4 <= u32::MAX,
    ensures
        corners == 3 ==> r@ == seq![base, (base + 1) as u32, (base + 2) as u32],
        corners == 4 ==> r@.len() == 6 && forall|k: int| 0 <= k < 6 ==> #[trigger] r@[k] as int == base + quad_corner(k),
{
    if corners == 3 {
        vec![base, base + 1, base + 2]
    } else {
        let r = vec![base, base + 1, base + 2, base + 2, base + 3, base];
        assert forall|k: int| 0 <= k < 6 implies #[trigger] r@[k] as int == base + quad_corner(k) by {
            if k == 0 {} else if k == 1 {} else if k == 2 {} else if k == 3 {} else if k == 4 {} else {}
        }
        r
    }
}

impl ProceduralGenerator {
    /// Unit cube: six faces of four vertices (front, back, top, bottom,
    /// right, left), 24 vertices in all.
    pub fn create_cube() -> (m: MeshTopology)
        ensures
            m.name@ == "Cube"@,
            m.vertex_count == 24,
            m.indices@.len() == 36,
            forall|n: int| 0 <= n < 36 ==> #[trigger] m.indices@[n] as int == box_index(0, n),
            m.renderable(),
    {
        let indices = box_triangles(0);
        MeshTopology { name: String::from_str("Cube"), vertex_count: 24, indices }
    }

    /// Subdivided plane: a row-major grid of `(s + 1)^2` vertices, `s` the
    /// clamped subdivision count.
    pub fn create_plane(subdivisions: u32) -> (m: MeshTopology)
        ensures
            ({
                let s = clamp_spec(subdivisions as int, 1, 512);
                &&& m.vertex_count == (s + 1) * (s + 1)
                &&& m.indices@.len() == 6 * s * s
                &&& forall|n: int| 0 <= n < m.indices@.len() ==> #[trigger] m.indices@[n] as int == grid_index(s, n)
            }),
            m.name@ == "Plane"@,
            m.renderable(),
    {
        let s = safe_plane_subdivisions(subdivisions);
        let indices = grid_triangles(s, s);
        proof {
            assert(0 < (s + 1) * (s + 1) <= 513 * 513) by (nonlinear_arith)
                requires s <= 512;
            assert(6 * s * s > 0) by (nonlinear_arith)
                requires s >= 1;
            assert(6 * s * s == (2 * s * s) * 3) by (nonlinear_arith);
            lemma_mod_multiples_basic(2 * s * s, 3);
        }
        MeshTopology { name: String::from_str("Plane"), vertex_count: (s + 1) * (s + 1), indices }
    }

    /// UV sphere: `rings + 1` rows of `segments + 1` vertices (seam duplicated),
    /// both counts clamped.
    pub fn create_sphere(segments: u32, rings: u32) -> (m: MeshTopology)
        ensures
            ({
                let s = clamp_spec(segments as int, 3, 256);
                let r = clamp_spec(rings as int, 2, 128);
                &&& m.vertex_count == (s + 1) * (r + 1)
                &&& m.indices@.len() == 6 * r * s
                &&& forall|n: int| 0 <= n < m.indices@.len() ==> #[trigger] m.indices@[n] as int == grid_index(s, n)
            }),
            m.name@ == "Sphere"@,
            m.renderable(),
    {
        let s = safe_sphere_segments(segments);
        let r = safe_sphere_rings(rings);
        let indices = grid_triangles(r, s);
        proof {
            assert(0 < (s + 1) * (r + 1) <= 257 * 129) by (nonlinear_arith)
                requires s <= 256, r <= 128;
            assert(6 * r * s > 0) by (nonlinear_arith)
                requires s >= 1, r >= 1;
            assert(6 * r * s == (2 * r * s) * 3) by (nonlinear_arith);
            lemma_mod_multiples_basic(2 * r * s, 3);
            assert((r + 1) * (s + 1) == (s + 1) * (r + 1)) by (nonlinear_arith);
        }
        MeshTopology { name: String::from_str("Sphere"), vertex_count: (s + 1) * (r + 1), indices }
    }

    /// Capped cylinder with the clamped segment count; vertex layout as in
    /// [`cylinder_triangles`].
    pub fn create_cylinder(segments: u32) -> (m: MeshTopology)
        ensures
            ({
                let s = clamp_spec(segments as int, 3, 256);
                &&& m.vertex_count == 4 * s + 6
                &&& m.indices@.len() == 12 * s
                &&& forall|n: int| 0 <= n < m.indices@.len() ==> #[trigger] m.indices@[n] as int == cylinder_index(s, n)
            }),
            m.name@ == "Cylinder"@,
            m.renderable(),
    {
        let s = safe_cylinder_segments(segments);
        let indices = cylinder_triangles(s);
        MeshTopology { name: String::from_str("Cylinder"), vertex_count: 4 * s + 6, indices }
    }
}

} // verus!
