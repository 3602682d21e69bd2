//! Triangle-list meshes and the layout of the UV-sphere.
//!
//! A sphere with `rings` latitude bands and `slices` longitude bands is a grid of
//! band-cells. Ring boundary `i` (`0 <= i <= rings`) sits at polar angle
//! `pi / 2 + i * pi / rings`, slice boundary `j` (`0 <= j <= slices`) at azimuth
//! `2 * pi + j * 2 * pi / slices`. Cell `(i, j)`, for `1 <= i <= rings` and
//! `1 <= j <= slices`, has its top edge on ring boundary `i`, its bottom edge on
//! ring boundary `i - 1`, its left edge on slice boundary `j - 1` and its right
//! edge on slice boundary `j`. Cells are emitted ring by ring, slice by slice, each
//! as two triangles: (top-left, top-right, bottom-left) and
//! (bottom-right, bottom-left, top-right).
use vstd::prelude::*;

verus! {

/// Floats per vertex of a textured mesh: position x, y, z, then u, v.
pub const TEXTURED_STRIDE: usize = 5;

/// Bytes per vertex record of a textured mesh of `f32` values.
pub const TEXTURED_STRIDE_BYTES: i32 = 20;

/// Byte offset of the texture coordinates within a textured vertex record.
pub const UV_OFFSET_BYTES: i32 = 12;

/// An interleaved triangle-list vertex buffer.
pub struct Mesh<T> {
    pub vertices: Vec<T>,
}

impl<T> Mesh<T> {
    pub fn new(vertices: Vec<T>) -> (r: Self)
        ensures
            r.vertices@ == vertices@,
    {
        Mesh { vertices }
    }

    /// The number of whole vertex records when each vertex takes `stride` values.
    pub fn vertex_count(&self, stride: usize) -> (r: usize)
        requires
            stride > 0,
        ensures
            r == self.vertices.len() / stride,
    {
        self.vertices.len() / stride
    }
}

/// Why a mesh could not be generated.
#[derive(Clone, Copy, PartialEq, Eq, Structural, Debug)]
pub enum GenerationError {
    InvalidParameters,
}

/// A grid point of the sphere: ring boundary `ring` and slice boundary `slice`.
#[derive(Clone, Copy, PartialEq, Eq, Structural, Debug)]
pub struct GridCorner {
    pub ring: u32,
    pub slice: u32,
}

/// Whether the ring and slice counts describe a sphere (at least three of each).
pub open spec fn valid_grid(rings: int, slices: int) -> bool {
    rings >= 3 && slices >= 3
}

/// Corner `k` (`0 <= k < 6`) of the two triangles of cell number `cell`, where cells are
/// numbered ring by ring: cell `c` is cell `(c / slices + 1, c % slices + 1)`.
pub open spec fn cell_corner(slices: int, cell: int, k: int) -> (int, int) {
    let top = cell / slices + 1;
    let right = cell % slices + 1;
    let bottom = top - 1;
    let left = right - 1;
    if k == 0 {
        (top, left)
    } else if k == 1 {
        (top, right)
    } else if k == 2 {
        (bottom, left)
    } else if k == 3 {
        (bottom, right)
    } else if k == 4 {
        (bottom, left)
    } else {
        (top, right)
    }
}

/// `corners` is the vertex sequence of the sphere with `rings` and `slices` bands.
pub open spec fn is_sphere_layout(rings: int, slices: int, corners: Seq<GridCorner>) -> bool {
    &&& corners.len() == rings * slices * 6
    &&& forall|p: int|
        0 <= p < corners.len() ==> (#[trigger] corners[p].ring as int, corners[p].slice as int)
            == cell_corner(slices, p / 6, p % 6)
}

/// The sequence of grid corners, one per emitted vertex, of the UV-sphere with `rings`
/// latitude and `slices` longitude bands; fails when either count is below three.
pub fn sphere_corners(rings: u32, slices: u32) -> (r: Result<Vec<GridCorner>, GenerationError>)
    requires
        rings * slices * 6 <= usize::MAX,
    ensures
        r is Err <==> !valid_grid(rings as int, slices as int),
        r matches Err(e) ==> e == GenerationError::InvalidParameters,
        r matches Ok(v) ==> is_sphere_layout(rings as int, slices as int, v@) && v.len() % 3 == 0,
{
    if rings < 3 || slices < 3 {
        return Err(GenerationError::InvalidParameters);
    }
    let mut corners: Vec<GridCorner> = Vec::new();
    let mut i: u32 = 0;
    while i < rings
        invariant
            3 <= rings,
            3 <= slices,
            rings * slices * 6 <= usize::MAX,
            i <= rings,
            corners.len() == i * slices * 6,
            forall|p: int|
                0 <= p < corners.len() ==> (#[trigger] corners@[p].ring as int, corners@[p].slice as int)
                    == cell_corner(slices as int, p / 6, p % 6),
        decreases rings - i,
    {
        let mut j: u32 = 0;
        while j < slices
            invariant
                3 <= rings,
                3 <= slices,
                rings * slices * 6 <= usize::MAX,
                i < rings,
                j <= slices,
                corners.len() == (i * slices + j) * 6,
                forall|p: int|
                    0 <= p < corners.len() ==> (#[trigger] corners@[p].ring as int, corners@[p].slice as int)
                        == cell_corner(slices as int, p / 6, p % 6),
            decreases slices - j,
        {
            let top_left = GridCorner { ring: i + 1, slice: j };
            let top_right = GridCorner { ring: i + 1, slice: j + 1 };
            let bottom_left = GridCorner { ring: i, slice: j };
            let bottom_right = GridCorner { ring: i, slice: j + 1 };
            let ghost base = corners.len() as int;
            let ghost cell = i * slices + j;
            proof {
                assert(cell / (slices as int) == i && cell % (slices as int) == j) by (nonlinear_arith)
                    requires
                        cell == i * slices + j,
                        0 <= j < slices,
                        0 <= i,
                ;
                assert((cell + 1) * 6 <= rings * slices * 6) by (nonlinear_arith)
                    requires
                        cell == i * slices + j,
                        0 <= j < slices,
                        0 <= i < rings,
                ;
            }
            corners.push(top_left);
            corners.push(top_right);
            corners.push(bottom_left);
            corners.push(bottom_right);
            corners.push(bottom_left);
            corners.push(top_right);
            proof {
                assert forall|p: int| 0 <= p < corners.len() implies (
                #[trigger] corners@[p].ring as int, corners@[p].slice as int) == cell_corner(
                    slices as int,
                    p / 6,
                    p % 6,
                ) by {
                    if p >= base {
                        assert(p / 6 == cell && p % 6 == p - base);
                    }
                }
            }
            j = j + 1;
        }
        proof {
            assert((i * slices + slices) * 6 == (i + 1) * slices * 6) by (nonlinear_arith);
        }
        i = i + 1;
    }
    proof {
        assert(corners.len() == rings * slices * 6);
        assert((rings * slices * 6) % 3 == 0) by (nonlinear_arith);
    }
    Ok(corners)
}

/// The values `record` gives for grid corner `c` are `values`.
pub open spec fn gives<T, F: Fn(GridCorner) -> [T; 5]>(record: F, c: GridCorner, values: Seq<T>) -> bool {
    forall|rec: [T; 5]| rec@ == values ==> #[trigger] call_ensures(record, (c,), rec)
}

/// `vertices` holds, record after record, the five values `record` gives for each
/// corner in `corners`.
pub open spec fn is_expansion<T, F: Fn(GridCorner) -> [T; 5]>(
    corners: Seq<GridCorner>,
    record: F,
    vertices: Seq<T>,
) -> bool {
    &&& vertices.len() == corners.len() * 5
    &&& forall|k: int|
        0 <= k < corners.len() ==> gives(record, #[trigger] corners[k], vertices.subrange(5 * k, 5 * k + 5))
}

impl<T: Copy> Mesh<T> {
    /// A UV-sphere with `rings` latitude and `slices` longitude bands: for each vertex of
    /// the sphere layout, in order, the five values `record` gives for its grid corner.
    /// Fails, without calling `record`, when either count is below three.
    pub fn sphere<F: Fn(GridCorner) -> [T; 5]>(rings: u32, slices: u32, record: F) -> (r: Result<
        Self,
        GenerationError,
    >)
        requires
            rings * slices * 30 <= usize::MAX,
            forall|c: GridCorner| c.ring <= rings && c.slice <= slices ==> call_requires(record, (c,)),
        ensures
            r is Err <==> !valid_grid(rings as int, slices as int),
            r matches Err(e) ==> e == GenerationError::InvalidParameters,
            r matches Ok(mesh) ==> exists|corners: Seq<GridCorner>|
                is_sphere_layout(rings as int, slices as int, corners) && is_expansion(
                    corners,
                    record,
                    mesh.vertices@,
                ),
            r matches Ok(mesh) ==> mesh.vertices.len() == rings * slices * 30,
    {
        broadcast use vstd::array::group_array_axioms;

        let corners = match sphere_corners(rings, slices) {
            Ok(corners) => corners,
            Err(e) => {
                return Err(e);
            },
        };
        let mut vertices: Vec<T> = Vec::new();
        let mut k: usize = 0;
        while k < corners.len()
            invariant
                is_sphere_layout(rings as int, slices as int, corners@),
                rings * slices * 30 <= usize::MAX,
                forall|c: GridCorner| c.ring <= rings && c.slice <= slices ==> call_requires(record, (c,)),
                k <= corners.len(),
                vertices.len() == 5 * k,
                forall|m: int|
                    0 <= m < k ==> gives(record, #[trigger] corners@[m], vertices@.subrange(5 * m, 5 * m + 5)),
            decreases corners.len() - k,
        {
            let c = corners[k];
            proof {
                let kk = k as int;
                let cell = kk / 6;
                let (ring, slice) = cell_corner(slices as int, cell, kk % 6);
                assert((c.ring as int, c.slice as int) == (ring, slice));
                assert(cell < rings * slices) by (nonlinear_arith)
                    requires
                        kk < rings * slices * 6,
                        cell == kk / 6,
                        kk >= 0,
                ;
                assert(cell / (slices as int) < rings) by (nonlinear_arith)
                    requires
                        cell < rings * slices,
                        slices > 0,
                        cell >= 0,
                ;
                assert(cell % (slices as int) < slices) by (nonlinear_arith)
                    requires
                        slices > 0,
                ;
            }
            let rec = record(c);
            let ghost before = vertices@;
            vertices.push(rec[0]);
            vertices.push(rec[1]);
            vertices.push(rec[2]);
            vertices.push(rec[3]);
            vertices.push(rec[4]);
            proof {
                assert(vertices@.subrange(5 * k, 5 * k + 5) =~= rec@);
                assert forall|m: int| 0 <= m < k + 1 implies gives(
                    record,
                    #[trigger] corners@[m],
                    vertices@.subrange(5 * m, 5 * m + 5),
                ) by {
                    if m < k {
                        assert(vertices@.subrange(5 * m, 5 * m + 5) =~= before.subrange(5 * m, 5 * m + 5));
                    } else {
                        assert forall|r2: [T; 5]| r2@ == vertices@.subrange(5 * m, 5 * m + 5) implies #[trigger] call_ensures(
                            record,
                            (corners@[m],),
                            r2,
                        ) by {
                            assert(r2 =~= rec);
                        }
                    }
                }
            }
            k = k + 1;
        }
        let mesh = Mesh { vertices };
        assert(is_expansion(corners@, record, mesh.vertices@));
        Ok(mesh)
    }
}

/// The sphere layout is a function of the ring and slice counts alone: any two vertex
/// sequences produced for the same counts are identical.
pub proof fn lemma_sphere_layout_deterministic(
    rings: int,
    slices: int,
    a: Seq<GridCorner>,
    b: Seq<GridCorner>,
)
    requires
        is_sphere_layout(rings, slices, a),
        is_sphere_layout(rings, slices, b),
    ensures
        a == b,
{
    assert forall|p: int| 0 <= p < a.len() implies #[trigger] a[p] == b[p] by {
        assert((a[p].ring as int, a[p].slice as int) == cell_corner(slices, p / 6, p % 6));
        assert((b[p].ring as int, b[p].slice as int) == cell_corner(slices, p / 6, p % 6));
    }
    assert(a =~= b);
}

} // verus!
