//! The triangles of a sphere made of meridians and parallels.
//!
//! The sphere has `nx` meridians and `nz` latitudes, the two poles
//! included. Its vertices are numbered as follows: the south pole is vertex
//! 0; then come the meridians one after the other, each with its `nz - 2`
//! vertices from south to north; the north pole is the last vertex.
//! Triangles are listed by vertex number, three numbers each, meridian by
//! meridian: between a meridian and the next one to the east lie a triangle
//! at the south pole, `nz - 3` quadrilaterals of two triangles each, and a
//! triangle at the north pole. The last meridian is joined to the first.

use vstd::prelude::*;

verus! {

/// The number of vertices of the sphere.
pub open spec fn vertex_count(nx: int, nz: int) -> int {
    2 + nx * (nz - 2)
}

/// The number of vertex numbers in the list of triangles.
pub open spec fn index_count(nx: int, nz: int) -> int {
    6 * (nx * (nz - 2))
}

/// The number of the vertex on meridian `ix` at latitude `iz`, where the
/// latitudes between the poles are counted from 1 to `nz - 2`.
pub open spec fn vertex_at(nz: int, ix: int, iz: int) -> int {
    ix * (nz - 2) + iz
}

/// The number of the north pole.
pub open spec fn north_pole(nx: int, nz: int) -> int {
    1 + nx * (nz - 2)
}

/// The meridian to the east of meridian `ix`.
pub open spec fn next_meridian(nx: int, ix: int) -> int {
    if ix + 1 < nx {
        ix + 1
    } else {
        0
    }
}

/// The triangle between meridian `ix`, the next meridian and the south pole.
pub open spec fn south_cap(nx: int, nz: int, ix: int) -> Seq<int> {
    seq![0, vertex_at(nz, next_meridian(nx, ix), 1), vertex_at(nz, ix, 1)]
}

/// The two triangles between meridian `ix` and the next and between the
/// latitudes `iz` and `iz + 1`.
pub open spec fn band(nx: int, nz: int, ix: int, iz: int) -> Seq<int> {
    let east = next_meridian(nx, ix);
    seq![
        vertex_at(nz, ix, iz),
        vertex_at(nz, east, iz + 1),
        vertex_at(nz, ix, iz + 1),
        vertex_at(nz, ix, iz),
        vertex_at(nz, east, iz),
        vertex_at(nz, east, iz + 1),
    ]
}

/// The triangle between meridian `ix`, the next meridian and the north pole.
pub open spec fn north_cap(nx: int, nz: int, ix: int) -> Seq<int> {
    seq![
        vertex_at(nz, next_meridian(nx, ix), nz - 2),
        north_pole(nx, nz),
        vertex_at(nz, ix, nz - 2),
    ]
}

/// The southernmost `count` bands between meridian `ix` and the next, from
/// south to north.
pub open spec fn bands(nx: int, nz: int, ix: int, count: nat) -> Seq<int>
    decreases count,
{
    if count == 0 {
        Seq::empty()
    } else {
        bands(nx, nz, ix, (count - 1) as nat) + band(nx, nz, ix, count as int)
    }
}

/// All triangles between meridian `ix` and the next, from pole to pole.
pub open spec fn gore(nx: int, nz: int, ix: int) -> Seq<int> {
    south_cap(nx, nz, ix) + bands(nx, nz, ix, (nz - 3) as nat) + north_cap(nx, nz, ix)
}

/// The triangles that start at the first `count` meridians.
pub open spec fn gores(nx: int, nz: int, count: nat) -> Seq<int>
    decreases count,
{
    if count == 0 {
        Seq::empty()
    } else {
        gores(nx, nz, (count - 1) as nat) + gore(nx, nz, count - 1)
    }
}

/// All triangles of the sphere.
pub open spec fn sphere_triangles(nx: int, nz: int) -> Seq<int> {
    gores(nx, nz, nx as nat)
}

/// Vertex numbers as mathematical integers.
pub open spec fn as_ints(indices: Seq<u32>) -> Seq<int> {
    indices.map_values(|v: u32| v as int)
}

/// Whether every entry of `indices` is the number of a vertex.
pub open spec fn all_below(indices: Seq<int>, bound: int) -> bool {
    forall|k: int| 0 <= k < indices.len() ==> 0 <= #[trigger] indices[k] < bound
}

/// The vertices of meridian `ix` come before those of meridian `nx`.
proof fn lemma_meridian_bound(nx: int, rings: int, ix: int)
    requires
        0 <= ix < nx,
        0 <= rings,
    ensures
        0 <= ix * rings,
        ix * rings + rings <= nx * rings,
{
    assert(0 <= ix * rings && ix * rings + rings <= nx * rings) by (nonlinear_arith)
        requires
            0 <= ix < nx,
            0 <= rings,
    ;
}

/// A vertex between the poles has a number above the south pole's and
/// below the north pole's.
pub proof fn lemma_vertex_in_range(nx: int, nz: int, ix: int, iz: int)
    requires
        0 <= ix < nx,
        1 <= iz <= nz - 2,
    ensures
        0 < vertex_at(nz, ix, iz) < north_pole(nx, nz),
        north_pole(nx, nz) < vertex_count(nx, nz),
{
    lemma_meridian_bound(nx, nz - 2, ix);
}

proof fn lemma_bands_shape(nx: int, nz: int, ix: int, count: nat)
    requires
        0 <= ix < nx,
        count <= nz - 3,
    ensures
        bands(nx, nz, ix, count).len() == 6 * count,
        all_below(bands(nx, nz, ix, count), vertex_count(nx, nz)),
    decreases count,
{
    if count > 0 {
        lemma_bands_shape(nx, nz, ix, (count - 1) as nat);
        let east = next_meridian(nx, ix);
        lemma_vertex_in_range(nx, nz, ix, count as int);
        lemma_vertex_in_range(nx, nz, ix, count as int + 1);
        lemma_vertex_in_range(nx, nz, east, count as int);
        lemma_vertex_in_range(nx, nz, east, count as int + 1);
    }
}

proof fn lemma_gore_shape(nx: int, nz: int, ix: int)
    requires
        0 <= ix < nx,
        nz >= 3,
    ensures
        gore(nx, nz, ix).len() == 6 * (nz - 2),
        all_below(gore(nx, nz, ix), vertex_count(nx, nz)),
{
    let east = next_meridian(nx, ix);
    lemma_bands_shape(nx, nz, ix, (nz - 3) as nat);
    lemma_vertex_in_range(nx, nz, ix, 1);
    lemma_vertex_in_range(nx, nz, east, 1);
    lemma_vertex_in_range(nx, nz, ix, nz - 2);
    lemma_vertex_in_range(nx, nz, east, nz - 2);
}

proof fn lemma_gores_shape(nx: int, nz: int, count: nat)
    requires
        count <= nx,
        nz >= 3,
    ensures
        gores(nx, nz, count).len() == 6 * (count * (nz - 2)),
        all_below(gores(nx, nz, count), vertex_count(nx, nz)),
    decreases count,
{
    if count > 0 {
        lemma_gores_shape(nx, nz, (count - 1) as nat);
        lemma_gore_shape(nx, nz, count - 1);
        let earlier = (count - 1) as nat;
        assert(6 * (earlier * (nz - 2)) + 6 * (nz - 2) == 6 * (count * (nz - 2)))
            by (nonlinear_arith)
            requires
                earlier + 1 == count,
        ;
    } else {
        assert(count * (nz - 2) == 0) by (nonlinear_arith)
            requires
                count == 0,
        ;
    }
}

/// The list of triangles has six entries for each vertex between the
/// poles, and each entry is the number of a vertex of the sphere.
pub proof fn lemma_sphere_triangles_shape(nx: int, nz: int)
    requires
        nx >= 1,
        nz >= 3,
    ensures
        sphere_triangles(nx, nz).len() == index_count(nx, nz),
        all_below(sphere_triangles(nx, nz), vertex_count(nx, nz)),
{
    lemma_gores_shape(nx, nz, nx as nat);
}

/// No triangle of the sphere is degenerate: the three corners of each are
/// three different vertices. Stated of the caps and of the two triangles of
/// a band.
pub proof fn lemma_corners_differ(nx: int, nz: int, ix: int, iz: int)
    requires
        nx >= 2,
        0 <= ix < nx,
        1 <= iz <= nz - 3,
    ensures
        south_cap(nx, nz, ix)[0] != south_cap(nx, nz, ix)[1],
        south_cap(nx, nz, ix)[0] != south_cap(nx, nz, ix)[2],
        south_cap(nx, nz, ix)[1] != south_cap(nx, nz, ix)[2],
        north_cap(nx, nz, ix)[0] != north_cap(nx, nz, ix)[1],
        north_cap(nx, nz, ix)[0] != north_cap(nx, nz, ix)[2],
        north_cap(nx, nz, ix)[1] != north_cap(nx, nz, ix)[2],
        band(nx, nz, ix, iz)[0] != band(nx, nz, ix, iz)[1],
        band(nx, nz, ix, iz)[0] != band(nx, nz, ix, iz)[2],
        band(nx, nz, ix, iz)[1] != band(nx, nz, ix, iz)[2],
        band(nx, nz, ix, iz)[3] != band(nx, nz, ix, iz)[4],
        band(nx, nz, ix, iz)[3] != band(nx, nz, ix, iz)[5],
        band(nx, nz, ix, iz)[4] != band(nx, nz, ix, iz)[5],
{
    let east = next_meridian(nx, ix);
    let rings = nz - 2;
    lemma_vertex_in_range(nx, nz, ix, 1);
    lemma_vertex_in_range(nx, nz, east, 1);
    lemma_vertex_in_range(nx, nz, ix, nz - 2);
    lemma_vertex_in_range(nx, nz, east, nz - 2);
    // Two different meridians are at least one meridian's vertices apart.
    assert(east != ix);
    if east < ix {
        assert(east * rings + rings <= ix * rings) by (nonlinear_arith)
            requires
                0 <= east < ix,
                0 <= rings,
        ;
    } else {
        assert(ix * rings + rings <= east * rings) by (nonlinear_arith)
            requires
                0 <= ix < east,
                0 <= rings,
        ;
    }
}

fn push_triangle(indices: &mut Vec<u32>, a: u32, b: u32, c: u32)
    ensures
        as_ints(final(indices)@) == as_ints(old(indices)@) + seq![a as int, b as int, c as int],
{
    indices.push(a);
    indices.push(b);
    indices.push(c);
    assert(as_ints(indices@) =~= as_ints(old(indices)@) + seq![a as int, b as int, c as int]);
}

/// Whether a sphere of `nx` meridians and `nz` latitudes can be built: it
/// needs at least four of each, its vertex numbers have to fit in 32 bits,
/// and the length of its list of triangles in the type that a vector is
/// indexed with.
pub open spec fn buildable(nx: int, nz: int) -> bool {
    &&& nx >= 4
    &&& nz >= 4
    &&& vertex_count(nx, nz) <= u32::MAX
    &&& index_count(nx, nz) <= usize::MAX
}

/// Decides whether a sphere of the given size can be built.
pub fn sphere_fits(nx: u32, nz: u32) -> (fits: bool)
    ensures
        fits == buildable(nx as int, nz as int),
{
    if nx < 4 || nz < 4 {
        return false;
    }
    let meridians: u128 = nx as u128;
    let rings: u128 = (nz - 2) as u128;
    assert(meridians * rings <= 0xffff_ffff * 0xffff_ffff) by (nonlinear_arith)
        requires
            0 <= meridians <= 0xffff_ffff,
            0 <= rings <= 0xffff_ffff,
    ;
    let between: u128 = meridians * rings;
    2 + between <= u32::MAX as u128 && 6 * between <= usize::MAX as u128
}

/// The triangles of a sphere of `nx` meridians and `nz` latitudes, as
/// vertex numbers.
///
/// A sphere needs at least four meridians and four latitudes. Its vertex
/// numbers have to fit the type they are returned in, and their count the
/// type that a vector is indexed with.
pub fn sphere_indices(nx: u32, nz: u32) -> (indices: Vec<u32>)
    requires
        buildable(nx as int, nz as int),
    ensures
        as_ints(indices@) == sphere_triangles(nx as int, nz as int),
        indices@.len() == index_count(nx as int, nz as int),
        forall|k: int| 0 <= k < indices@.len() ==> #[trigger] indices@[k] < vertex_count(nx as int, nz as int),
{
    let mut indices: Vec<u32> = Vec::new();
    let ghost x = nx as int;
    let ghost z = nz as int;

    let mut ix: u32 = 0;
    while ix < nx
        invariant
            nx >= 4,
            nz >= 4,
            x == nx,
            z == nz,
            ix <= nx,
            vertex_count(x, z) <= u32::MAX,
            as_ints(indices@) == gores(x, z, ix as nat),
        decreases nx - ix,
    {
        let ghost done = as_ints(indices@);
        proof {
            lemma_meridian_bound(x, z - 2, ix as int);
            if ix < nx - 1 {
                lemma_meridian_bound(x, z - 2, ix + 1);
                assert((ix + 1) * (z - 2) == ix * (z - 2) + (z - 2)) by (nonlinear_arith);
            }
        }

        // At the south pole.
        let k0: u32 = 0;
        let k1: u32 = (ix * (nz - 2)) + 1;
        // The last meridian is joined to the first.
        let k2: u32 = if ix < nx - 1 {
            k1 + (nz - 1) - 1
        } else {
            1
        };
        push_triangle(&mut indices, k0, k2, k1);
        assert(as_ints(indices@) == done + south_cap(x, z, ix as int) + bands(x, z, ix as int, 0));

        // Between the poles.
        let mut iz: u32 = 1;
        while iz < nz - 2
            invariant
                nx >= 4,
                nz >= 4,
                x == nx,
                z == nz,
                ix < nx,
                1 <= iz <= nz - 2,
                vertex_count(x, z) <= u32::MAX,
                0 <= ix * (z - 2),
                ix * (z - 2) + (z - 2) <= x * (z - 2),
                ix < nx - 1 ==> (ix + 1) * (z - 2) + (z - 2) <= x * (z - 2),
                ix < nx - 1 ==> (ix + 1) * (z - 2) == ix * (z - 2) + (z - 2),
                as_ints(indices@) == done + south_cap(x, z, ix as int) + bands(
                    x,
                    z,
                    ix as int,
                    (iz - 1) as nat,
                ),
            decreases nz - iz,
        {
            let ghost so_far = as_ints(indices@);
            let k0: u32 = ix * (nz - 2) + iz;
            let k1: u32 = k0 + 1;
            let k2: u32 = if ix < (nx - 1) {
                k1 + (nz - 2)
            } else {
                iz + 1
            };
            let k3: u32 = k2 - 1;

            push_triangle(&mut indices, k0, k2, k1);
            push_triangle(&mut indices, k0, k3, k2);
            proof {
                assert(as_ints(indices@) =~= so_far + band(x, z, ix as int, iz as int));
                assert(bands(x, z, ix as int, iz as nat) == bands(x, z, ix as int, (iz - 1) as nat)
                    + band(x, z, ix as int, iz as int));
                assert(as_ints(indices@) =~= done + south_cap(x, z, ix as int) + bands(
                    x,
                    z,
                    ix as int,
                    iz as nat,
                ));
            }
            iz = iz + 1;
        }

        // At the north pole, which is the last vertex.
        let k0: u32 = ix * (nz - 2) + (nz - 2);
        let k1: u32 = 1 + nx * (nz - 2);
        let k2: u32 = if ix < (nx - 1) {
            k0 + (nz - 2)
        } else {
            nz - 2
        };
        push_triangle(&mut indices, k2, k1, k0);
        proof {
            assert(as_ints(indices@) =~= done + gore(x, z, ix as int));
        }
        ix = ix + 1;
    }

    proof {
        lemma_sphere_triangles_shape(x, z);
        assert(indices@.len() == as_ints(indices@).len());
        assert forall|k: int| 0 <= k < indices@.len() implies #[trigger] indices@[k] < vertex_count(
            x,
            z,
        ) by {
            assert(as_ints(indices@)[k] == indices@[k] as int);
        }
    }
    indices
}

/// The triangles of a sphere of the given size, if such a sphere can be
/// built.
pub fn checked_sphere_indices(nx: u32, nz: u32) -> (made: Option<Vec<u32>>)
    ensures
        made is Some <==> buildable(nx as int, nz as int),
        made matches Some(indices) ==> as_ints(indices@) == sphere_triangles(nx as int, nz as int),
{
    if sphere_fits(nx, nz) {
        Some(sphere_indices(nx, nz))
    } else {
        None
    }
}

} // verus!
