//! The integer side of the mesh generators: which vertices form which
//! triangles, and which faces the truncated icosahedron has. Positions and
//! colors are fractional and are computed by the application.

use vstd::prelude::*;

verus! {

/// Corner `k` (0 to 5) of the two triangles that split a quad whose four
/// corners are numbered 0 to 3 counter-clockwise: (0, 1, 2) and (2, 3, 0).
pub open spec fn quad_corner(k: int) -> int {
    if k == 0 {
        0
    } else if k == 1 {
        1
    } else if k == 2 {
        2
    } else if k == 3 {
        2
    } else if k == 4 {
        3
    } else {
        0
    }
}

/// Number of faces of the cube.
pub const CUBE_FACES: u32 = 6;

/// The index list of the cube: face `f` owns the vertices `4 f .. 4 f + 4`
/// and is split into two triangles, keeping their winding.
pub fn cube_indices() -> (indices: Vec<u32>)
    ensures
        indices.len() == 6 * CUBE_FACES,
        forall|i: int|
            0 <= i < indices.len() ==> #[trigger] indices[i] == 4 * (i / 6) + quad_corner(i % 6),
{
    let mut indices: Vec<u32> = Vec::new();
    let mut face: u32 = 0;
    while face < CUBE_FACES
        invariant
            face <= CUBE_FACES,
            indices.len() == 6 * face,
            forall|i: int|
                0 <= i < indices.len() ==> #[trigger] indices[i] == 4 * (i / 6) + quad_corner(
                    i % 6,
                ),
        decreases CUBE_FACES - face,
    {
        let base = 4 * face;
        let ghost before = indices@;
        indices.push(base);
        indices.push(base + 1);
        indices.push(base + 2);
        indices.push(base + 2);
        indices.push(base + 3);
        indices.push(base);
        proof {
            assert forall|i: int| 0 <= i < indices.len() implies #[trigger] indices[i] == 4 * (i
                / 6) + quad_corner(i % 6) by {
                if i >= 6 * face {
                    assert(i / 6 == face as int);
                } else {
                    assert(indices[i] == before[i]);
                }
            }
        }
        face = face + 1;
    }
    indices
}

/// The sum of the polygon sizes.
pub open spec fn total_size(sizes: Seq<u32>) -> nat
    decreases sizes.len(),
{
    if sizes.len() == 0 {
        0
    } else {
        total_size(sizes.drop_last()) + (sizes.last() as nat)
    }
}

/// The first `count` triangles of the fan of a convex polygon whose
/// vertices start at `base`: triangle `t` is `(base, base + t + 1, base + t
/// + 2)`.
pub open spec fn fan(base: nat, count: nat) -> Seq<u32> {
    Seq::new(
        3 * count,
        |k: int|
            if k % 3 == 0 {
                base as u32
            } else {
                (base + k / 3 + k % 3) as u32
            },
    )
}

/// Triangles in the fan of a polygon of `size` vertices.
pub open spec fn fan_count(size: nat) -> nat {
    if size >= 2 {
        (size - 2) as nat
    } else {
        0
    }
}

/// The index list of polygons laid out one after the other, each with
/// `sizes[p]` consecutive vertices, each split into a fan.
pub open spec fn fans(sizes: Seq<u32>) -> Seq<u32>
    decreases sizes.len(),
{
    if sizes.len() == 0 {
        Seq::empty()
    } else {
        fans(sizes.drop_last()) + fan(
            total_size(sizes.drop_last()),
            fan_count(sizes.last() as nat),
        )
    }
}

proof fn lemma_total_size_monotone(sizes: Seq<u32>, k: int)
    requires
        0 <= k <= sizes.len(),
    ensures
        total_size(sizes.take(k)) <= total_size(sizes),
    decreases sizes.len() - k,
{
    if k < sizes.len() {
        lemma_total_size_monotone(sizes, k + 1);
        assert(sizes.take(k + 1).drop_last() =~= sizes.take(k));
    } else {
        assert(sizes.take(k) =~= sizes);
    }
}

/// Triangulates convex polygons whose vertices were laid out one after the
/// other: each becomes a fan around its first vertex, which keeps its
/// winding.
pub fn fan_indices(sizes: &Vec<u32>) -> (indices: Vec<u32>)
    requires
        forall|p: int| 0 <= p < sizes.len() ==> #[trigger] sizes[p] >= 1,
        total_size(sizes@) <= u32::MAX,
    ensures
        indices@ == fans(sizes@),
{
    let mut indices: Vec<u32> = Vec::new();
    let mut base: u32 = 0;
    let mut p: usize = 0;
    proof {
        assert(sizes@.take(0) =~= Seq::<u32>::empty());
        assert(fans(Seq::<u32>::empty()) =~= Seq::<u32>::empty());
    }
    while p < sizes.len()
        invariant
            p <= sizes.len(),
            forall|q: int| 0 <= q < sizes.len() ==> #[trigger] sizes[q] >= 1,
            total_size(sizes@) <= u32::MAX,
            base == total_size(sizes@.take(p as int)),
            indices@ == fans(sizes@.take(p as int)),
        decreases sizes.len() - p,
    {
        let size = sizes[p];
        proof {
            lemma_total_size_monotone(sizes@, p + 1);
            assert(sizes@.take(p + 1).drop_last() =~= sizes@.take(p as int));
        }
        let ghost start = indices@;
        let last = size - 1;
        let mut i: u32 = 1;
        while i < last
            invariant
                1 <= i,
                last == size - 1,
                i <= last || (last == 0 && i == 1),
                size == sizes[p as int],
                size >= 1,
                base + size <= u32::MAX,
                indices@ == start + fan(base as nat, (i - 1) as nat),
            decreases size - i,
        {
            let ghost before = indices@;
            indices.push(base);
            indices.push(base + i);
            indices.push(base + i + 1);
            proof {
                assert(indices@ =~= start + fan(base as nat, i as nat)) by {
                    assert(fan(base as nat, i as nat).len() == 3 * i);
                    assert forall|k: int| 0 <= k < 3 * i implies #[trigger] fan(
                        base as nat,
                        i as nat,
                    )[k] == (start + fan(base as nat, i as nat))[start.len() + k] by {}
                    assert forall|k: int| 0 <= k < indices@.len() implies indices@[k] == (start
                        + fan(base as nat, i as nat))[k] by {
                        if k < before.len() {
                            assert(before[k] == (start + fan(base as nat, (i - 1) as nat))[k]);
                            if k >= start.len() {
                                let j = k - start.len();
                                assert(fan(base as nat, (i - 1) as nat)[j] == fan(
                                    base as nat,
                                    i as nat,
                                )[j]);
                            }
                        } else {
                            let j = k - start.len();
                            assert(j / 3 == i - 1);
                        }
                    }
                }
            }
            i = i + 1;
        }
        proof {
            assert(fan_count(size as nat) == (i - 1) as nat);
        }
        base = base + size;
        p = p + 1;
    }
    proof {
        assert(sizes@.take(sizes.len() as int) =~= sizes@);
    }
    indices
}

/// A face of the truncated icosahedron, named by the icosahedron corners
/// it comes from: a corner cut off becomes a pentagon, a triangle of three
/// corners becomes a hexagon.
#[derive(Clone, Copy, Debug, PartialEq, Eq, Structural)]
pub enum Face {
    Pentagon(usize),
    Hexagon(usize, usize, usize),
}

/// Number of neighbours of an icosahedron corner.
pub const RING_LEN: usize = 5;

/// The hexagons that corner `index` emits among the first `upto` pairs of
/// its ring: the triangle of consecutive ring entries `(j, k)` is emitted
/// only by its lowest-numbered corner, so that each appears once.
pub open spec fn ring_hexagons(index: usize, ring: [usize; 5], upto: int) -> Seq<Face>
    decreases upto,
{
    if upto <= 0 {
        Seq::empty()
    } else {
        let i = upto - 1;
        let j = ring@[i];
        let k = ring@[(i + 1) % 5];
        let before = ring_hexagons(index, ring, i);
        if index > j || index > k {
            before
        } else {
            before.push(Face::Hexagon(index, j, k))
        }
    }
}

/// The faces emitted by the first `count` corners, corner by corner: its
/// pentagon, then its hexagons.
pub open spec fn corner_faces(rings: Seq<[usize; 5]>, count: int) -> Seq<Face>
    decreases count,
{
    if count <= 0 {
        Seq::empty()
    } else {
        let c = count - 1;
        corner_faces(rings, c).push(Face::Pentagon(c as usize)) + ring_hexagons(
            c as usize,
            rings[c],
            5,
        )
    }
}

/// The faces of the truncated icosahedron, given the ring of neighbours of
/// each icosahedron corner, ordered counter-clockwise.
pub fn football_faces(rings: &Vec<[usize; 5]>) -> (faces: Vec<Face>)
    ensures
        faces@ == corner_faces(rings@, rings.len() as int),
{
    let mut faces: Vec<Face> = Vec::new();
    let mut index: usize = 0;
    while index < rings.len()
        invariant
            index <= rings.len(),
            faces@ == corner_faces(rings@, index as int),
        decreases rings.len() - index,
    {
        faces.push(Face::Pentagon(index));
        let ring = rings[index];
        let ghost start = faces@;
        let mut i: usize = 0;
        while i < RING_LEN
            invariant
                i <= RING_LEN,
                ring == rings@[index as int],
                faces@ == start + ring_hexagons(index, ring, i as int),
            decreases RING_LEN - i,
        {
            let j = ring[i];
            let k = ring[(i + 1) % RING_LEN];
            if !(index > j || index > k) {
                faces.push(Face::Hexagon(index, j, k));
                proof {
                    assert(faces@ =~= start + ring_hexagons(index, ring, i + 1));
                }
            }
            i = i + 1;
        }
        index = index + 1;
    }
    faces
}

/// Every index of the cube names one of its 24 vertices.
pub proof fn law_cube_indices_in_range(i: int)
    requires
        0 <= i < 6 * CUBE_FACES,
    ensures
        0 <= 4 * (i / 6) + quad_corner(i % 6) < 4 * CUBE_FACES,
{
}

/// Every index of the fans names one of the laid-out vertices.
pub proof fn law_fan_indices_in_range(sizes: Seq<u32>)
    requires
        forall|p: int| 0 <= p < sizes.len() ==> #[trigger] sizes[p] >= 1,
        total_size(sizes) <= u32::MAX,
    ensures
        forall|k: int| 0 <= k < fans(sizes).len() ==> #[trigger] fans(sizes)[k] < total_size(sizes),
    decreases sizes.len(),
{
    if sizes.len() > 0 {
        let rest = sizes.drop_last();
        let base = total_size(rest);
        let size = sizes.last() as nat;
        assert forall|p: int| 0 <= p < rest.len() implies #[trigger] rest[p] >= 1 by {
            assert(rest[p] == sizes[p]);
        }
        law_fan_indices_in_range(rest);
        let count = fan_count(size);
        assert forall|k: int| 0 <= k < fans(sizes).len() implies #[trigger] fans(sizes)[k]
            < total_size(sizes) by {
            if k >= fans(rest).len() {
                let j = k - fans(rest).len();
                assert(fans(sizes)[k] == fan(base, count)[j]);
                assert(j / 3 < count) by (nonlinear_arith)
                    requires
                        0 <= j < 3 * count,
                ;
                assert(base + j / 3 + j % 3 < base + size);
            } else {
                assert(fans(sizes)[k] == fans(rest)[k]);
            }
        }
    }
}

/// A hexagon is emitted by its lowest-numbered corner.
pub proof fn law_hexagon_emitted_by_lowest_corner(rings: Seq<[usize; 5]>, count: int)
    ensures
        forall|f: int|
            0 <= f < corner_faces(rings, count).len() ==> (#[trigger] corner_faces(rings, count)[f]
                matches Face::Hexagon(a, b, c) ==> a <= b && a <= c),
    decreases count,
{
    if count > 0 {
        let c = count - 1;
        law_hexagon_emitted_by_lowest_corner(rings, c);
        lemma_ring_hexagons_lowest(c as usize, rings[c], 5);
        let head = corner_faces(rings, c).push(Face::Pentagon(c as usize));
        assert forall|f: int| 0 <= f < corner_faces(rings, count).len() implies (
        #[trigger] corner_faces(rings, count)[f] matches Face::Hexagon(a, b, d) ==> a <= b && a
            <= d) by {
            if f < head.len() {
                assert(corner_faces(rings, count)[f] == head[f]);
                if f < corner_faces(rings, c).len() {
                    assert(head[f] == corner_faces(rings, c)[f]);
                }
            } else {
                let g = f - head.len();
                assert(corner_faces(rings, count)[f] == ring_hexagons(c as usize, rings[c], 5)[g]);
            }
        }
    }
}

/// Every hexagon winds as its corner's ring does: a hexagon `(a, b, c)`
/// has `b` and `c` next to each other in `a`'s ring, in the ring's
/// counter-clockwise order, so each hexagon faces outwards as the ring does.
pub proof fn law_hexagons_follow_ring_order(rings: Seq<[usize; 5]>, count: int)
    requires
        0 <= count <= rings.len(),
        count <= usize::MAX,
    ensures
        forall|f: int|
            0 <= f < corner_faces(rings, count).len() ==> (#[trigger] corner_faces(rings, count)[f]
                matches Face::Hexagon(a, b, c) ==> a < count && exists|i: int|
                #![trigger rings[a as int]@[i]]
                0 <= i < 5 && b == rings[a as int]@[i] && c == rings[a as int]@[(i + 1) % 5]),
    decreases count,
{
    if count > 0 {
        let c = count - 1;
        law_hexagons_follow_ring_order(rings, c);
        lemma_ring_hexagons_lowest(c as usize, rings[c], 5);
        lemma_ring_hexagons_shape(c as usize, rings[c], 5);
        let head = corner_faces(rings, c).push(Face::Pentagon(c as usize));
        let tail = ring_hexagons(c as usize, rings[c], 5);
        assert forall|f: int| 0 <= f < corner_faces(rings, count).len() implies (
        #[trigger] corner_faces(rings, count)[f] matches Face::Hexagon(a, b, d) ==> a < count
            && exists|i: int|
            #![trigger rings[a as int]@[i]]
            0 <= i < 5 && b == rings[a as int]@[i] && d == rings[a as int]@[(i + 1) % 5]) by {
            if f < head.len() {
                assert(corner_faces(rings, count)[f] == head[f]);
                if f < corner_faces(rings, c).len() {
                    assert(head[f] == corner_faces(rings, c)[f]);
                    if let Face::Hexagon(a, b, d) = head[f] {
                        assert(a < c);
                        let i = choose|i: int|
                            #![trigger rings[a as int]@[i]]
                            0 <= i < 5 && b == rings[a as int]@[i] && d == rings[a as int]@[(i + 1)
                                % 5];
                        assert(rings[a as int]@[i] == b);
                    }
                }
            } else {
                let g = f - head.len();
                assert(corner_faces(rings, count)[f] == tail[g]);
                assert(tail[g] matches Face::Hexagon(a, _, _) && a == c as usize);
                let i = choose|i: int|
                    #![trigger rings[c]@[i]]
                    0 <= i < 5 && tail[g] == Face::Hexagon(
                        c as usize,
                        rings[c]@[i],
                        rings[c]@[(i + 1) % 5],
                    );
                assert(0 <= i < 5 && tail[g] == Face::Hexagon(
                    c as usize,
                    rings[c]@[i],
                    rings[c]@[(i + 1) % 5],
                ));
            }
        }
    }
}

proof fn lemma_ring_hexagons_lowest(index: usize, ring: [usize; 5], upto: int)
    ensures
        forall|f: int|
            0 <= f < ring_hexagons(index, ring, upto).len() ==> (
            #[trigger] ring_hexagons(index, ring, upto)[f] matches Face::Hexagon(a, b, c) ==> a
                == index && a <= b && a <= c),
    decreases upto,
{
    if upto > 0 {
        lemma_ring_hexagons_lowest(index, ring, upto - 1);
    }
}

/// The icosahedron corners a hexagon comes from; none for a pentagon.
pub open spec fn hexagon_corners(f: Face) -> Set<usize> {
    match f {
        Face::Hexagon(a, b, c) => set![a, b, c],
        Face::Pentagon(_) => Set::empty(),
    }
}

/// Each ring lists five different neighbours, none of them its own corner.
pub open spec fn rings_distinct(rings: Seq<[usize; 5]>) -> bool {
    &&& forall|c: int, i: int, j: int|
        0 <= c < rings.len() && 0 <= i < j < 5 ==> rings[c]@[i] != rings[c]@[j]
    &&& forall|c: int, i: int| 0 <= c < rings.len() && 0 <= i < 5 ==> rings[c]@[i] != c
}

proof fn lemma_ring_hexagons_shape(index: usize, ring: [usize; 5], upto: int)
    requires
        0 <= upto <= 5,
    ensures
        forall|k: int|
            #![trigger ring_hexagons(index, ring, upto)[k]]
            0 <= k < ring_hexagons(index, ring, upto).len() ==> exists|i: int|
                #![trigger ring@[i]]
                0 <= i < upto && ring_hexagons(index, ring, upto)[k] == Face::Hexagon(
                    index,
                    ring@[i],
                    ring@[(i + 1) % 5],
                ),
    decreases upto,
{
    if upto > 0 {
        lemma_ring_hexagons_shape(index, ring, upto - 1);
        let before = ring_hexagons(index, ring, upto - 1);
        assert forall|k: int|
            #![trigger ring_hexagons(index, ring, upto)[k]]
            0 <= k < ring_hexagons(index, ring, upto).len() implies exists|i: int|
                #![trigger ring@[i]]
                0 <= i < upto && ring_hexagons(index, ring, upto)[k] == Face::Hexagon(
                    index,
                    ring@[i],
                    ring@[(i + 1) % 5],
                ) by {
            if k < before.len() {
                let i = choose|i: int|
                    #![trigger ring@[i]]
                    0 <= i < upto - 1 && before[k] == Face::Hexagon(
                        index,
                        ring@[i],
                        ring@[(i + 1) % 5],
                    );
                assert(ring_hexagons(index, ring, upto)[k] == before[k]);
            } else {
                assert(ring_hexagons(index, ring, upto)[k] == Face::Hexagon(
                    index,
                    ring@[upto - 1],
                    ring@[(upto - 1 + 1) % 5],
                ));
            }
        }
    }
}

proof fn lemma_pairs_differ(index: usize, ring: [usize; 5], i: int, j: int)
    requires
        0 <= i < j < 5,
        forall|p: int, q: int| 0 <= p < q < 5 ==> ring@[p] != ring@[q],
        forall|p: int| 0 <= p < 5 ==> ring@[p] != index,
    ensures
        set![index, ring@[i], ring@[(i + 1) % 5]] != set![index, ring@[j], ring@[(j + 1) % 5]],
{
    let si = set![index, ring@[i], ring@[(i + 1) % 5]];
    let sj = set![index, ring@[j], ring@[(j + 1) % 5]];
    if si == sj {
        assert(sj.contains(ring@[i]));
        assert(si.contains(ring@[j]));
        assert(sj.contains(ring@[(i + 1) % 5]));
        assert(si.contains(ring@[(j + 1) % 5]));
        assert(false);
    }
}

proof fn lemma_ring_hexagons_once(index: usize, ring: [usize; 5], upto: int)
    requires
        0 <= upto <= 5,
        forall|p: int, q: int| 0 <= p < q < 5 ==> ring@[p] != ring@[q],
        forall|p: int| 0 <= p < 5 ==> ring@[p] != index,
    ensures
        forall|f: int, g: int|
            0 <= f < g < ring_hexagons(index, ring, upto).len() ==> hexagon_corners(
                #[trigger] ring_hexagons(index, ring, upto)[f],
            ) != hexagon_corners(#[trigger] ring_hexagons(index, ring, upto)[g]),
    decreases upto,
{
    if upto > 0 {
        lemma_ring_hexagons_once(index, ring, upto - 1);
        lemma_ring_hexagons_shape(index, ring, upto - 1);
        let before = ring_hexagons(index, ring, upto - 1);
        let all = ring_hexagons(index, ring, upto);
        assert forall|f: int, g: int| 0 <= f < g < all.len() implies hexagon_corners(
            #[trigger] all[f],
        ) != hexagon_corners(#[trigger] all[g]) by {
            if g < before.len() {
                assert(all[f] == before[f]);
                assert(all[g] == before[g]);
            } else {
                assert(all[f] == before[f]);
                let i = choose|i: int|
                    #![trigger ring@[i]]
                    0 <= i < upto - 1 && before[f] == Face::Hexagon(
                        index,
                        ring@[i],
                        ring@[(i + 1) % 5],
                    );
                lemma_pairs_differ(index, ring, i, upto - 1);
            }
        }
    }
}

/// The smallest corner of a hexagon emitted by `index` is `index`.
proof fn lemma_min_corner(a: usize, b: usize, c: usize, x: usize, y: usize, z: usize)
    requires
        a <= b && a <= c,
        x <= y && x <= z,
        a != x,
    ensures
        set![a, b, c] != set![x, y, z],
{
    if set![a, b, c] == set![x, y, z] {
        assert(set![x, y, z].contains(a));
        assert(set![a, b, c].contains(x));
        assert(false);
    }
}

proof fn lemma_corner_faces_first(rings: Seq<[usize; 5]>, count: int)
    requires
        0 <= count <= rings.len(),
        rings.len() <= usize::MAX,
    ensures
        forall|f: int|
            0 <= f < corner_faces(rings, count).len() ==> (#[trigger] corner_faces(rings, count)[f]
                matches Face::Hexagon(a, b, c) ==> a < count && a <= b && a <= c),
    decreases count,
{
    if count > 0 {
        let c = count - 1;
        lemma_corner_faces_first(rings, c);
        lemma_ring_hexagons_lowest(c as usize, rings[c], 5);
        let head = corner_faces(rings, c).push(Face::Pentagon(c as usize));
        assert forall|f: int| 0 <= f < corner_faces(rings, count).len() implies (
        #[trigger] corner_faces(rings, count)[f] matches Face::Hexagon(a, b, d) ==> a < count && a
            <= b && a <= d) by {
            if f < head.len() {
                if f < corner_faces(rings, c).len() {
                    assert(corner_faces(rings, count)[f] == corner_faces(rings, c)[f]);
                }
            } else {
                let g = f - head.len();
                assert(corner_faces(rings, count)[f] == ring_hexagons(c as usize, rings[c], 5)[g]);
            }
        }
    }
}

/// Each triangle of the icosahedron becomes one hexagon: no two hexagons
/// come from the same three corners, as long as each ring lists five
/// different neighbours.
pub proof fn law_hexagons_emitted_once(rings: Seq<[usize; 5]>, count: int)
    requires
        0 <= count <= rings.len(),
        rings.len() <= usize::MAX,
        rings_distinct(rings),
    ensures
        forall|f: int, g: int|
            0 <= f < g < corner_faces(rings, count).len() && #[trigger] corner_faces(
                rings,
                count,
            )[f] is Hexagon && #[trigger] corner_faces(rings, count)[g] is Hexagon
                ==> hexagon_corners(corner_faces(rings, count)[f]) != hexagon_corners(
                corner_faces(rings, count)[g],
            ),
    decreases count,
{
    if count > 0 {
        let c = count - 1;
        law_hexagons_emitted_once(rings, c);
        lemma_corner_faces_first(rings, c);
        let ring = rings[c];
        assert forall|p: int, q: int| 0 <= p < q < 5 implies ring@[p] != ring@[q] by {}
        assert forall|p: int| 0 <= p < 5 implies ring@[p] != c as usize by {}
        lemma_ring_hexagons_once(c as usize, ring, 5);
        lemma_ring_hexagons_lowest(c as usize, ring, 5);
        let prefix = corner_faces(rings, c);
        let head = prefix.push(Face::Pentagon(c as usize));
        let hexes = ring_hexagons(c as usize, ring, 5);
        let all = corner_faces(rings, count);
        assert(all == head + hexes);
        assert forall|f: int, g: int|
            0 <= f < g < all.len() && #[trigger] all[f] is Hexagon && #[trigger] all[g] is Hexagon
                implies hexagon_corners(all[f]) != hexagon_corners(all[g]) by {
            if g < prefix.len() {
                assert(all[f] == prefix[f]);
                assert(all[g] == prefix[g]);
            } else if g == prefix.len() {
                assert(all[g] == Face::Pentagon(c as usize));
            } else if f >= head.len() {
                assert(all[f] == hexes[f - head.len()]);
                assert(all[g] == hexes[g - head.len()]);
            } else if f == prefix.len() {
                assert(all[f] == Face::Pentagon(c as usize));
            } else {
                assert(all[f] == prefix[f]);
                assert(all[g] == hexes[g - head.len()]);
                if let Face::Hexagon(a, b, d) = all[f] {
                    if let Face::Hexagon(x, y, z) = all[g] {
                        lemma_min_corner(a, b, d, x, y, z);
                    }
                }
            }
        }
    }
}

} // verus!
