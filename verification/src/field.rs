//! Grid plumbing for the vector-field samplers: flattening a three-level
//! nested grid into one contiguous sequence — plane by plane, row by row
//! — and the clamped row-major index a sampler uses to read one cell
//! back out. The samples themselves are floating-point vectors and live
//! with the samplers; what stands here is the indexing logic, over any
//! element type.

use vstd::prelude::*;

verus! {

/// One plane's rows laid end to end.
pub open spec fn flat_rows<T>(rows: Seq<Vec<T>>) -> Seq<T>
    decreases rows.len(),
{
    if rows.len() == 0 {
        Seq::empty()
    } else {
        flat_rows(rows.drop_last()) + rows.last()@
    }
}

/// A grid's planes laid end to end, each plane flattened row by row.
pub open spec fn flat_planes<T>(planes: Seq<Vec<Vec<T>>>) -> Seq<T>
    decreases planes.len(),
{
    if planes.len() == 0 {
        Seq::empty()
    } else {
        flat_planes(planes.drop_last()) + flat_rows(planes.last()@)
    }
}

/// Flattens a nested plane/row/cell grid into one contiguous vector, in
/// plane-major, then row-major order — exactly `flat_planes` of the
/// grid.
pub fn flatten_field<T: Copy>(grid: &Vec<Vec<Vec<T>>>) -> (out: Vec<T>)
    ensures
        out@ == flat_planes(grid@),
{
    let mut out: Vec<T> = Vec::new();
    let mut p: usize = 0;
    while p < grid.len()
        invariant
            p <= grid@.len(),
            out@ == flat_planes(grid@.subrange(0, p as int)),
        decreases grid@.len() - p,
    {
        let plane = &grid[p];
        let mut r: usize = 0;
        while r < plane.len()
            invariant
                p < grid@.len(),
                r <= plane@.len(),
                plane@ == grid@[p as int]@,
                out@ == flat_planes(grid@.subrange(0, p as int)) + flat_rows(
                    plane@.subrange(0, r as int),
                ),
            decreases plane@.len() - r,
        {
            let row = &plane[r];
            let mut e: usize = 0;
            while e < row.len()
                invariant
                    p < grid@.len(),
                    r < plane@.len(),
                    e <= row@.len(),
                    plane@ == grid@[p as int]@,
                    row@ == plane@[r as int]@,
                    out@ == flat_planes(grid@.subrange(0, p as int)) + flat_rows(
                        plane@.subrange(0, r as int),
                    ) + row@.subrange(0, e as int),
                decreases row@.len() - e,
            {
                out.push(row[e]);
                proof {
                    assert(row@.subrange(0, e + 1) =~= row@.subrange(0, e as int).push(
                        row@[e as int],
                    ));
                    assert(out@ =~= flat_planes(grid@.subrange(0, p as int)) + flat_rows(
                        plane@.subrange(0, r as int),
                    ) + row@.subrange(0, e + 1));
                }
                e = e + 1;
            }
            proof {
                assert(row@.subrange(0, row@.len() as int) =~= row@);
                let rows1 = plane@.subrange(0, r + 1);
                assert(rows1.drop_last() =~= plane@.subrange(0, r as int));
                assert(rows1.last() == plane@[r as int]);
                assert(out@ =~= flat_planes(grid@.subrange(0, p as int)) + flat_rows(rows1));
            }
            r = r + 1;
        }
        proof {
            assert(plane@.subrange(0, plane@.len() as int) =~= plane@);
            let planes1 = grid@.subrange(0, p + 1);
            assert(planes1.drop_last() =~= grid@.subrange(0, p as int));
            assert(planes1.last() == grid@[p as int]);
            assert(out@ =~= flat_planes(planes1));
        }
        p = p + 1;
    }
    proof {
        assert(grid@.subrange(0, grid@.len() as int) =~= grid@);
    }
    out
}

/// Every row holds exactly `d` cells.
pub open spec fn rows_regular<T>(rows: Seq<Vec<T>>, d: int) -> bool {
    forall|i: int| 0 <= i < rows.len() ==> (#[trigger] rows[i])@.len() == d
}

/// Every plane holds exactly `h` rows of exactly `d` cells.
pub open spec fn grid_regular<T>(planes: Seq<Vec<Vec<T>>>, h: int, d: int) -> bool {
    forall|i: int|
        0 <= i < planes.len() ==> (#[trigger] planes[i])@.len() == h && rows_regular(
            planes[i]@,
            d,
        )
}

pub proof fn lemma_flat_rows_len<T>(rows: Seq<Vec<T>>, d: int)
    requires
        rows_regular(rows, d),
        d >= 0,
    ensures
        flat_rows(rows).len() == rows.len() * d,
    decreases rows.len(),
{
    if rows.len() == 0 {
    } else {
        let n = rows.len() as int;
        lemma_flat_rows_len(rows.drop_last(), d);
        assert((n - 1) * d + d == n * d) by (nonlinear_arith);
    }
}

pub proof fn lemma_flat_rows_at<T>(rows: Seq<Vec<T>>, d: int, y: int, z: int)
    requires
        rows_regular(rows, d),
        0 <= y < rows.len(),
        0 <= z < d,
    ensures
        0 <= y * d + z < flat_rows(rows).len(),
        flat_rows(rows)[y * d + z] == rows[y]@[z],
    decreases rows.len(),
{
    let n = rows.len() as int;
    lemma_flat_rows_len(rows, d);
    assert(y * d + z < n * d) by (nonlinear_arith)
        requires
            y < n,
            z < d,
            0 <= y,
            0 <= z,
            d >= 1,
    ;
    assert(0 <= y * d) by (nonlinear_arith)
        requires
            0 <= y,
            0 <= z < d,
    ;
    lemma_flat_rows_len(rows.drop_last(), d);
    if y < n - 1 {
        assert(y * d + z < (n - 1) * d) by (nonlinear_arith)
            requires
                y < n - 1,
                z < d,
                0 <= y,
                0 <= z,
        ;
        lemma_flat_rows_at(rows.drop_last(), d, y, z);
    } else {
        assert(y * d + z - (n - 1) * d == z) by (nonlinear_arith)
            requires
                y == n - 1,
        ;
    }
}

pub proof fn lemma_flat_planes_len<T>(planes: Seq<Vec<Vec<T>>>, h: int, d: int)
    requires
        grid_regular(planes, h, d),
        h >= 0,
        d >= 0,
    ensures
        flat_planes(planes).len() == planes.len() * (h * d),
    decreases planes.len(),
{
    if planes.len() == 0 {
    } else {
        let n = planes.len() as int;
        lemma_flat_planes_len(planes.drop_last(), h, d);
        lemma_flat_rows_len(planes.last()@, d);
        assert((n - 1) * (h * d) + h * d == n * (h * d)) by (nonlinear_arith);
    }
}

/// Flattening and indexing agree: in a regular grid of `h` rows of `d`
/// cells per plane, the flattened sequence holds cell (x, y, z) at
/// exactly `(x * h + y) * d + z` — the position `field_index` computes
/// for in-range coordinates.
pub proof fn lemma_flatten_index_agree<T>(
    planes: Seq<Vec<Vec<T>>>,
    h: int,
    d: int,
    x: int,
    y: int,
    z: int,
)
    requires
        grid_regular(planes, h, d),
        0 <= x < planes.len(),
        0 <= y < h,
        0 <= z < d,
    ensures
        0 <= (x * h + y) * d + z < flat_planes(planes).len(),
        flat_planes(planes)[(x * h + y) * d + z] == planes[x]@[y]@[z],
    decreases planes.len(),
{
    let n = planes.len() as int;
    let i = (x * h + y) * d + z;
    lemma_flat_planes_len(planes, h, d);
    assert(0 <= i < n * (h * d)) by (nonlinear_arith)
        requires
            i == (x * h + y) * d + z,
            0 <= x < n,
            0 <= y < h,
            0 <= z < d,
    ;
    lemma_flat_planes_len(planes.drop_last(), h, d);
    if x < n - 1 {
        assert(i < (n - 1) * (h * d)) by (nonlinear_arith)
            requires
                i == (x * h + y) * d + z,
                0 <= x < n - 1,
                0 <= y < h,
                0 <= z < d,
        ;
        lemma_flatten_index_agree(planes.drop_last(), h, d, x, y, z);
    } else {
        assert(i - (n - 1) * (h * d) == y * d + z) by (nonlinear_arith)
            requires
                i == (x * h + y) * d + z,
                x == n - 1,
        ;
        lemma_flat_rows_at(planes.last()@, d, y, z);
    }
}

/// A coordinate clamped into `0..bound`.
fn clamp_below(v: usize, bound: usize) -> (r: usize)
    requires
        bound >= 1,
    ensures
        r == if v < bound {
            v as int
        } else {
            (bound - 1) as int
        },
        r < bound,
{
    if v < bound {
        v
    } else {
        bound - 1
    }
}

/// The contiguous index of cell (x, y, z) of a flattened grid of
/// `width` planes, `height` rows per plane and `depth` cells per row,
/// with each coordinate clamped into range first: the sampler's way of
/// reading off the edge reads the nearest cell instead.
pub fn field_index(
    fx: usize,
    fy: usize,
    fz: usize,
    width: usize,
    height: usize,
    depth: usize,
) -> (i: usize)
    requires
        width >= 1,
        height >= 1,
        depth >= 1,
        width * height * depth <= usize::MAX,
    ensures
        ({
            let cx = if fx < width {
                fx as int
            } else {
                width - 1
            };
            let cy = if fy < height {
                fy as int
            } else {
                height - 1
            };
            let cz = if fz < depth {
                fz as int
            } else {
                depth - 1
            };
            i == (cx * height + cy) * depth + cz
        }),
        i < width * height * depth,
{
    let cx = clamp_below(fx, width);
    let cy = clamp_below(fy, height);
    let cz = clamp_below(fz, depth);
    proof {
        assert(cx * height + cy < width * height) by (nonlinear_arith)
            requires
                cx < width,
                cy < height,
                height >= 1,
        ;
        assert(width * height <= width * height * depth) by (nonlinear_arith)
            requires
                width >= 1,
                height >= 1,
                depth >= 1,
        ;
        assert((cx * height + cy) * depth + cz < width * height * depth) by (nonlinear_arith)
            requires
                cx * height + cy < width * height,
                cz < depth,
                depth >= 1,
        ;
    }
    (cx * height + cy) * depth + cz
}

} // verus!
