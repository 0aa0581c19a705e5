//! Axial coordinates of a hexagonal tile grid, ring sector by ring sector.
use vstd::prelude::*;

verus! {

/// A marker for the raycast layers of grid picking.
pub trait GridRayLayerT {}

/// The raycast layer on which grid tiles are hittable.
pub struct GridRayLayer;

impl GridRayLayerT for GridRayLayer {}

/// The player, standing on the tile at axial coordinates `(q, r)`.
#[derive(Clone, Copy, Debug, PartialEq, Eq, Structural)]
pub struct Player {
    pub q: i32,
    pub r: i32,
}

/// The six axial neighbour directions, counter-clockwise from `+x`.
pub open spec fn grid_dir(d: int) -> (int, int) {
    if d == 0 {
        (1, 0)
    } else if d == 1 {
        (0, 1)
    } else if d == 2 {
        (-1, 1)
    } else if d == 3 {
        (-1, 0)
    } else if d == 4 {
        (0, -1)
    } else {
        (1, -1)
    }
}

/// Tile `j` (from 1) of ring `i` in sector `d`: `i·dir(d) + (i + j)·dir(d + 2)`.
pub open spec fn tile_coord(d: int, i: int, j: int) -> (int, int) {
    let g = grid_dir(d);
    let o = grid_dir((d + 2) % 6);
    (i * g.0 + (i + j) * o.0, i * g.1 + (i + j) * o.1)
}

/// Ring `i` of sector `d`: its tiles `j = 1..=i`.
pub open spec fn ring_row(d: int, i: int) -> Seq<(int, int)> {
    Seq::new(i as nat, |jj: int| tile_coord(d, i, jj + 1))
}

/// Rings `1..n` of sector `d`, innermost first.
pub open spec fn sector_rows(d: int, n: int) -> Seq<(int, int)>
    decreases n,
{
    if n <= 1 {
        seq![]
    } else {
        sector_rows(d, n - 1) + ring_row(d, n - 1)
    }
}

/// Sectors `0..k` of a grid of radius `radius`.
pub open spec fn sectors(radius: int, k: int) -> Seq<(int, int)>
    decreases k,
{
    if k <= 0 {
        seq![]
    } else {
        sectors(radius, k - 1) + sector_rows(k - 1, radius)
    }
}

/// The origin, then the six sectors of rings `1..radius`.
pub open spec fn grid_coords_of(radius: int) -> Seq<(int, int)> {
    seq![(0int, 0int)] + sectors(radius, 6)
}

pub open spec fn coords_view(r: Seq<(i32, i32)>) -> Seq<(int, int)> {
    r.map_values(|p: (i32, i32)| (p.0 as int, p.1 as int))
}

fn dir_at(d: usize) -> (r: (i32, i32))
    requires
        d < 6,
    ensures
        r.0 as int == grid_dir(d as int).0,
        r.1 as int == grid_dir(d as int).1,
{
    if d == 0 {
        (1, 0)
    } else if d == 1 {
        (0, 1)
    } else if d == 2 {
        (-1, 1)
    } else if d == 3 {
        (-1, 0)
    } else if d == 4 {
        (0, -1)
    } else {
        (1, -1)
    }
}

/// `k·g` for a unit step `g`.
fn times_unit(k: i32, g: i32) -> (r: i32)
    requires
        -1 <= g <= 1,
        -0x4000_0000 <= k <= 0x4000_0000,
    ensures
        r == k * g,
        r == k || r == -k || r == 0,
{
    if g == 0 {
        assert(k * g == 0) by (nonlinear_arith)
            requires
                g == 0,
        ;
        0
    } else if g == 1 {
        assert(k * g == k) by (nonlinear_arith)
            requires
                g == 1,
        ;
        k
    } else {
        assert(k * g == -k) by (nonlinear_arith)
            requires
                g == -1,
        ;
        -k
    }
}

/// The axial coordinates of every tile of a hexagonal grid of radius
/// `display_radius`: the origin, then for each of the six sectors the rings
/// `1..display_radius`, innermost first.
pub fn grid_coords(display_radius: u32) -> (r: Vec<(i32, i32)>)
    requires
        display_radius <= 0x1000_0000,
    ensures
        coords_view(r@) == grid_coords_of(display_radius as int),
{
    let ghost rad = display_radius as int;
    let mut r: Vec<(i32, i32)> = Vec::new();
    r.push((0, 0));
    assert(coords_view(r@) =~= seq![(0int, 0int)] + sectors(rad, 0));
    let mut d: usize = 0;
    while d < 6
        invariant
            d <= 6,
            rad == display_radius,
            display_radius <= 0x1000_0000,
            coords_view(r@) == seq![(0int, 0int)] + sectors(rad, d as int),
        decreases 6 - d,
    {
        let ghost base = coords_view(r@);
        let g = dir_at(d);
        let o = dir_at((d + 2) % 6);
        assert(base =~= base + sector_rows(d as int, 1));
        let mut i: u32 = 1;
        while i < display_radius
            invariant
                1 <= i,
                i <= display_radius || i == 1,
                rad == display_radius,
                display_radius <= 0x1000_0000,
                d < 6,
                g.0 as int == grid_dir(d as int).0,
                g.1 as int == grid_dir(d as int).1,
                o.0 as int == grid_dir((d as int + 2) % 6).0,
                o.1 as int == grid_dir((d as int + 2) % 6).1,
                coords_view(r@) == base + sector_rows(d as int, i as int),
            decreases display_radius - i,
        {
            let ghost row_base = coords_view(r@);
            let mut j: u32 = 1;
            while j <= i
                invariant
                    1 <= j <= i + 1,
                    i < display_radius,
                    display_radius <= 0x1000_0000,
                    d < 6,
                    g.0 as int == grid_dir(d as int).0,
                    g.1 as int == grid_dir(d as int).1,
                    o.0 as int == grid_dir((d as int + 2) % 6).0,
                    o.1 as int == grid_dir((d as int + 2) % 6).1,
                    coords_view(r@) == row_base + ring_row(d as int, i as int).take(j - 1),
                decreases i + 1 - j,
            {
                let x = times_unit(i as i32, g.0) + times_unit((i + j) as i32, o.0);
                let y = times_unit(i as i32, g.1) + times_unit((i + j) as i32, o.1);
                let ghost prev = r@;
                r.push((x, y));
                proof {
                    assert(coords_view(r@) =~= coords_view(prev).push((x as int, y as int)));
                    assert(ring_row(d as int, i as int).take(j as int) =~= ring_row(d as int, i as int).take(
                        j - 1,
                    ).push(tile_coord(d as int, i as int, j as int)));
                    assert(coords_view(r@) =~= row_base + ring_row(d as int, i as int).take(j as int));
                }
                j = j + 1;
            }
            proof {
                assert(ring_row(d as int, i as int).take(i as int) =~= ring_row(d as int, i as int));
                assert(sector_rows(d as int, i + 1) == sector_rows(d as int, i as int) + ring_row(d as int, i as int));
                assert(coords_view(r@) =~= base + sector_rows(d as int, i + 1));
            }
            i = i + 1;
        }
        proof {
            if display_radius <= 1 {
                assert(sector_rows(d as int, rad) =~= Seq::<(int, int)>::empty());
                assert(sector_rows(d as int, 1) =~= Seq::<(int, int)>::empty());
            }
            assert(coords_view(r@) == base + sector_rows(d as int, rad));
            assert(sectors(rad, d + 1) == sectors(rad, d as int) + sector_rows(d as int, rad));
            assert(coords_view(r@) =~= seq![(0int, 0int)] + sectors(rad, d + 1));
        }
        d = d + 1;
    }
    r
}

} // verus!
