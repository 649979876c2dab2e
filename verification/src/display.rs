use vstd::prelude::*;

verus! {

/// The monochrome framebuffer: a 64 x 32 grid of 1-bit pixels, stored row
/// by row (pixel (x, y) lives at index y * 64 + x), toggled by XOR-style
/// sprite blitting. Turning an already-lit pixel off is a collision.
pub struct Display {
    pub grid: Vec<bool>,
}

/// Whether column `j` (0 = leftmost) of a sprite row byte is set; sprite
/// rows are eight pixels wide, most significant bit first.
pub open spec fn sprite_bit(b: u8, j: int) -> bool {
    (b >> ((7 - j) as u8)) & 1 == 1
}

/// The grid after blitting the leftmost `j` columns of sprite row byte `b`
/// at origin column `x0` into row `y`: each set sprite bit toggles its
/// pixel; columns past the right edge are clipped, and a row below the
/// bottom edge is skipped entirely.
pub open spec fn row_applied_upto(g: Seq<bool>, b: u8, x0: int, y: int, j: int) -> Seq<bool> {
    Seq::new(
        g.len(),
        |k: int|
            if 0 <= y < 32 && k / 64 == y && x0 <= k % 64 && k % 64 < x0 + j
                && sprite_bit(b, k % 64 - x0) {
                !g[k]
            } else {
                g[k]
            },
    )
}

/// The grid after blitting one whole sprite row.
pub open spec fn row_applied(g: Seq<bool>, b: u8, x0: int, y: int) -> Seq<bool> {
    row_applied_upto(g, b, x0, y, 8)
}

/// Whether blitting the leftmost `j` columns of sprite row byte `b` at
/// (`x0`, `y`) turns some already-lit pixel off.
pub open spec fn row_collides_upto(g: Seq<bool>, b: u8, x0: int, y: int, j: int) -> bool {
    0 <= y < 32 && exists|jj: int|
        0 <= jj < j && x0 + jj < 64 && sprite_bit(b, jj) && g[y * 64 + x0 + jj]
}

/// Whether blitting one whole sprite row collides.
pub open spec fn row_collides(g: Seq<bool>, b: u8, x0: int, y: int) -> bool {
    row_collides_upto(g, b, x0, y, 8)
}

/// Law: three consecutive "on" requests at one pixel that starts dark
/// report collisions false, then true, then false. The first request
/// lights the pixel without a collision, the second turns it off again and
/// collides, and the third lights it anew without one, leaving the grid as
/// it stood after the first. (A request's collision report is the pixel's
/// state just before it, and an "on" request toggles that state; see
/// `Display::draw_point`.)
pub proof fn lemma_draw_on_collision_cycle(g: Seq<bool>, x: int, y: int)
    requires
        g.len() == 64 * 32,
        0 <= x < 64,
        0 <= y < 32,
        !g[y * 64 + x],
    ensures
        ({
            let p = y * 64 + x;
            let g1 = g.update(p, !g[p]);
            let g2 = g1.update(p, !g1[p]);
            &&& !g[p]
            &&& g1[p]
            &&& !g2[p]
            &&& g2 =~= g
        }),
{
}

impl Display {
    pub open spec fn wf(self) -> bool {
        self.grid@.len() == 64 * 32
    }

    pub fn new() -> (r: Display)
        ensures
            r.wf(),
            forall|k: int| 0 <= k < 64 * 32 ==> !r.grid@[k],
    {
        Display { grid: vec![false; 64 * 32] }
    }

    /// Every pixel goes off.
    pub fn clear(&mut self)
        requires
            old(self).wf(),
        ensures
            final(self).wf(),
            forall|k: int| 0 <= k < 64 * 32 ==> !final(self).grid@[k],
    {
        let mut k: usize = 0;
        while k < 64 * 32
            invariant
                self.wf(),
                k <= 64 * 32,
                forall|i: int| 0 <= i < k ==> !self.grid@[i],
            decreases 64 * 32 - k,
        {
            self.grid.set(k, false);
            k = k + 1;
        }
    }

    /// XOR-style pixel write. An "on" request toggles the pixel and reports
    /// a collision exactly when the pixel was already lit; an "off" request
    /// changes nothing and never collides.
    pub fn draw_point(&mut self, point: (u8, u8), status: bool) -> (collided: bool)
        requires
            old(self).wf(),
            point.0 < 64,
            point.1 < 32,
        ensures
            final(self).wf(),
            status ==> {
                &&& collided == old(self).grid@[point.1 as int * 64 + point.0 as int]
                &&& final(self).grid@ == old(self).grid@.update(
                    point.1 as int * 64 + point.0 as int,
                    !old(self).grid@[point.1 as int * 64 + point.0 as int],
                )
            },
            !status ==> {
                &&& !collided
                &&& final(self).grid@ == old(self).grid@
            },
    {
        if status {
            let idx: usize = (point.1 as usize) * 64 + (point.0 as usize);
            let was_on = self.grid[idx];
            self.grid.set(idx, !was_on);
            was_on
        } else {
            false
        }
    }

    /// Blit one eight-pixel sprite row at origin column `x0` into row `y`,
    /// clipping at the right and bottom edges.
    pub fn draw_row(&mut self, b: u8, x0: u8, y: u8) -> (collided: bool)
        requires
            old(self).wf(),
            x0 < 64,
        ensures
            final(self).wf(),
            final(self).grid@ == row_applied(old(self).grid@, b, x0 as int, y as int),
            collided == row_collides(old(self).grid@, b, x0 as int, y as int),
    {
        let ghost g0 = self.grid@;
        if y >= 32 {
            proof {
                assert(row_applied(g0, b, x0 as int, y as int) =~= g0);
            }
            return false;
        }
        let mut conflict = false;
        let mut j: u8 = 0;
        while j < 8
            invariant
                self.wf(),
                x0 < 64,
                y < 32,
                j <= 8,
                g0.len() == 64 * 32,
                self.grid@ == row_applied_upto(g0, b, x0 as int, y as int, j as int),
                conflict == row_collides_upto(g0, b, x0 as int, y as int, j as int),
            decreases 8 - j,
        {
            let sh: u8 = 7 - j;
            let bit = ((b >> sh) & 1) == 1;
            let px: u8 = x0 + j;
            let ghost prev = self.grid@;
            if px < 64 {
                let c = self.draw_point((px, y), bit);
                proof {
                    let idx = y as int * 64 + px as int;
                    assert(prev[idx] == g0[idx]);
                    assert(self.grid@ =~= row_applied_upto(
                        g0, b, x0 as int, y as int, j as int + 1));
                    if c {
                        assert(sprite_bit(b, j as int) && g0[idx]);
                        assert(row_collides_upto(g0, b, x0 as int, y as int, j as int + 1));
                    } else {
                        assert(!(sprite_bit(b, j as int) && g0[idx]));
                        assert(forall|jj: int| 0 <= jj < j as int + 1 && x0 as int + jj < 64
                            && sprite_bit(b, jj) && g0[y as int * 64 + x0 as int + jj]
                            ==> jj < j as int);
                    }
                }
                conflict = conflict || c;
            } else {
                proof {
                    assert(self.grid@ =~= row_applied_upto(
                        g0, b, x0 as int, y as int, j as int + 1));
                    assert(forall|jj: int| 0 <= jj < j as int + 1 && x0 as int + jj < 64
                        && sprite_bit(b, jj) && g0[y as int * 64 + x0 as int + jj]
                        ==> jj < j as int);
                }
            }
            j = j + 1;
        }
        conflict
    }

    /// Whether the pixel at (x, y) is lit.
    pub fn is_on(&self, x: u8, y: u8) -> (r: bool)
        requires
            self.wf(),
            x < 64,
            y < 32,
        ensures
            r == self.grid@[y as int * 64 + x as int],
    {
        self.grid[(y as usize) * 64 + (x as usize)]
    }
}

} // verus!
