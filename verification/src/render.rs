//! The 64x32 monochrome display.
//!
//! Cells are stored x-major: the cell at column `x`, row `y` lives at index
//! `x * 32 + y`. Writes toggle (XOR) rather than set, and coordinates wrap
//! around both axes, so no access can ever be out of range.

use vstd::prelude::*;

verus! {

/// The linear index of the cell at column `x`, row `y`, with both
/// coordinates wrapped onto the grid.
pub open spec fn cell_index(x: int, y: int) -> int {
    (x % 64) * 32 + (y % 32)
}

/// The display state with every cell off.
pub open spec fn all_off() -> Seq<bool> {
    Seq::new(2048, |j: int| false)
}

/// The display state `fb` with the cell at (`x`, `y`) flipped.
pub open spec fn toggled(fb: Seq<bool>, x: int, y: int) -> Seq<bool> {
    fb.update(cell_index(x, y), !fb[cell_index(x, y)])
}

/// What a snapshot of the display state `fb` must list: exactly the cells
/// that are on, each once, in increasing cell-index order.
pub open spec fn snapshot_matches(fb: Seq<bool>, snap: Seq<(u8, u8)>) -> bool {
    &&& forall|i: int, j: int|
        0 <= i < j < snap.len() ==> (#[trigger] snap[i]).0 * 32 + snap[i].1 < (
        #[trigger] snap[j]).0 * 32 + snap[j].1
    &&& forall|i: int| 0 <= i < snap.len() ==> (#[trigger] snap[i]).0 < 64 && snap[i].1 < 32
    &&& forall|x: u8, y: u8|
        x < 64 && y < 32 ==> (#[trigger] snap.contains((x, y)) <==> fb[x * 32 + y])
}

/// The framebuffer: a 64x32 grid of cells that are either on or off.
pub struct Render {
    cells: Vec<bool>,
}

impl View for Render {
    type V = Seq<bool>;

    closed spec fn view(&self) -> Seq<bool> {
        self.cells@
    }
}

impl Render {
    /// The grid always holds exactly 64 * 32 cells.
    pub open spec fn wf(&self) -> bool {
        self@.len() == 2048
    }

    /// A display with every cell off.
    pub fn new() -> (r: Render)
        ensures
            r.wf(),
            r@ == all_off(),
    {
        let mut cells: Vec<bool> = Vec::new();
        let mut j: usize = 0;
        while j < 2048
            invariant
                j <= 2048,
                cells@.len() == j,
                forall|k: int| 0 <= k < j ==> !cells@[k],
            decreases 2048 - j,
        {
            cells.push(false);
            j += 1;
        }
        proof {
            assert(cells@ =~= all_off());
        }
        Render { cells }
    }

    /// Flip the cell at (`x`, `y`), wrapping both coordinates onto the
    /// grid; the result reports whether the cell was on before the flip,
    /// that is, whether the write turned a lit cell off.
    pub fn change_pixel(&mut self, x: usize, y: usize) -> (was_on: bool)
        requires
            old(self).wf(),
        ensures
            final(self).wf(),
            final(self)@ == toggled(old(self)@, x as int, y as int),
            was_on == old(self)@[cell_index(x as int, y as int)],
    {
        let xi = x % 64;
        let yi = y % 32;
        let idx = xi * 32 + yi;
        let cur = self.cells[idx];
        self.cells.set(idx, !cur);
        cur
    }

    /// Turn every cell off.
    pub fn clear_render(&mut self)
        ensures
            final(self).wf(),
            final(self)@ == all_off(),
    {
        *self = Render::new();
    }

    /// Whether the cell at (`x`, `y`) is on, wrapping both coordinates.
    pub fn is_on(&self, x: usize, y: usize) -> (on: bool)
        requires
            self.wf(),
        ensures
            on == self@[cell_index(x as int, y as int)],
    {
        self.cells[(x % 64) * 32 + (y % 32)]
    }

    /// List the cells that are on, each once, in cell-index order, for
    /// presentation; the list is rebuilt from the grid on every call.
    pub fn snapshot(&self) -> (snap: Vec<(u8, u8)>)
        requires
            self.wf(),
        ensures
            snapshot_matches(self@, snap@),
    {
        let mut snap: Vec<(u8, u8)> = Vec::new();
        let mut x: u8 = 0;
        while x < 64
            invariant
                self.wf(),
                x <= 64,
                forall|i: int, j: int|
                    0 <= i < j < snap@.len() ==> (#[trigger] snap@[i]).0 * 32 + snap@[i].1 < (
                    #[trigger] snap@[j]).0 * 32 + snap@[j].1,
                forall|i: int|
                    0 <= i < snap@.len() ==> (#[trigger] snap@[i]).0 < x && snap@[i].0 < 64
                        && snap@[i].1 < 32,
                forall|a: u8, b: u8|
                    a < x && b < 32 ==> (#[trigger] snap@.contains((a, b)) <==> self@[a * 32 + b]),
            decreases 64 - x,
        {
            let mut y: u8 = 0;
            while y < 32
                invariant
                    self.wf(),
                    x < 64,
                    y <= 32,
                    forall|i: int, j: int|
                        0 <= i < j < snap@.len() ==> (#[trigger] snap@[i]).0 * 32 + snap@[i].1 < (
                        #[trigger] snap@[j]).0 * 32 + snap@[j].1,
                    forall|i: int|
                        0 <= i < snap@.len() ==> ((#[trigger] snap@[i]).0 < x || (snap@[i].0 == x
                            && snap@[i].1 < y)) && snap@[i].0 < 64 && snap@[i].1 < 32,
                    forall|a: u8, b: u8|
                        a < 64 && b < 32 && (a < x || (a == x && b < y)) ==> (
                        #[trigger] snap@.contains((a, b)) <==> self@[a * 32 + b]),
                decreases 32 - y,
            {
                if self.cells[(x as usize) * 32 + (y as usize)] {
                    let ghost pre = snap@;
                    snap.push((x, y));
                    proof {
                        assert forall|a: u8, b: u8|
                            a < 64 && b < 32 && (a < x || (a == x && b < y + 1)) implies (
                        #[trigger] snap@.contains((a, b)) <==> self@[a * 32 + b]) by {
                            assert(snap@[snap@.len() - 1] == (x, y));
                            if a == x && b == y {
                                assert(snap@.contains((a, b)));
                            } else {
                                assert(pre.contains((a, b)) <==> self@[a * 32 + b]);
                                if pre.contains((a, b)) {
                                    let i = choose|i: int|
                                        0 <= i < pre.len() && pre[i] == (a, b);
                                    assert(snap@[i] == (a, b));
                                    assert(snap@.contains((a, b)));
                                }
                                if snap@.contains((a, b)) {
                                    let i = choose|i: int|
                                        0 <= i < snap@.len() && snap@[i] == (a, b);
                                    assert(i < snap@.len() - 1);
                                    assert(pre[i] == (a, b));
                                    assert(pre.contains((a, b)));
                                }
                            }
                        }
                    }
                } else {
                    proof {
                        assert forall|a: u8, b: u8|
                            a < 64 && b < 32 && (a < x || (a == x && b < y + 1)) implies (
                        #[trigger] snap@.contains((a, b)) <==> self@[a * 32 + b]) by {
                            if a == x && b == y {
                                if snap@.contains((a, b)) {
                                    let i = choose|i: int|
                                        0 <= i < snap@.len() && snap@[i] == (a, b);
                                }
                            }
                        }
                    }
                }
                y += 1;
            }
            x += 1;
        }
        snap
    }
}

/// Flipping the same cell twice restores the display to its original state.
pub proof fn lemma_toggle_involution(fb: Seq<bool>, x: int, y: int)
    requires
        fb.len() == 2048,
    ensures
        toggled(toggled(fb, x, y), x, y) == fb,
{
    assert(0 <= cell_index(x, y) < 2048);
    assert(toggled(toggled(fb, x, y), x, y) =~= fb);
}

/// A snapshot taken after a clear lists no cells at all, whatever the
/// display held before.
pub proof fn lemma_snapshot_of_cleared_is_empty(snap: Seq<(u8, u8)>)
    requires
        snapshot_matches(all_off(), snap),
    ensures
        snap.len() == 0,
{
    if snap.len() > 0 {
        let p = snap[0];
        assert(snap.contains(p));
        assert(p.0 < 64 && p.1 < 32);
        assert(snap.contains((p.0, p.1)));
        assert(all_off()[p.0 * 32 + p.1]);
        assert(false);
    }
}

} // verus!
