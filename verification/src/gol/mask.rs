use vstd::prelude::*;

use crate::grid::board::{col_major_lt, lemma_push_contains, sorted_col_major};
use crate::grid::types::GridCoord;

verus! {

/// Number of `false` entries of a row.
pub open spec fn falses(s: Seq<bool>) -> nat
    decreases s.len(),
{
    if s.len() == 0 {
        0
    } else {
        falses(s.drop_last()) + if s.last() {
            0nat
        } else {
            1nat
        }
    }
}

/// Number of `false` entries of a table.
pub open spec fn falses2(m: Seq<Seq<bool>>) -> nat
    decreases m.len(),
{
    if m.len() == 0 {
        0
    } else {
        falses2(m.drop_last()) + falses(m.last())
    }
}

pub proof fn lemma_falses_set(s: Seq<bool>, i: int)
    requires
        0 <= i < s.len(),
        !s[i],
    ensures
        falses(s.update(i, true)) + 1 == falses(s),
    decreases s.len(),
{
    let t = s.update(i, true);
    if i == s.len() - 1 {
        assert(t.drop_last() =~= s.drop_last());
    } else {
        assert(t.drop_last() =~= s.drop_last().update(i, true));
        lemma_falses_set(s.drop_last(), i);
    }
}

pub proof fn lemma_falses2_set(m: Seq<Seq<bool>>, x: int, y: int)
    requires
        0 <= x < m.len(),
        0 <= y < m[x].len(),
        !m[x][y],
    ensures
        falses2(m.update(x, m[x].update(y, true))) + 1 == falses2(m),
    decreases m.len(),
{
    let t = m.update(x, m[x].update(y, true));
    lemma_falses_set(m[x], y);
    if x == m.len() - 1 {
        assert(t.drop_last() =~= m.drop_last());
    } else {
        assert(t.drop_last() =~= m.drop_last().update(x, m[x].update(y, true)));
        lemma_falses2_set(m.drop_last(), x, y);
    }
}

/// A width-by-height table of flags, `bits[x][y]`.
pub struct Mask {
    pub width: usize,
    pub height: usize,
    pub bits: Vec<Vec<bool>>,
}

impl Mask {
    pub open spec fn view_bits(&self) -> Seq<Seq<bool>> {
        self.bits@.map_values(|col: Vec<bool>| col@)
    }

    pub open spec fn wf(&self) -> bool {
        &&& self.bits@.len() == self.width
        &&& forall|x: int| 0 <= x < self.width ==> #[trigger] self.bits@[x]@.len() == self.height
    }

    pub open spec fn has(&self, x: int, y: int) -> bool {
        0 <= x < self.width && 0 <= y < self.height && self.bits@[x]@[y]
    }

    pub open spec fn unmarked(&self) -> nat {
        falses2(self.view_bits())
    }

    pub fn new(width: usize, height: usize) -> (m: Mask)
        ensures
            m.wf(),
            m.width == width,
            m.height == height,
            forall|x: int, y: int| !#[trigger] m.has(x, y),
    {
        let mut bits: Vec<Vec<bool>> = Vec::with_capacity(width);
        let mut x: usize = 0;
        while x < width
            invariant
                x <= width,
                bits@.len() == x,
                forall|i: int| 0 <= i < x ==> #[trigger] bits@[i]@.len() == height,
                forall|i: int, j: int| 0 <= i < x && 0 <= j < height ==> !#[trigger] bits@[i]@[j],
            decreases width - x,
        {
            let mut col: Vec<bool> = Vec::with_capacity(height);
            let mut y: usize = 0;
            while y < height
                invariant
                    y <= height,
                    col@.len() == y,
                    forall|j: int| 0 <= j < y ==> !#[trigger] col@[j],
                decreases height - y,
            {
                col.push(false);
                y = y + 1;
            }
            bits.push(col);
            x = x + 1;
        }
        Mask { width, height, bits }
    }

    pub fn get(&self, x: usize, y: usize) -> (r: bool)
        requires
            self.wf(),
            x < self.width,
            y < self.height,
        ensures
            r == self.has(x as int, y as int),
    {
        self.bits[x][y]
    }

    pub fn mark(&mut self, x: usize, y: usize)
        requires
            old(self).wf(),
            x < old(self).width,
            y < old(self).height,
        ensures
            final(self).wf(),
            final(self).width == old(self).width,
            final(self).height == old(self).height,
            forall|i: int, j: int| #[trigger] final(self).has(i, j) == (old(self).has(i, j) || (i == x && j == y)),
            !old(self).has(x as int, y as int) ==> final(self).unmarked() + 1 == old(self).unmarked(),
            old(self).has(x as int, y as int) ==> final(self).unmarked() == old(self).unmarked(),
    {
        let ghost before = self.view_bits();
        let ghost old_bits = self.bits@;
        let mut col: Vec<bool> = Vec::new();
        self.bits.set_and_swap(x, &mut col);
        col.set(y, true);
        self.bits.set_and_swap(x, &mut col);
        proof {
            assert(self.view_bits() =~= before.update(x as int, before[x as int].update(y as int, true)));
            assert forall|i: int, j: int| #[trigger] self.has(i, j) == (old(self).has(i, j) || (i == x && j == y)) by {
                if 0 <= i < self.width && i != x {
                    assert(self.bits@[i] == old_bits[i]);
                }
            }
            if !old(self).has(x as int, y as int) {
                lemma_falses2_set(before, x as int, y as int);
            } else {
                assert(before[x as int].update(y as int, true) =~= before[x as int]);
                assert(self.view_bits() =~= before);
            }
        }
    }
}


impl Mask {
    /// The marked positions, column by column, top to bottom.
    pub fn positions(&self) -> (r: Vec<GridCoord>)
        requires
            self.wf(),
        ensures
            sorted_col_major(r@),
            forall|c: GridCoord| #[trigger] r@.contains(c) <==> self.has(c.x as int, c.y as int),
    {
        let mut result: Vec<GridCoord> = Vec::new();
        let mut x: usize = 0;
        while x < self.width
            invariant
                self.wf(),
                x <= self.width,
                sorted_col_major(result@),
                forall|i: int| 0 <= i < result@.len() ==> (#[trigger] result@[i]).x < x,
                forall|c: GridCoord| #[trigger] result@.contains(c) <==> (self.has(c.x as int, c.y as int) && c.x < x),
            decreases self.width - x,
        {
            let mut y: usize = 0;
            while y < self.height
                invariant
                    self.wf(),
                    x < self.width,
                    y <= self.height,
                    sorted_col_major(result@),
                    forall|i: int| 0 <= i < result@.len() ==> col_major_lt(#[trigger] result@[i], GridCoord { x, y }),
                    forall|c: GridCoord| #[trigger] result@.contains(c) <==> (self.has(c.x as int, c.y as int) && (c.x < x
                        || (c.x == x && c.y < y))),
                decreases self.height - y,
            {
                let c = GridCoord::new(x, y);
                let ghost before = result@;
                proof {
                    lemma_push_contains(result@, c);
                }
                if self.get(x, y) {
                    result.push(c);
                }
                proof {
                    assert forall|d: GridCoord| #[trigger] result@.contains(d) <==> (self.has(d.x as int, d.y as int)
                        && (d.x < x || (d.x == x && d.y < y + 1))) by {
                        assert(before.push(c).contains(d) <==> (before.contains(d) || d == c));
                        if d.y == y && d.x == x {
                            assert(d == c);
                        }
                    }
                }
                y = y + 1;
            }
            x = x + 1;
        }
        result
    }
}

} // verus!
