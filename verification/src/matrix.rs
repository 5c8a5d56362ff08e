use vstd::prelude::*;

verus! {

/// An immutable square grid of QR modules: `true` is a dark module, `false`
/// a light one. Cells are stored row-major; `cells[y * size + x]` is the
/// module at column `x`, row `y`.
pub struct ModuleMatrix {
    size: usize,
    cells: Vec<bool>,
}

impl ModuleMatrix {
    /// Side length of the grid, in modules.
    pub closed spec fn spec_size(&self) -> int {
        self.size as int
    }

    /// Well-formedness: the cell vector covers exactly the square grid.
    pub closed spec fn inv(&self) -> bool {
        self.cells@.len() == self.size * self.size
    }

    /// The module at column `x`, row `y` (both from the top-left corner).
    pub closed spec fn at(&self, x: int, y: int) -> bool
        recommends
            self.inv(),
            0 <= x < self.spec_size(),
            0 <= y < self.spec_size(),
    {
        self.cells@[y * self.spec_size() + x]
    }

    /// Builds a matrix from row-major cells; `None` exactly when the cell
    /// count does not match a `size` by `size` grid.
    pub fn from_cells(size: usize, cells: Vec<bool>) -> (r: Option<ModuleMatrix>)
        ensures
            match r {
                Some(m) => {
                    &&& m.inv()
                    &&& m.spec_size() == size
                    &&& cells@.len() == size * size
                    &&& forall|x: int, y: int|
                        0 <= x < size && 0 <= y < size ==> m.at(x, y) == cells@[y * size + x]
                },
                None => cells@.len() != size * size,
            },
    {
        match size.checked_mul(size) {
            Some(n) => {
                if cells.len() == n {
                    Some(ModuleMatrix { size, cells })
                } else {
                    None
                }
            },
            None => {
                proof {
                    assert(cells@.len() == cells.len());
                    lemma_len_under_square(cells@.len() as int, size as int);
                }
                None
            },
        }
    }

    /// A well-formed matrix's side fits in 32 bits: its cell vector, of
    /// length `size * size`, is bounded by `usize::MAX`.
    pub proof fn lemma_size_bound(&self)
        requires
            self.inv(),
        ensures
            self.spec_size() <= 0x1_0000_0000u64,
    {
        assert(self.cells@.len() == self.cells.len());
        assert(self.spec_size() <= 0x1_0000_0000u64) by (nonlinear_arith)
            requires
                self.spec_size() * self.spec_size() <= u64::MAX,
                self.spec_size() >= 0,
        ;
    }

    /// Side length of the grid, in modules.
    pub fn size(&self) -> (r: usize)
        ensures
            r == self.spec_size(),
    {
        self.size
    }

    /// The module at column `x`, row `y`.
    pub fn get(&self, x: usize, y: usize) -> (r: bool)
        requires
            self.inv(),
            x < self.spec_size(),
            y < self.spec_size(),
        ensures
            r == self.at(x as int, y as int),
    {
        proof {
            assert(y * self.size + x < self.size * self.size) by (nonlinear_arith)
                requires
                    x < self.size,
                    y < self.size,
            ;
            assert(self.cells@.len() == self.cells.len());
        }
        self.cells[y * self.size + x]
    }
}

proof fn lemma_len_under_square(len: int, size: int)
    requires
        len >= 0,
        size >= 0,
        size * size > usize::MAX,
        len <= usize::MAX,
    ensures
        len != size * size,
{
}

} // verus!
