//! The canonical 1-, 2-, or 3-dimensional shape value.
//!
//! Every supported shape form is unpacked into one of the three used-axis
//! cases of [`SpatialDims`]; the dimension queries are defined here once and
//! reused by all shape forms. `Unspecified` stands for a shape whose
//! dimensionality cannot be determined: the work queries answer `None` for
//! it, and it describes no volume of memory.

use vstd::prelude::*;
use crate::traits::MemLen;
use crate::traits::WorkDims;
use crate::traits::filled_3d;
use crate::traits::len_product;
use crate::traits::padded_len;
use crate::traits::products_fit;

verus! {

/// Specifies a size or offset in one, two, or three dimensions.
#[derive(Clone, Copy, Debug, PartialEq, Eq, Structural)]
pub enum SpatialDims {
    /// A shape whose dimensionality cannot be determined.
    Unspecified,
    /// One dimension.
    One(usize),
    /// Two dimensions.
    Two(usize, usize),
    /// Three dimensions.
    Three(usize, usize, usize),
}

impl SpatialDims {
    /// The used axis values, in order; `None` for `Unspecified`.
    pub open spec fn dims_spec(&self) -> Option<Seq<usize>> {
        match *self {
            SpatialDims::Unspecified => None,
            SpatialDims::One(x) => Some(seq![x]),
            SpatialDims::Two(x, y) => Some(seq![x, y]),
            SpatialDims::Three(x, y, z) => Some(seq![x, y, z]),
        }
    }
}

impl WorkDims for SpatialDims {
    open spec fn work_wf(&self) -> bool {
        true
    }

    open spec fn work_dims_spec(&self) -> Option<Seq<usize>> {
        self.dims_spec()
    }

    proof fn work_dims_spec_bounded(&self) {
    }

    fn dim_count(&self) -> (n: u32) {
        match *self {
            SpatialDims::Unspecified => 0,
            SpatialDims::One(..) => 1,
            SpatialDims::Two(..) => 2,
            SpatialDims::Three(..) => 3,
        }
    }

    fn to_work_size(&self) -> (r: Option<[usize; 3]>) {
        match *self {
            SpatialDims::Unspecified => None,
            SpatialDims::One(x) => {
                let a = [x, 1, 1];
                proof { assert(a@ =~= filled_3d(seq![x], 1)); }
                Some(a)
            },
            SpatialDims::Two(x, y) => {
                let a = [x, y, 1];
                proof { assert(a@ =~= filled_3d(seq![x, y], 1)); }
                Some(a)
            },
            SpatialDims::Three(x, y, z) => {
                let a = [x, y, z];
                proof { assert(a@ =~= filled_3d(seq![x, y, z], 1)); }
                Some(a)
            },
        }
    }

    fn to_work_offset(&self) -> (r: Option<[usize; 3]>) {
        match *self {
            SpatialDims::Unspecified => None,
            SpatialDims::One(x) => {
                let a = [x, 0, 0];
                proof { assert(a@ =~= filled_3d(seq![x], 0)); }
                Some(a)
            },
            SpatialDims::Two(x, y) => {
                let a = [x, y, 0];
                proof { assert(a@ =~= filled_3d(seq![x, y], 0)); }
                Some(a)
            },
            SpatialDims::Three(x, y, z) => {
                let a = [x, y, z];
                proof { assert(a@ =~= filled_3d(seq![x, y, z], 0)); }
                Some(a)
            },
        }
    }
}

impl MemLen for SpatialDims {
    open spec fn mem_wf(&self) -> bool {
        match *self {
            SpatialDims::Unspecified => false,
            _ => true,
        }
    }

    open spec fn lens_spec(&self) -> Seq<usize> {
        match *self {
            SpatialDims::Unspecified => Seq::empty(),
            SpatialDims::One(x) => seq![x, 1, 1],
            SpatialDims::Two(x, y) => seq![x, y, 1],
            SpatialDims::Three(x, y, z) => seq![x, y, z],
        }
    }

    proof fn lens_spec_three(&self) {
    }

    fn to_len(&self) -> (n: usize) {
        let n: usize = match *self {
            // Excluded by `mem_wf`: an unspecified shape describes no volume.
            SpatialDims::Unspecified => vstd::pervasive::unreached(),
            SpatialDims::One(x) => {
                proof {
                    let l = self.lens_spec();
                    assert(l[0] == x && l[1] == 1 && l[2] == 1);
                    vstd::arithmetic::mul::lemma_mul_basics(x as int);
                    assert(len_product(l) == x);
                }
                x
            },
            SpatialDims::Two(x, y) => {
                proof {
                    let l = self.lens_spec();
                    assert(l[0] == x && l[1] == y && l[2] == 1);
                    vstd::arithmetic::mul::lemma_mul_basics(x as int * y as int);
                    assert(len_product(l) == x as int * y as int);
                }
                x * y
            },
            SpatialDims::Three(x, y, z) => {
                proof {
                    let l = self.lens_spec();
                    assert(l[0] == x && l[1] == y && l[2] == z);
                    assert(len_product(l) == x as int * y as int * z as int);
                }
                x * y * z
            },
        };
        n
    }

    fn to_len_padded(&self, incr: usize) -> (n: usize) {
        let len = self.to_len();
        if incr <= 1 {
            len
        } else {
            let rem = len % incr;
            if rem == 0 {
                len
            } else {
                len + (incr - rem)
            }
        }
    }

    fn to_lens(&self) -> (r: [usize; 3]) {
        match *self {
            // Excluded by `mem_wf`: an unspecified shape describes no volume.
            SpatialDims::Unspecified => vstd::pervasive::unreached(),
            SpatialDims::One(x) => {
                let a = [x, 1, 1];
                proof { assert(a@ =~= self.lens_spec()); }
                a
            },
            SpatialDims::Two(x, y) => {
                let a = [x, y, 1];
                proof { assert(a@ =~= self.lens_spec()); }
                a
            },
            SpatialDims::Three(x, y, z) => {
                let a = [x, y, z];
                proof { assert(a@ =~= self.lens_spec()); }
                a
            },
        }
    }
}

} // verus!
