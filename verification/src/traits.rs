//! Shape-normalization and memory-reference traits.
//!
//! [`MemLen`] and [`WorkDims`] normalize 1-, 2-, and 3-dimensional numeric
//! shapes into a canonical 3-axis form. Unused trailing axes are `1` for
//! work/length sizing (one unit of work or memory in that axis) and `0` for
//! offsets (no displacement); the asymmetry is intentional. The six fixed
//! shape forms — 1-, 2-, and 3-tuples and the corresponding fixed-length
//! arrays — all funnel through the same three canonical cases.
//!
//! [`AsMemRef`] and [`AsMemMut`] are `AsRef`/`AsMut`-style accessors to a
//! native memory object, with the element type carried along for convenience.

use vstd::prelude::*;
use crate::device::Mem;
use crate::spatial_dims::SpatialDims;

verus! {

/// The canonical 3-axis extension of the used dimensions `dims`
/// (`dims.len() <= 3`), with every unused trailing axis set to `fill`.
pub open spec fn filled_3d(dims: Seq<usize>, fill: usize) -> Seq<usize> {
    Seq::new(3, |k: int| if k < dims.len() { dims[k] } else { fill })
}

/// The element count described by a canonical 3-axis length sequence: the
/// product of its three axes.
pub open spec fn len_product(lens: Seq<usize>) -> int {
    lens[0] * lens[1] * lens[2]
}

/// Whether the product of a canonical 3-axis length sequence can be computed
/// left to right in a `usize` without overflow.
pub open spec fn products_fit(lens: Seq<usize>) -> bool {
    &&& lens[0] * lens[1] <= usize::MAX
    &&& lens[0] * lens[1] * lens[2] <= usize::MAX
}

/// `len` rounded up to the next multiple of `incr`. An `incr` of `0` or `1`
/// rounds to nothing and returns `len` unchanged.
pub open spec fn padded_len(len: int, incr: int) -> int {
    if incr <= 1 {
        len
    } else if len % incr == 0 {
        len
    } else {
        len + (incr - len % incr)
    }
}

/// Rounding up to a multiple of `incr >= 1` is idempotent: a length already
/// padded to a multiple of `incr` pads to itself.
pub proof fn lemma_padded_len_idempotent(len: int, incr: int)
    requires
        len >= 0,
        incr >= 1,
    ensures
        padded_len(padded_len(len, incr), incr) == padded_len(len, incr),
{
    if incr > 1 && len % incr != 0 {
        let q = len / incr;
        let r = len % incr;
        vstd::arithmetic::div_mod::lemma_fundamental_div_mod(len, incr);
        assert(len + (incr - r) == (q + 1) * incr) by (nonlinear_arith)
            requires
                len == incr * q + r,
        ;
        assert(((q + 1) * incr) % incr == 0) by {
            vstd::arithmetic::div_mod::lemma_mod_multiples_basic(q + 1, incr);
        };
    }
}

/// Padding a shape's length is idempotent for any increment `incr >= 1`:
/// the value [`MemLen::to_len_padded`] returns is itself already padded, so
/// padding it again with the same increment returns it unchanged.
pub proof fn lemma_to_len_padded_idempotent<D: MemLen>(x: &D, incr: int)
    requires
        incr >= 1,
    ensures
        padded_len(padded_len(len_product(x.lens_spec()), incr), incr) == padded_len(
            len_product(x.lens_spec()),
            incr,
        ),
{
    let l = x.lens_spec();
    vstd::arithmetic::mul::lemma_mul_nonnegative(l[0] as int, l[1] as int);
    vstd::arithmetic::mul::lemma_mul_nonnegative(l[0] as int * l[1] as int, l[2] as int);
    lemma_padded_len_idempotent(len_product(l), incr);
}


/// Element types a shape may be written with: plain integers that widen to
/// the unsigned size type. A value is a valid axis only where the widening
/// loses nothing ([`Self::fits_size`]); the shape queries exclude other
/// values, as the conversion has no lossless answer for them.
pub trait DimElement: Copy + Sized {
    /// Whether this value widens losslessly to the size type:
    /// non-negative and within the size type's range.
    spec fn fits_size(&self) -> bool;

    /// The widened value.
    spec fn size_spec(&self) -> usize;

    /// Widens this value to the size type.
    fn to_size(&self) -> (n: usize)
        requires
            self.fits_size(),
        ensures
            n == self.size_spec(),
    ;
}

impl DimElement for usize {
    open spec fn fits_size(&self) -> bool {
        true
    }

    open spec fn size_spec(&self) -> usize {
        *self
    }

    fn to_size(&self) -> (n: usize) {
        *self
    }
}

impl DimElement for u8 {
    open spec fn fits_size(&self) -> bool {
        true
    }

    open spec fn size_spec(&self) -> usize {
        *self as usize
    }

    fn to_size(&self) -> (n: usize) {
        *self as usize
    }
}

impl DimElement for u16 {
    open spec fn fits_size(&self) -> bool {
        true
    }

    open spec fn size_spec(&self) -> usize {
        *self as usize
    }

    fn to_size(&self) -> (n: usize) {
        *self as usize
    }
}

impl DimElement for u32 {
    open spec fn fits_size(&self) -> bool {
        true
    }

    open spec fn size_spec(&self) -> usize {
        *self as usize
    }

    fn to_size(&self) -> (n: usize) {
        *self as usize
    }
}

impl DimElement for u64 {
    open spec fn fits_size(&self) -> bool {
        *self as int <= usize::MAX as int
    }

    open spec fn size_spec(&self) -> usize {
        *self as usize
    }

    fn to_size(&self) -> (n: usize) {
        *self as usize
    }
}

impl DimElement for i8 {
    open spec fn fits_size(&self) -> bool {
        *self >= 0
    }

    open spec fn size_spec(&self) -> usize {
        *self as usize
    }

    fn to_size(&self) -> (n: usize) {
        *self as usize
    }
}

impl DimElement for i16 {
    open spec fn fits_size(&self) -> bool {
        *self >= 0
    }

    open spec fn size_spec(&self) -> usize {
        *self as usize
    }

    fn to_size(&self) -> (n: usize) {
        *self as usize
    }
}

impl DimElement for i32 {
    open spec fn fits_size(&self) -> bool {
        *self >= 0
    }

    open spec fn size_spec(&self) -> usize {
        *self as usize
    }

    fn to_size(&self) -> (n: usize) {
        *self as usize
    }
}

impl DimElement for isize {
    open spec fn fits_size(&self) -> bool {
        *self >= 0
    }

    open spec fn size_spec(&self) -> usize {
        *self as usize
    }

    fn to_size(&self) -> (n: usize) {
        *self as usize
    }
}

impl DimElement for i64 {
    open spec fn fits_size(&self) -> bool {
        *self >= 0 && *self as int <= usize::MAX as int
    }

    open spec fn size_spec(&self) -> usize {
        *self as usize
    }

    fn to_size(&self) -> (n: usize) {
        *self as usize
    }
}

/// Types whose value describes the size of a volume of memory.
///
/// Units are elements, like `Vec::len()`. The canonical form is three axis
/// lengths with unused trailing axes equal to `1`.
pub trait MemLen {
    /// Which values of the type describe a volume at all; shapes with no
    /// determinable dimensionality are excluded here.
    spec fn mem_wf(&self) -> bool;

    /// The canonical 3-axis lengths this value describes.
    spec fn lens_spec(&self) -> Seq<usize>;

    /// The canonical form always has exactly three axes.
    proof fn lens_spec_three(&self)
        requires
            self.mem_wf(),
        ensures
            self.lens_spec().len() == 3,
    ;

    /// Returns the exact number of elements of the described volume of
    /// memory (equivalent to `Vec::len()`): the product of the axis lengths.
    fn to_len(&self) -> (n: usize)
        requires
            self.mem_wf(),
            products_fit(self.lens_spec()),
        ensures
            n == len_product(self.lens_spec()),
    ;

    /// Returns the length of the described volume padded to the next
    /// multiple of `incr`; an `incr` of `0` or `1` pads to nothing.
    fn to_len_padded(&self, incr: usize) -> (n: usize)
        requires
            self.mem_wf(),
            products_fit(self.lens_spec()),
            padded_len(len_product(self.lens_spec()), incr as int) <= usize::MAX,
        ensures
            n == padded_len(len_product(self.lens_spec()), incr as int),
    ;

    /// Returns the exact lengths of each axis of the described volume, with
    /// unused trailing axes equal to `1`.
    fn to_lens(&self) -> (r: [usize; 3])
        requires
            self.mem_wf(),
        ensures
            r@ == self.lens_spec(),
    ;
}

/// Types whose value describes the span or offset of dispatched work in up
/// to three axes.
pub trait WorkDims {
    /// Which values of the type describe work dimensions at all; shapes
    /// whose elements do not widen losslessly to the size type are excluded
    /// here, as the axis queries have no lossless answer for them.
    spec fn work_wf(&self) -> bool;

    /// The used axis values, in order, or `None` when the dimensionality of
    /// the value cannot be determined.
    spec fn work_dims_spec(&self) -> Option<Seq<usize>>;

    /// A determinable shape uses one, two, or three axes.
    proof fn work_dims_spec_bounded(&self)
        ensures
            self.work_dims_spec() matches Some(dims) ==> 1 <= dims.len() <= 3,
    ;

    /// Returns the number of dimensions defined, or `0` when the
    /// dimensionality cannot be determined.
    fn dim_count(&self) -> (n: u32)
        ensures
            match self.work_dims_spec() {
                Some(dims) => n == dims.len(),
                None => n == 0,
            },
    ;

    /// Returns the amount of work to be done in each of three axes, with
    /// unused trailing axes set to `1`, or `None` when the dimensionality
    /// cannot be determined.
    fn to_work_size(&self) -> (r: Option<[usize; 3]>)
        requires
            self.work_wf(),
        ensures
            match self.work_dims_spec() {
                Some(dims) => r matches Some(a) && a@ == filled_3d(dims, 1),
                None => r is None,
            },
    ;

    /// Returns the offset of a work item or memory location in each of three
    /// axes, with unused trailing axes set to `0`, or `None` when the
    /// dimensionality cannot be determined.
    fn to_work_offset(&self) -> (r: Option<[usize; 3]>)
        requires
            self.work_wf(),
        ensures
            match self.work_dims_spec() {
                Some(dims) => r matches Some(a) && a@ == filled_3d(dims, 0),
                None => r is None,
            },
    ;
}

impl<'a, D: MemLen> MemLen for &'a D {
    open spec fn mem_wf(&self) -> bool {
        (**self).mem_wf()
    }

    open spec fn lens_spec(&self) -> Seq<usize> {
        (**self).lens_spec()
    }

    proof fn lens_spec_three(&self) {
        (**self).lens_spec_three();
    }

    fn to_len(&self) -> (n: usize) {
        (**self).to_len()
    }

    fn to_len_padded(&self, incr: usize) -> (n: usize) {
        (**self).to_len_padded(incr)
    }

    fn to_lens(&self) -> (r: [usize; 3]) {
        (**self).to_lens()
    }
}

impl<D: DimElement> MemLen for (D,) {
    open spec fn mem_wf(&self) -> bool {
        self.0.fits_size()
    }

    open spec fn lens_spec(&self) -> Seq<usize> {
        seq![self.0.size_spec(), 1, 1]
    }

    proof fn lens_spec_three(&self) {
    }

    fn to_len(&self) -> (n: usize) {
        let d = SpatialDims::One(self.0.to_size());
        proof { assert(d.lens_spec() =~= self.lens_spec()); }
        d.to_len()
    }

    fn to_len_padded(&self, incr: usize) -> (n: usize) {
        let d = SpatialDims::One(self.0.to_size());
        proof { assert(d.lens_spec() =~= self.lens_spec()); }
        d.to_len_padded(incr)
    }

    fn to_lens(&self) -> (r: [usize; 3]) {
        let d = SpatialDims::One(self.0.to_size());
        proof { assert(d.lens_spec() =~= self.lens_spec()); }
        d.to_lens()
    }
}

impl<D: DimElement> MemLen for [D; 1] {
    open spec fn mem_wf(&self) -> bool {
        self[0].fits_size()
    }

    open spec fn lens_spec(&self) -> Seq<usize> {
        seq![self[0].size_spec(), 1, 1]
    }

    proof fn lens_spec_three(&self) {
    }

    fn to_len(&self) -> (n: usize) {
        let d = SpatialDims::One(self[0].to_size());
        proof { assert(d.lens_spec() =~= self.lens_spec()); }
        d.to_len()
    }

    fn to_len_padded(&self, incr: usize) -> (n: usize) {
        let d = SpatialDims::One(self[0].to_size());
        proof { assert(d.lens_spec() =~= self.lens_spec()); }
        d.to_len_padded(incr)
    }

    fn to_lens(&self) -> (r: [usize; 3]) {
        let d = SpatialDims::One(self[0].to_size());
        proof { assert(d.lens_spec() =~= self.lens_spec()); }
        d.to_lens()
    }
}

impl<D: DimElement> MemLen for (D, D) {
    open spec fn mem_wf(&self) -> bool {
        self.0.fits_size() && self.1.fits_size()
    }

    open spec fn lens_spec(&self) -> Seq<usize> {
        seq![self.0.size_spec(), self.1.size_spec(), 1]
    }

    proof fn lens_spec_three(&self) {
    }

    fn to_len(&self) -> (n: usize) {
        let d = SpatialDims::Two(self.0.to_size(), self.1.to_size());
        proof { assert(d.lens_spec() =~= self.lens_spec()); }
        d.to_len()
    }

    fn to_len_padded(&self, incr: usize) -> (n: usize) {
        let d = SpatialDims::Two(self.0.to_size(), self.1.to_size());
        proof { assert(d.lens_spec() =~= self.lens_spec()); }
        d.to_len_padded(incr)
    }

    fn to_lens(&self) -> (r: [usize; 3]) {
        let d = SpatialDims::Two(self.0.to_size(), self.1.to_size());
        proof { assert(d.lens_spec() =~= self.lens_spec()); }
        d.to_lens()
    }
}

impl<D: DimElement> MemLen for [D; 2] {
    open spec fn mem_wf(&self) -> bool {
        self[0].fits_size() && self[1].fits_size()
    }

    open spec fn lens_spec(&self) -> Seq<usize> {
        seq![self[0].size_spec(), self[1].size_spec(), 1]
    }

    proof fn lens_spec_three(&self) {
    }

    fn to_len(&self) -> (n: usize) {
        let d = SpatialDims::Two(self[0].to_size(), self[1].to_size());
        proof { assert(d.lens_spec() =~= self.lens_spec()); }
        d.to_len()
    }

    fn to_len_padded(&self, incr: usize) -> (n: usize) {
        let d = SpatialDims::Two(self[0].to_size(), self[1].to_size());
        proof { assert(d.lens_spec() =~= self.lens_spec()); }
        d.to_len_padded(incr)
    }

    fn to_lens(&self) -> (r: [usize; 3]) {
        let d = SpatialDims::Two(self[0].to_size(), self[1].to_size());
        proof { assert(d.lens_spec() =~= self.lens_spec()); }
        d.to_lens()
    }
}

impl<D: DimElement> MemLen for (D, D, D) {
    open spec fn mem_wf(&self) -> bool {
        self.0.fits_size() && self.1.fits_size() && self.2.fits_size()
    }

    open spec fn lens_spec(&self) -> Seq<usize> {
        seq![self.0.size_spec(), self.1.size_spec(), self.2.size_spec()]
    }

    proof fn lens_spec_three(&self) {
    }

    fn to_len(&self) -> (n: usize) {
        let d = SpatialDims::Three(self.0.to_size(), self.1.to_size(), self.2.to_size());
        proof { assert(d.lens_spec() =~= self.lens_spec()); }
        d.to_len()
    }

    fn to_len_padded(&self, incr: usize) -> (n: usize) {
        let d = SpatialDims::Three(self.0.to_size(), self.1.to_size(), self.2.to_size());
        proof { assert(d.lens_spec() =~= self.lens_spec()); }
        d.to_len_padded(incr)
    }

    fn to_lens(&self) -> (r: [usize; 3]) {
        let d = SpatialDims::Three(self.0.to_size(), self.1.to_size(), self.2.to_size());
        proof { assert(d.lens_spec() =~= self.lens_spec()); }
        d.to_lens()
    }
}

impl<D: DimElement> MemLen for [D; 3] {
    open spec fn mem_wf(&self) -> bool {
        self[0].fits_size() && self[1].fits_size() && self[2].fits_size()
    }

    open spec fn lens_spec(&self) -> Seq<usize> {
        seq![self[0].size_spec(), self[1].size_spec(), self[2].size_spec()]
    }

    proof fn lens_spec_three(&self) {
    }

    fn to_len(&self) -> (n: usize) {
        let d = SpatialDims::Three(self[0].to_size(), self[1].to_size(), self[2].to_size());
        proof { assert(d.lens_spec() =~= self.lens_spec()); }
        d.to_len()
    }

    fn to_len_padded(&self, incr: usize) -> (n: usize) {
        let d = SpatialDims::Three(self[0].to_size(), self[1].to_size(), self[2].to_size());
        proof { assert(d.lens_spec() =~= self.lens_spec()); }
        d.to_len_padded(incr)
    }

    fn to_lens(&self) -> (r: [usize; 3]) {
        let d = SpatialDims::Three(self[0].to_size(), self[1].to_size(), self[2].to_size());
        proof { assert(d.lens_spec() =~= self.lens_spec()); }
        d.to_lens()
    }
}

impl<D: DimElement> WorkDims for (D,) {
    open spec fn work_wf(&self) -> bool {
        self.0.fits_size()
    }

    open spec fn work_dims_spec(&self) -> Option<Seq<usize>> {
        Some(seq![self.0.size_spec()])
    }

    proof fn work_dims_spec_bounded(&self) {
    }

    fn dim_count(&self) -> (n: u32) {
        1
    }

    fn to_work_size(&self) -> (r: Option<[usize; 3]>) {
        SpatialDims::One(self.0.to_size()).to_work_size()
    }

    fn to_work_offset(&self) -> (r: Option<[usize; 3]>) {
        SpatialDims::One(self.0.to_size()).to_work_offset()
    }
}

impl<D: DimElement> WorkDims for [D; 1] {
    open spec fn work_wf(&self) -> bool {
        self[0].fits_size()
    }

    open spec fn work_dims_spec(&self) -> Option<Seq<usize>> {
        Some(seq![self[0].size_spec()])
    }

    proof fn work_dims_spec_bounded(&self) {
    }

    fn dim_count(&self) -> (n: u32) {
        1
    }

    fn to_work_size(&self) -> (r: Option<[usize; 3]>) {
        SpatialDims::One(self[0].to_size()).to_work_size()
    }

    fn to_work_offset(&self) -> (r: Option<[usize; 3]>) {
        SpatialDims::One(self[0].to_size()).to_work_offset()
    }
}

impl<D: DimElement> WorkDims for (D, D) {
    open spec fn work_wf(&self) -> bool {
        self.0.fits_size() && self.1.fits_size()
    }

    open spec fn work_dims_spec(&self) -> Option<Seq<usize>> {
        Some(seq![self.0.size_spec(), self.1.size_spec()])
    }

    proof fn work_dims_spec_bounded(&self) {
    }

    fn dim_count(&self) -> (n: u32) {
        2
    }

    fn to_work_size(&self) -> (r: Option<[usize; 3]>) {
        SpatialDims::Two(self.0.to_size(), self.1.to_size()).to_work_size()
    }

    fn to_work_offset(&self) -> (r: Option<[usize; 3]>) {
        SpatialDims::Two(self.0.to_size(), self.1.to_size()).to_work_offset()
    }
}

impl<D: DimElement> WorkDims for [D; 2] {
    open spec fn work_wf(&self) -> bool {
        self[0].fits_size() && self[1].fits_size()
    }

    open spec fn work_dims_spec(&self) -> Option<Seq<usize>> {
        Some(seq![self[0].size_spec(), self[1].size_spec()])
    }

    proof fn work_dims_spec_bounded(&self) {
    }

    fn dim_count(&self) -> (n: u32) {
        2
    }

    fn to_work_size(&self) -> (r: Option<[usize; 3]>) {
        SpatialDims::Two(self[0].to_size(), self[1].to_size()).to_work_size()
    }

    fn to_work_offset(&self) -> (r: Option<[usize; 3]>) {
        SpatialDims::Two(self[0].to_size(), self[1].to_size()).to_work_offset()
    }
}

impl<D: DimElement> WorkDims for (D, D, D) {
    open spec fn work_wf(&self) -> bool {
        self.0.fits_size() && self.1.fits_size() && self.2.fits_size()
    }

    open spec fn work_dims_spec(&self) -> Option<Seq<usize>> {
        Some(seq![self.0.size_spec(), self.1.size_spec(), self.2.size_spec()])
    }

    proof fn work_dims_spec_bounded(&self) {
    }

    fn dim_count(&self) -> (n: u32) {
        3
    }

    fn to_work_size(&self) -> (r: Option<[usize; 3]>) {
        SpatialDims::Three(self.0.to_size(), self.1.to_size(), self.2.to_size()).to_work_size()
    }

    fn to_work_offset(&self) -> (r: Option<[usize; 3]>) {
        SpatialDims::Three(self.0.to_size(), self.1.to_size(), self.2.to_size()).to_work_offset()
    }
}

impl<D: DimElement> WorkDims for [D; 3] {
    open spec fn work_wf(&self) -> bool {
        self[0].fits_size() && self[1].fits_size() && self[2].fits_size()
    }

    open spec fn work_dims_spec(&self) -> Option<Seq<usize>> {
        Some(seq![self[0].size_spec(), self[1].size_spec(), self[2].size_spec()])
    }

    proof fn work_dims_spec_bounded(&self) {
    }

    fn dim_count(&self) -> (n: u32) {
        3
    }

    fn to_work_size(&self) -> (r: Option<[usize; 3]>) {
        SpatialDims::Three(self[0].to_size(), self[1].to_size(), self[2].to_size()).to_work_size()
    }

    fn to_work_offset(&self) -> (r: Option<[usize; 3]>) {
        SpatialDims::Three(self[0].to_size(), self[1].to_size(), self[2].to_size()).to_work_offset()
    }
}

/// Element types a native memory object may hold: plain values with a fixed
/// layout the driver can copy byte for byte.
pub trait OclPrm: Sized {

}

impl OclPrm for u8 {

}

impl OclPrm for i8 {

}

impl OclPrm for u16 {

}

impl OclPrm for i16 {

}

impl OclPrm for u32 {

}

impl OclPrm for i32 {

}

impl OclPrm for u64 {

}

impl OclPrm for i64 {

}

impl OclPrm for usize {

}

impl OclPrm for isize {

}

/// `AsRef` to a native memory object, with the element type carried along
/// for convenience.
pub trait AsMemRef<T: OclPrm> {
    /// The wrapped native memory object.
    spec fn mem_spec(&self) -> Mem;

    /// Borrows the wrapped native memory object.
    fn as_mem_ref(&self) -> (r: &Mem)
        ensures
            *r == self.mem_spec(),
    ;
}

/// `AsMut` to a native memory object, with the element type carried along
/// for convenience.
pub trait AsMemMut<T: OclPrm> {
    /// The wrapped native memory object.
    spec fn mem_mut_spec(&self) -> Mem;

    /// Borrows the wrapped native memory object mutably. The identifier
    /// itself is not changed by taking the borrow.
    fn as_mem_mut(&mut self) -> (r: &mut Mem)
        ensures
            *r == old(self).mem_mut_spec(),
            final(self).mem_mut_spec() == *final(r),
    ;
}

} // verus!
