//! Shape metadata: the dimension vector of a tensor, the derived row-major
//! strides, and the total element count, together with the mapping from a
//! coordinate tuple to a linear offset into the flat buffer.

use vstd::prelude::*;
use vstd::arithmetic::div_mod::lemma_div_pos_is_pos;
use vstd::arithmetic::div_mod::lemma_fundamental_div_mod;
use vstd::arithmetic::div_mod::lemma_fundamental_div_mod_converse;
use vstd::arithmetic::div_mod::lemma_hoist_over_denominator;
use vstd::arithmetic::div_mod::lemma_mod_division_less_than_divisor;
use vstd::arithmetic::div_mod::lemma_mod_multiples_vanish;
use vstd::arithmetic::div_mod::lemma_multiply_divide_lt;
use vstd::arithmetic::div_mod::lemma_small_mod;
use vstd::arithmetic::mul::lemma_mul_inequality;

verus! {

/// Product of all entries of a dimension sequence; `1` for the empty
/// sequence, so a rank-zero tensor holds exactly one element.
pub open spec fn product_of(dims: Seq<usize>) -> int
    decreases dims.len(),
{
    if dims.len() == 0 {
        1
    } else {
        dims[0] * product_of(dims.subrange(1, dims.len() as int))
    }
}

/// A coordinate tuple addresses a valid cell: one coordinate per axis,
/// each strictly below that axis's dimension.
pub open spec fn index_ok(dims: Seq<usize>, idx: Seq<usize>) -> bool {
    &&& idx.len() == dims.len()
    &&& forall|i: int| 0 <= i < dims.len() ==> idx[i] < dims[i]
}

/// Row-major linear offset of a coordinate tuple: the first coordinate
/// moves in steps of the product of all later dimensions, and the last
/// coordinate varies fastest.
pub open spec fn flat_offset(dims: Seq<usize>, idx: Seq<usize>) -> int
    decreases dims.len(),
{
    if dims.len() == 0 {
        0
    } else {
        idx[0] * product_of(dims.subrange(1, dims.len() as int)) + flat_offset(
            dims.subrange(1, dims.len() as int),
            idx.subrange(1, idx.len() as int),
        )
    }
}

/// A sequence with a zero entry has product zero.
pub proof fn lemma_product_entry_zero(dims: Seq<usize>, i: int)
    requires
        0 <= i < dims.len(),
        dims[i] == 0,
    ensures
        product_of(dims) == 0,
    decreases dims.len(),
{
    if i == 0 {
    } else {
        lemma_product_entry_zero(dims.subrange(1, dims.len() as int), i - 1);
    }
}

/// A sequence with positive product has only positive entries.
pub proof fn lemma_product_pos_entries(dims: Seq<usize>)
    requires
        product_of(dims) >= 1,
    ensures
        forall|i: int| 0 <= i < dims.len() ==> dims[i] >= 1,
{
    assert forall|i: int| 0 <= i < dims.len() implies dims[i] >= 1 by {
        if dims[i] == 0 {
            lemma_product_entry_zero(dims, i);
        }
    }
}

/// The product is never negative.
pub proof fn lemma_product_nonneg(dims: Seq<usize>)
    ensures
        product_of(dims) >= 0,
    decreases dims.len(),
{
    if dims.len() > 0 {
        let tail = dims.subrange(1, dims.len() as int);
        lemma_product_nonneg(tail);
        lemma_mul_inequality(0, dims[0] as int, product_of(tail));
    }
}

/// Peeling one axis off the front of a suffix: the product of the suffix
/// starting at `i` is the axis at `i` times the product of the rest.
pub proof fn lemma_product_suffix_unfold(dims: Seq<usize>, i: int)
    requires
        0 <= i < dims.len(),
    ensures
        product_of(dims.subrange(i, dims.len() as int)) == dims[i] * product_of(
            dims.subrange(i + 1, dims.len() as int),
        ),
{
    let n = dims.len() as int;
    let t = dims.subrange(i, n);
    assert(t.subrange(1, t.len() as int) =~= dims.subrange(i + 1, n));
}

/// The product splits at any cut point into the product of the prefix
/// times the product of the suffix.
pub proof fn lemma_product_split(dims: Seq<usize>, i: int)
    requires
        0 <= i <= dims.len(),
    ensures
        product_of(dims) == product_of(dims.subrange(0, i)) * product_of(
            dims.subrange(i, dims.len() as int),
        ),
    decreases i,
{
    let n = dims.len() as int;
    if i == 0 {
        assert(dims.subrange(0, n) =~= dims);
    } else {
        let tail = dims.subrange(1, n);
        lemma_product_split(tail, i - 1);
        assert(tail.subrange(0, i - 1) =~= dims.subrange(1, i));
        assert(tail.subrange(i - 1, tail.len() as int) =~= dims.subrange(i, n));
        lemma_product_suffix_unfold(dims.subrange(0, i), 0);
        assert(dims.subrange(0, i).subrange(1, i) =~= dims.subrange(1, i));
        assert(dims[0] * (product_of(dims.subrange(1, i)) * product_of(dims.subrange(i, n)))
            == (dims[0] * product_of(dims.subrange(1, i))) * product_of(dims.subrange(i, n)))
            by (nonlinear_arith);
    }
}

/// With a positive total product, the product of any suffix is positive
/// and no larger than the total.
pub proof fn lemma_product_suffix_bounds(dims: Seq<usize>, i: int)
    requires
        0 <= i <= dims.len(),
        product_of(dims) >= 1,
    ensures
        1 <= product_of(dims.subrange(i, dims.len() as int)) <= product_of(dims),
{
    let n = dims.len() as int;
    let pre = product_of(dims.subrange(0, i));
    let suf = product_of(dims.subrange(i, n));
    lemma_product_split(dims, i);
    lemma_product_nonneg(dims.subrange(0, i));
    lemma_product_nonneg(dims.subrange(i, n));
    assert(pre * suf >= 1 && pre >= 0 && suf >= 0 ==> 1 <= suf <= pre * suf || pre > 1)
        by (nonlinear_arith);
    assert(suf >= 1) by {
        if suf == 0 {
            assert(pre * 0 == 0) by (nonlinear_arith);
        }
    }
    assert(pre >= 1) by {
        if pre == 0 {
            assert(0 * suf == 0) by (nonlinear_arith);
        }
    }
    lemma_mul_inequality(1, pre, suf);
}

/// The row-major offset of a valid coordinate tuple lies in
/// `[0, product_of(dims))`.
pub proof fn lemma_flat_offset_in_range(dims: Seq<usize>, idx: Seq<usize>)
    requires
        index_ok(dims, idx),
    ensures
        0 <= flat_offset(dims, idx) < product_of(dims),
    decreases dims.len(),
{
    let n = dims.len() as int;
    if dims.len() == 0 {
    } else {
        let dtail = dims.subrange(1, n);
        let itail = idx.subrange(1, idx.len() as int);
        assert(index_ok(dtail, itail));
        lemma_flat_offset_in_range(dtail, itail);
        let p1 = product_of(dtail);
        let f1 = flat_offset(dtail, itail);
        lemma_mul_inequality(0, idx[0] as int, p1);
        lemma_mul_inequality(idx[0] as int, dims[0] - 1, p1);
        assert((dims[0] - 1) * p1 + p1 == dims[0] * p1) by (nonlinear_arith);
    }
}

/// Peeling one axis off the front of a suffix of the offset sum, the
/// analogue of `lemma_product_suffix_unfold` for offsets.
pub proof fn lemma_flat_offset_suffix_unfold(dims: Seq<usize>, idx: Seq<usize>, i: int)
    requires
        idx.len() == dims.len(),
        0 <= i < dims.len(),
    ensures
        flat_offset(dims.subrange(i, dims.len() as int), idx.subrange(i, idx.len() as int))
            == idx[i] * product_of(dims.subrange(i + 1, dims.len() as int)) + flat_offset(
            dims.subrange(i + 1, dims.len() as int),
            idx.subrange(i + 1, idx.len() as int),
        ),
{
    let n = dims.len() as int;
    let dt = dims.subrange(i, n);
    let it = idx.subrange(i, n);
    assert(dt.subrange(1, dt.len() as int) =~= dims.subrange(i + 1, n));
    assert(it.subrange(1, it.len() as int) =~= idx.subrange(i + 1, n));
}

/// The coordinate along axis `i` of the cell at flat offset `k`: the
/// offset divided by the product of all later dimensions, reduced
/// modulo the axis's own dimension.
pub open spec fn coord_at(dims: Seq<usize>, k: int, i: int) -> int {
    (k / product_of(dims.subrange(i + 1, dims.len() as int))) % (dims[i] as int)
}

/// The whole coordinate tuple of the cell at flat offset `k`.
pub open spec fn coords_seq(dims: Seq<usize>, k: int) -> Seq<usize> {
    Seq::new(dims.len(), |i: int| coord_at(dims, k, i) as usize)
}

/// Stepping past the first axis: the coordinate along axis `i >= 1` of
/// flat offset `k` equals the coordinate along axis `i - 1`, within the
/// remaining axes, of `k` reduced modulo the number of cells those
/// remaining axes span.
pub proof fn lemma_coord_at_tail(dims: Seq<usize>, k: int, i: int)
    requires
        product_of(dims) >= 1,
        0 <= k,
        1 <= i < dims.len(),
    ensures
        coord_at(dims, k, i) == coord_at(
            dims.subrange(1, dims.len() as int),
            k % product_of(dims.subrange(1, dims.len() as int)),
            i - 1,
        ),
{
    let n = dims.len() as int;
    let tail = dims.subrange(1, n);
    let p1 = product_of(tail);
    lemma_product_suffix_bounds(dims, 1);
    let q = k / p1;
    let r = k % p1;
    lemma_fundamental_div_mod(k, p1);
    lemma_div_pos_is_pos(k, p1);
    let s_i = product_of(dims.subrange(i + 1, n));
    let d_i = dims[i] as int;
    lemma_product_pos_entries(dims);
    assert(tail.subrange(i, n - 1) =~= dims.subrange(i + 1, n));
    lemma_product_suffix_bounds(dims, i + 1);
    lemma_product_split(tail, i);
    let head_i = tail.subrange(0, i);
    let m_i = product_of(head_i);
    lemma_product_split(head_i, i - 1);
    let a_i = product_of(head_i.subrange(0, i - 1));
    assert(head_i.subrange(i - 1, i) =~= seq![dims[i]]);
    assert(seq![dims[i]].subrange(1, 1) =~= Seq::<usize>::empty());
    assert(product_of(seq![dims[i]]) == d_i * product_of(Seq::<usize>::empty()));
    assert(m_i == a_i * d_i);
    lemma_hoist_over_denominator(r, m_i * q, s_i as nat);
    assert(r + (m_i * q) * s_i == k) by (nonlinear_arith)
        requires
            k == p1 * q + r,
            p1 == m_i * s_i,
    ;
    assert(k / s_i == m_i * q + r / s_i);
    assert(m_i * q + r / s_i == d_i * (a_i * q) + r / s_i) by (nonlinear_arith)
        requires
            m_i == a_i * d_i,
    ;
    lemma_mod_multiples_vanish(a_i * q, r / s_i, d_i);
}

/// Coordinates and flat offsets invert each other: the coordinate
/// tuple computed for a flat offset is a valid tuple, and row-major
/// indexing sends it back to that offset.  Enumerating flat offsets in
/// order therefore visits every cell once, in row-major order.
pub proof fn lemma_coords_invert_offset(dims: Seq<usize>, k: int)
    requires
        product_of(dims) >= 1,
        0 <= k < product_of(dims),
    ensures
        index_ok(dims, coords_seq(dims, k)),
        flat_offset(dims, coords_seq(dims, k)) == k,
    decreases dims.len(),
{
    let n = dims.len() as int;
    let cs = coords_seq(dims, k);
    if n == 0 {
        assert(cs =~= Seq::<usize>::empty());
    } else {
        lemma_product_pos_entries(dims);
        let tail = dims.subrange(1, n);
        let p1 = product_of(tail);
        lemma_product_suffix_bounds(dims, 1);
        let d0 = dims[0] as int;
        let q = k / p1;
        let r = k % p1;
        lemma_fundamental_div_mod(k, p1);
        lemma_mod_division_less_than_divisor(k, p1);
        lemma_div_pos_is_pos(k, p1);
        assert(p1 * d0 == d0 * p1) by (nonlinear_arith);
        lemma_multiply_divide_lt(k, p1, d0);
        lemma_small_mod(q as nat, d0 as nat);
        assert(coord_at(dims, k, 0) == q);
        lemma_coords_invert_offset(tail, r);
        assert forall|i: int| 1 <= i < n implies coord_at(dims, k, i) == coord_at(
            tail,
            r,
            i - 1,
        ) by {
            lemma_coord_at_tail(dims, k, i);
        }
        assert(cs.subrange(1, n) =~= coords_seq(tail, r));
        assert(index_ok(dims, cs));
        assert(flat_offset(dims, cs) == cs[0] * p1 + flat_offset(tail, cs.subrange(1, n)));
        assert(q * p1 == p1 * q) by (nonlinear_arith);
    }
}


/// The other direction of the inversion: the coordinate tuple computed
/// for the flat offset of a valid tuple is that tuple again.  Together
/// with `lemma_coords_invert_offset` this makes row-major indexing a
/// bijection between valid coordinate tuples and flat offsets.
pub proof fn lemma_offset_invert_coords(dims: Seq<usize>, idx: Seq<usize>)
    requires
        product_of(dims) >= 1,
        index_ok(dims, idx),
    ensures
        coords_seq(dims, flat_offset(dims, idx)) == idx,
    decreases dims.len(),
{
    let n = dims.len() as int;
    let f = flat_offset(dims, idx);
    let cs = coords_seq(dims, f);
    if n == 0 {
        assert(cs =~= idx);
    } else {
        lemma_product_pos_entries(dims);
        let tail = dims.subrange(1, n);
        let itail = idx.subrange(1, n);
        let p1 = product_of(tail);
        lemma_product_suffix_bounds(dims, 1);
        assert(index_ok(tail, itail));
        let fp = flat_offset(tail, itail);
        lemma_flat_offset_in_range(tail, itail);
        lemma_flat_offset_in_range(dims, idx);
        assert(f == (idx[0] as int) * p1 + fp);
        assert(f == (idx[0] as int) * p1 + fp ==> f == p1 * (idx[0] as int) + fp)
            by (nonlinear_arith);
        lemma_fundamental_div_mod_converse(f, p1, idx[0] as int, fp);
        lemma_small_mod(idx[0] as nat, dims[0] as nat);
        assert(coord_at(dims, f, 0) == idx[0] as int);
        lemma_offset_invert_coords(tail, itail);
        assert forall|i: int| 1 <= i < n implies coord_at(dims, f, i) == coord_at(
            tail,
            fp,
            i - 1,
        ) by {
            lemma_coord_at_tail(dims, f, i);
        }
        assert forall|i: int| 1 <= i < n implies cs[i] == idx[i] by {
            assert(coords_seq(tail, fp)[i - 1] == itail[i - 1]);
        }
        assert(cs =~= idx);
    }
}

/// The row-major offset law for matrices: in a rank-2 shape of `rows`
/// by `cols`, the cell at coordinates `(r, c)` lies at flat offset
/// `r * cols + c`.
pub proof fn lemma_rank2_offset(rows: usize, cols: usize, r: usize, c: usize)
    requires
        r < rows,
        c < cols,
    ensures
        flat_offset(seq![rows, cols], seq![r, c]) == r * cols + c,
{
    let dims = seq![rows, cols];
    let idx = seq![r, c];
    let e = Seq::<usize>::empty();
    assert(product_of(e) == 1);
    assert(flat_offset(e, e) == 0);
    assert(dims.subrange(1, 2) =~= seq![cols]);
    assert(idx.subrange(1, 2) =~= seq![c]);
    assert(seq![cols].subrange(1, 1) =~= e);
    assert(seq![c].subrange(1, 1) =~= e);
    assert(product_of(seq![cols]) == cols * product_of(e));
    assert(flat_offset(seq![cols], seq![c]) == c * product_of(e) + flat_offset(e, e));
    assert(flat_offset(dims, idx) == r * product_of(seq![cols]) + flat_offset(seq![cols], seq![c]));
}

/// `TensorMetaData` stores the dimensions and total size of a tensor and
/// is responsible for mapping coordinate tuples to offsets into the data
/// buffer, using C-style row-major ordering.
#[derive(Debug)]
pub struct TensorMetaData {
    dims: Vec<usize>,
    strides: Vec<usize>,
    size: usize,
}

impl TensorMetaData {
    /// The dimension vector.
    pub closed spec fn spec_dims(&self) -> Seq<usize> {
        self.dims@
    }

    /// The derived row-major stride vector.
    pub closed spec fn spec_strides(&self) -> Seq<usize> {
        self.strides@
    }

    /// The stored total element count.
    pub closed spec fn spec_size(&self) -> int {
        self.size as int
    }

    /// Well-formedness: the size is the product of the dimensions, it is
    /// positive, and each stride is the product of all later dimensions.
    pub closed spec fn wf(&self) -> bool {
        &&& self.size as int == product_of(self.dims@)
        &&& self.size >= 1
        &&& self.strides@.len() == self.dims@.len()
        &&& forall|i: int|
            0 <= i < self.dims@.len() ==> self.strides@[i] == product_of(
                self.dims@.subrange(i + 1, self.dims@.len() as int),
            )
    }

    /// The public consequences of well-formedness.
    pub proof fn lemma_wf(&self)
        requires
            self.wf(),
        ensures
            self.spec_size() == product_of(self.spec_dims()),
            self.spec_size() >= 1,
            forall|i: int| 0 <= i < self.spec_dims().len() ==> self.spec_dims()[i] >= 1,
    {
        lemma_product_pos_entries(self.dims@);
    }

    /// Computes the stride vector and the total size for a dimension
    /// vector.  Every stride and every partial size is a suffix product
    /// of the dimensions, so none can exceed the total product.
    fn compute(dims: &Vec<usize>) -> (res: (usize, Vec<usize>))
        requires
            1 <= product_of(dims@) <= usize::MAX,
        ensures
            res.0 as int == product_of(dims@),
            res.1@.len() == dims@.len(),
            forall|i: int|
                0 <= i < dims@.len() ==> res.1@[i] == product_of(
                    dims@.subrange(i + 1, dims@.len() as int),
                ),
    {
        let n = dims.len();
        let ghost gn = dims@.len() as int;
        let mut strides: Vec<usize> = Vec::new();
        let mut j: usize = 0;
        while j < n
            invariant
                strides@.len() == j,
                j <= n,
                n == dims@.len(),
            decreases n - j,
        {
            strides.push(1);
            j += 1;
        }
        let mut stride: usize = 1;
        let mut i: usize = n;
        proof {
            assert(dims@.subrange(gn, gn) =~= Seq::<usize>::empty());
        }
        while i > 0
            invariant
                i <= n,
                n == dims@.len(),
                strides@.len() == n,
                1 <= product_of(dims@) <= usize::MAX,
                stride as int == product_of(dims@.subrange(i as int, gn)),
                gn == dims@.len() as int,
                forall|k: int|
                    i <= k < gn ==> strides@[k] == product_of(dims@.subrange(k + 1, gn)),
            decreases i,
        {
            i -= 1;
            strides[i] = stride;
            proof {
                lemma_product_suffix_unfold(dims@, i as int);
                lemma_product_suffix_bounds(dims@, i as int);
            }
            stride = dims[i] * stride;
        }
        proof {
            assert(dims@.subrange(0, gn) =~= dims@);
        }
        (stride, strides)
    }

    /// Creates metadata for a dimension vector, deriving strides and size.
    ///
    /// Dimensions with a zero entry (size zero) are a programmer error,
    /// ruled out by precondition instead of answered by a checked error.
    pub fn new(dims: Vec<usize>) -> (r: Self)
        requires
            1 <= product_of(dims@) <= usize::MAX,
        ensures
            r.wf(),
            r.spec_dims() == dims@,
            r.spec_size() == product_of(dims@),
    {
        let (size, strides) = Self::compute(&dims);
        TensorMetaData { dims, strides, size }
    }

    /// Creates metadata for a dimension vector whose product must equal a
    /// caller-supplied element count; a mismatch is a programmer error,
    /// ruled out by precondition instead of answered by a checked error.
    pub fn new_cmp_eq(n: usize, dims: Vec<usize>) -> (r: Self)
        requires
            n >= 1,
            product_of(dims@) == n,
        ensures
            r.wf(),
            r.spec_dims() == dims@,
            r.spec_size() == n,
    {
        Self::new(dims)
    }

    /// Returns the total element count.
    pub fn size(&self) -> (r: usize)
        ensures
            r as int == self.spec_size(),
    {
        self.size
    }

    /// Returns the dimension vector.
    pub fn shape(&self) -> (r: &[usize])
        ensures
            r@ == self.spec_dims(),
    {
        self.dims.as_slice()
    }

    /// Replaces the dimensions and recomputes strides; the new product
    /// must equal the current size, so the geometry changes but the
    /// element count never does.
    pub fn reshape(&mut self, dims: &[usize])
        requires
            old(self).wf(),
            product_of(dims@) == old(self).spec_size(),
        ensures
            final(self).wf(),
            final(self).spec_dims() == dims@,
            final(self).spec_size() == old(self).spec_size(),
    {
        let mut new_dims: Vec<usize> = Vec::new();
        let mut i: usize = 0;
        let n = dims.len();
        while i < n
            invariant
                i <= n,
                n == dims@.len(),
                new_dims@ =~= dims@.subrange(0, i as int),
            decreases n - i,
        {
            new_dims.push(dims[i]);
            i += 1;
        }
        proof {
            assert(new_dims@ =~= dims@);
        }
        let (size, strides) = Self::compute(&new_dims);
        self.dims = new_dims;
        self.strides = strides;
        self.size = size;
    }

    /// Computes the linear offset of a coordinate tuple in the data
    /// buffer, axis by axis from the last one backward.  Out-of-bounds
    /// coordinates are programmer errors, ruled out by precondition
    /// instead of answered by a checked error.
    pub fn offset(&self, index: &[usize]) -> (r: usize)
        requires
            self.wf(),
            index_ok(self.spec_dims(), index@),
        ensures
            r as int == flat_offset(self.spec_dims(), index@),
            (r as int) < self.spec_size(),
    {
        let n = self.dims.len();
        let ghost gn = self.dims@.len() as int;
        let mut off: usize = 0;
        let mut i: usize = n;
        proof {
            assert(self.dims@.subrange(gn, gn) =~= Seq::<usize>::empty());
            assert(index@.subrange(gn, gn) =~= Seq::<usize>::empty());
        }
        while i > 0
            invariant
                i <= n,
                n == self.dims@.len(),
                self.wf(),
                index_ok(self.spec_dims(), index@),
                index@.len() == gn,
                gn == self.dims@.len() as int,
                off as int == flat_offset(
                    self.dims@.subrange(i as int, gn),
                    index@.subrange(i as int, gn),
                ),
                off as int <= product_of(self.dims@.subrange(i as int, gn)) - 1,
            decreases i,
        {
            i -= 1;
            proof {
                let di = i as int;
                assert(index_ok(
                    self.dims@.subrange(di, gn),
                    index@.subrange(di, gn),
                ));
                lemma_flat_offset_in_range(
                    self.dims@.subrange(di, gn),
                    index@.subrange(di, gn),
                );
                lemma_flat_offset_suffix_unfold(self.dims@, index@, di);
                lemma_product_suffix_bounds(self.dims@, di);
            }
            off = index[i] * self.strides[i] + off;
        }
        proof {
            assert(self.dims@.subrange(0, gn) =~= self.dims@);
            assert(index@.subrange(0, gn) =~= index@);
        }
        off
    }

    /// Returns a structural copy of this metadata; the shape information
    /// is small and copied, never shared, between tensors.
    pub fn duplicate(&self) -> (r: Self)
        ensures
            r.spec_dims() == self.spec_dims(),
            r.spec_strides() == self.spec_strides(),
            r.spec_size() == self.spec_size(),
            r.wf() == self.wf(),
    {
        let mut dims: Vec<usize> = Vec::new();
        let mut strides: Vec<usize> = Vec::new();
        let n = self.dims.len();
        let mut i: usize = 0;
        while i < n
            invariant
                i <= n,
                n == self.dims@.len(),
                dims@ =~= self.dims@.subrange(0, i as int),
            decreases n - i,
        {
            dims.push(self.dims[i]);
            i += 1;
        }
        let m = self.strides.len();
        let mut j: usize = 0;
        while j < m
            invariant
                j <= m,
                m == self.strides@.len(),
                strides@ =~= self.strides@.subrange(0, j as int),
            decreases m - j,
        {
            strides.push(self.strides[j]);
            j += 1;
        }
        proof {
            assert(dims@ =~= self.dims@);
            assert(strides@ =~= self.strides@);
        }
        TensorMetaData { dims, strides, size: self.size }
    }

    /// Computes the coordinate tuple of the cell at flat offset `k`,
    /// axis by axis through the stored strides.
    pub fn coordinates(&self, k: usize) -> (r: Vec<usize>)
        requires
            self.wf(),
            (k as int) < self.spec_size(),
        ensures
            r@ == coords_seq(self.spec_dims(), k as int),
    {
        let n = self.dims.len();
        let mut coords: Vec<usize> = Vec::new();
        let mut i: usize = 0;
        while i < n
            invariant
                i <= n,
                n == self.dims@.len(),
                self.wf(),
                coords@.len() == i,
                forall|j: int|
                    0 <= j < i ==> coords@[j] as int == coord_at(self.spec_dims(), k as int, j),
            decreases n - i,
        {
            proof {
                lemma_product_pos_entries(self.dims@);
                lemma_product_suffix_bounds(self.dims@, i + 1);
                lemma_mod_division_less_than_divisor(
                    k as int / self.strides@[i as int] as int,
                    self.dims@[i as int] as int,
                );
            }
            let c = (k / self.strides[i]) % self.dims[i];
            coords.push(c);
            i += 1;
        }
        proof {
            assert(coords@ =~= coords_seq(self.spec_dims(), k as int));
        }
        coords
    }

    /// Compares the dimensions of two instances element-wise.
    pub fn cmp_dims_eq(&self, other: &Self) -> (r: bool)
        ensures
            r == (self.spec_dims() == other.spec_dims()),
    {
        let n = self.dims.len();
        if n != other.dims.len() {
            proof {
                assert(self.spec_dims() != other.spec_dims());
            }
            return false;
        }
        let mut i: usize = n;
        while i > 0
            invariant
                i <= n,
                n == self.dims@.len(),
                n == other.dims@.len(),
                forall|k: int| i <= k < n ==> self.dims@[k] == other.dims@[k],
            decreases i,
        {
            i -= 1;
            if self.dims[i] != other.dims[i] {
                proof {
                    assert(self.spec_dims()[i as int] != other.spec_dims()[i as int]);
                }
                return false;
            }
        }
        proof {
            assert(self.spec_dims() =~= other.spec_dims());
        }
        true
    }

    /// Compares two instances: the size first as a cheap short-circuit,
    /// then the dimensions element-wise.
    pub fn cmp_eq(&self, other: &Self) -> (r: bool)
        requires
            self.wf(),
            other.wf(),
        ensures
            r == (self.spec_dims() == other.spec_dims()),
    {
        if self.size != other.size {
            proof {
                if self.spec_dims() == other.spec_dims() {
                    assert(self.spec_size() == other.spec_size());
                }
            }
            return false;
        }
        self.cmp_dims_eq(other)
    }
}

} // verus!
