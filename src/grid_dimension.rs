use vstd::prelude::*;

use crate::{Ix, Ix2, Ix3};

verus! {

/// Number of cells of a grid with extents `e`: the product of all extents.
pub open spec fn product(e: Seq<usize>) -> int
    decreases e.len(),
{
    if e.len() == 0 {
        1
    } else {
        e[0] * product(e.drop_first())
    }
}

/// Row-major stride table of a grid with extents `e`: the stride of an axis is
/// the product of the extents of all axes inside it, so the last stride is 1.
pub open spec fn row_major_strides(e: Seq<usize>) -> Seq<int>
    decreases e.len(),
{
    if e.len() == 0 {
        Seq::empty()
    } else {
        seq![product(e.drop_first())] + row_major_strides(e.drop_first())
    }
}

/// The values of `s` as mathematical integers.
pub open spec fn widen(s: Seq<usize>) -> Seq<int> {
    s.map_values(|v: usize| v as int)
}

/// Dot product of an index with a stride table, axis by axis.
pub open spec fn dot(i: Seq<usize>, s: Seq<int>) -> int
    decreases i.len(),
{
    if i.len() == 0 || s.len() == 0 {
        0
    } else {
        i[0] * s[0] + dot(i.drop_first(), s.drop_first())
    }
}

/// Linear storage offset of index `i` in a row-major grid with extents `e`.
pub open spec fn linear_offset(i: Seq<usize>, e: Seq<usize>) -> int {
    dot(i, row_major_strides(e))
}

/// Every stride of a grid with extents `e` can be held in a `usize`.
pub open spec fn strides_fit(e: Seq<usize>) -> bool {
    forall|k: int| 0 <= k < e.len() ==> #[trigger] row_major_strides(e)[k] <= usize::MAX
}

/// `i` addresses a cell inside a grid with extents `e`.
pub open spec fn in_extent(i: Seq<usize>, e: Seq<usize>) -> bool {
    &&& i.len() == e.len()
    &&& forall|k: int| 0 <= k < e.len() ==> #[trigger] i[k] < e[k]
}

/// The extent of the second-fastest varying axis: 1 where there is no such axis.
pub open spec fn second_last_or_one(e: Seq<usize>) -> usize {
    if e.len() >= 2 {
        e[e.len() - 2]
    } else {
        1
    }
}

/// Shape of a grid of fixed rank, with its row-major addressing.
pub trait GridDimension: Sized {
    /// The natural external form of a shape of this rank.
    type IndexPattern;

    /// The extents, outer (slowest varying) axis first.
    spec fn axes(&self) -> Seq<usize>;

    /// The values of a pattern, in the order it holds them.
    spec fn pattern_axes(p: Self::IndexPattern) -> Seq<usize>;

    fn number_of_dimensions(&self) -> (r: usize)
        ensures
            r == self.axes().len(),
    ;

    /// The extents in natural order: innermost (width) first.
    fn as_pattern(&self) -> (r: Self::IndexPattern)
        ensures
            Self::pattern_axes(r) == self.axes().reverse(),
    ;

    fn number_of_elements(&self) -> (r: usize)
        requires
            product(self.axes()) <= usize::MAX,
        ensures
            r == product(self.axes()),
    ;

    fn strides(&self) -> (r: Self)
        requires
            strides_fit(self.axes()),
        ensures
            widen(r.axes()) == row_major_strides(self.axes()),
    ;

    fn slice(&self) -> (r: &[Ix])
        ensures
            r@ == self.axes(),
    ;

    fn stride_offset(index: &Self, strides: &Self) -> (r: usize)
        requires
            dot(index.axes(), widen(strides.axes())) <= usize::MAX,
        ensures
            r == dot(index.axes(), widen(strides.axes())),
    ;

    /// Extent of the fastest varying (innermost) axis.
    fn x_axis_value(&self) -> (r: Ix)
        ensures
            r == self.axes()[self.axes().len() - 1],
    ;

    /// Extent of the second-fastest varying axis; 1 for a rank-1 grid.
    fn y_axis_value(&self) -> (r: Ix)
        ensures
            r == second_last_or_one(self.axes()),
    ;
}

/// Fixed-rank grid shape (or shape-typed index), stored outer axis first.
#[derive(Copy, Clone, PartialEq, Eq, Hash, Default, Debug)]
pub struct Dim<I> {
    pub index: I,
}

impl<I> Dim<I> {
    pub fn new(index: I) -> (r: Dim<I>)
        ensures
            r.index == index,
    {
        Dim { index }
    }

    pub fn ix(&self) -> (r: &I)
        ensures
            *r == self.index,
    {
        &self.index
    }

    pub fn ixm(&mut self) -> (r: &mut I)
        ensures
            *r == old(self).index,
            final(self).index == *final(r),
    {
        &mut self.index
    }
}

impl GridDimension for Dim<[Ix; 1]> {
    type IndexPattern = Ix;

    open spec fn axes(&self) -> Seq<usize> {
        self.index@
    }

    open spec fn pattern_axes(p: Ix) -> Seq<usize> {
        seq![p]
    }

    fn number_of_dimensions(&self) -> (r: usize) {
        1
    }

    fn as_pattern(&self) -> (r: Ix) {
        proof {
            assert(self.axes().reverse() =~= seq![self.index[0]]);
        }
        self.index[0]
    }

    fn number_of_elements(&self) -> (r: usize) {
        proof {
            reveal_with_fuel(product, 2);
        }
        self.index[0]
    }

    fn strides(&self) -> (r: Self) {
        let r = Dim::new([1]);
        proof {
            reveal_with_fuel(product, 1);
            reveal_with_fuel(row_major_strides, 2);
            assert(widen(r.axes()) =~= row_major_strides(self.axes()));
        }
        r
    }

    fn slice(&self) -> (r: &[Ix]) {
        self.index.as_slice()
    }

    fn stride_offset(index: &Self, strides: &Self) -> (r: usize) {
        proof {
            reveal_with_fuel(dot, 2);
        }
        index.index[0] * strides.index[0]
    }

    fn x_axis_value(&self) -> (r: Ix) {
        self.index[0]
    }

    fn y_axis_value(&self) -> (r: Ix) {
        1
    }
}

impl GridDimension for Dim<[Ix; 2]> {
    type IndexPattern = Ix2;

    open spec fn axes(&self) -> Seq<usize> {
        self.index@
    }

    open spec fn pattern_axes(p: Ix2) -> Seq<usize> {
        seq![p.0, p.1]
    }

    fn number_of_dimensions(&self) -> (r: usize) {
        2
    }

    fn as_pattern(&self) -> (r: Ix2) {
        proof {
            assert(self.axes().reverse() =~= seq![self.index[1], self.index[0]]);
        }
        (self.index[1], self.index[0])
    }

    fn number_of_elements(&self) -> (r: usize) {
        proof {
            reveal_with_fuel(product, 3);
        }
        self.index[0] * self.index[1]
    }

    fn strides(&self) -> (r: Self) {
        let r = Dim::new([self.index[1], 1]);
        proof {
            reveal_with_fuel(product, 2);
            reveal_with_fuel(row_major_strides, 3);
            assert(widen(r.axes()) =~= row_major_strides(self.axes()));
        }
        r
    }

    fn slice(&self) -> (r: &[Ix]) {
        self.index.as_slice()
    }

    fn stride_offset(index: &Self, strides: &Self) -> (r: usize) {
        let (i0, i1) = (index.index[0], index.index[1]);
        let (s0, s1) = (strides.index[0], strides.index[1]);
        proof {
            reveal_with_fuel(dot, 3);
            assert(0 <= i0 * s0 && 0 <= i1 * s1) by (nonlinear_arith);
        }
        i1 * s1 + i0 * s0
    }

    fn x_axis_value(&self) -> (r: Ix) {
        self.index[1]
    }

    fn y_axis_value(&self) -> (r: Ix) {
        self.index[0]
    }
}

impl GridDimension for Dim<[Ix; 3]> {
    type IndexPattern = Ix3;

    open spec fn axes(&self) -> Seq<usize> {
        self.index@
    }

    open spec fn pattern_axes(p: Ix3) -> Seq<usize> {
        seq![p.0, p.1, p.2]
    }

    fn number_of_dimensions(&self) -> (r: usize) {
        3
    }

    fn as_pattern(&self) -> (r: Ix3) {
        proof {
            assert(self.axes().reverse() =~= seq![self.index[2], self.index[1], self.index[0]]);
        }
        (self.index[2], self.index[1], self.index[0])
    }

    fn number_of_elements(&self) -> (r: usize) {
        let (e0, e1, e2) = (self.index[0], self.index[1], self.index[2]);
        proof {
            reveal_with_fuel(product, 4);
        }
        if e0 == 0 || e1 == 0 || e2 == 0 {
            proof {
                assert(e0 * (e1 * e2) == 0) by (nonlinear_arith)
                    requires
                        e0 == 0 || e1 == 0 || e2 == 0,
                ;
            }
            0
        } else {
            proof {
                assert(e1 * e2 <= e0 * (e1 * e2)) by (nonlinear_arith)
                    requires
                        e0 >= 1,
                        e1 >= 1,
                        e2 >= 1,
                ;
            }
            e0 * (e1 * e2)
        }
    }

    fn strides(&self) -> (r: Self) {
        proof {
            reveal_with_fuel(product, 3);
            reveal_with_fuel(row_major_strides, 4);
            assert(row_major_strides(self.axes())[0] == self.index[1] * self.index[2]);
        }
        let r = Dim::new([self.index[1] * self.index[2], self.index[2], 1]);
        proof {
            assert(widen(r.axes()) =~= row_major_strides(self.axes()));
        }
        r
    }

    fn slice(&self) -> (r: &[Ix]) {
        self.index.as_slice()
    }

    fn stride_offset(index: &Self, strides: &Self) -> (r: usize) {
        let (i0, i1, i2) = (index.index[0], index.index[1], index.index[2]);
        let (s0, s1, s2) = (strides.index[0], strides.index[1], strides.index[2]);
        proof {
            reveal_with_fuel(dot, 4);
            assert(0 <= i0 * s0 && 0 <= i1 * s1 && 0 <= i2 * s2) by (nonlinear_arith);
        }
        i0 * s0 + i1 * s1 + i2 * s2
    }

    fn x_axis_value(&self) -> (r: Ix) {
        self.index[2]
    }

    fn y_axis_value(&self) -> (r: Ix) {
        self.index[1]
    }
}

/// Read access to a single extent by axis number.
impl<const N: usize> core::ops::Index<usize> for Dim<[Ix; N]> {
    type Output = usize;

    fn index(&self, index: usize) -> (r: &usize)
        ensures
            *r == self.index[index as int],
    {
        &self.index[index]
    }
}

impl<const N: usize> vstd::std_specs::core::IndexSpecImpl<usize> for Dim<[Ix; N]> {
    open spec fn index_req(&self, index: &usize) -> bool {
        *index < N
    }
}

impl From<Ix> for Dim<[Ix; 1]> {
    fn from(size_1d: Ix) -> (r: Self) {
        Self::new([size_1d])
    }
}

impl vstd::std_specs::convert::FromSpecImpl<Ix> for Dim<[Ix; 1]> {
    open spec fn obeys_from_spec() -> bool {
        true
    }

    open spec fn from_spec(v: Ix) -> Self {
        Dim { index: [v] }
    }
}

impl From<Ix2> for Dim<[Ix; 2]> {
    fn from(size_2d: Ix2) -> (r: Self) {
        Self::new([size_2d.0, size_2d.1])
    }
}

impl vstd::std_specs::convert::FromSpecImpl<Ix2> for Dim<[Ix; 2]> {
    open spec fn obeys_from_spec() -> bool {
        true
    }

    open spec fn from_spec(v: Ix2) -> Self {
        Dim { index: [v.0, v.1] }
    }
}

impl From<Ix3> for Dim<[Ix; 3]> {
    fn from(size_3d: Ix3) -> (r: Self) {
        Self::new([size_3d.0, size_3d.1, size_3d.2])
    }
}

impl vstd::std_specs::convert::FromSpecImpl<Ix3> for Dim<[Ix; 3]> {
    open spec fn obeys_from_spec() -> bool {
        true
    }

    open spec fn from_spec(v: Ix3) -> Self {
        Dim { index: [v.0, v.1, v.2] }
    }
}

impl From<[Ix; 2]> for Dim<[Ix; 2]> {
    fn from(size_2d: [Ix; 2]) -> (r: Self) {
        Self::new(size_2d)
    }
}

impl vstd::std_specs::convert::FromSpecImpl<[Ix; 2]> for Dim<[Ix; 2]> {
    open spec fn obeys_from_spec() -> bool {
        true
    }

    open spec fn from_spec(v: [Ix; 2]) -> Self {
        Dim { index: v }
    }
}

impl From<[Ix; 3]> for Dim<[Ix; 3]> {
    fn from(size_3d: [Ix; 3]) -> (r: Self) {
        Self::new(size_3d)
    }
}

impl vstd::std_specs::convert::FromSpecImpl<[Ix; 3]> for Dim<[Ix; 3]> {
    open spec fn obeys_from_spec() -> bool {
        true
    }

    open spec fn from_spec(v: [Ix; 3]) -> Self {
        Dim { index: v }
    }
}

/// An index representation that can be linearized against a grid shape `D`.
pub trait GridIndex<D: GridDimension> {
    /// The index as a shape-typed index: one value per axis, outer axis first.
    spec fn index_axes(&self) -> Seq<usize>;

    /// Row-major linear offset of this index in `dim`; not checked against the extents.
    fn lin_space_index_unchecked(&self, dim: &D) -> (r: usize)
        requires
            strides_fit(dim.axes()),
            linear_offset(self.index_axes(), dim.axes()) <= usize::MAX,
        ensures
            r == linear_offset(self.index_axes(), dim.axes()),
    ;
}

impl<D: GridDimension> GridIndex<D> for D {
    open spec fn index_axes(&self) -> Seq<usize> {
        self.axes()
    }

    fn lin_space_index_unchecked(&self, dim: &D) -> (r: usize) {
        D::stride_offset(self, &dim.strides())
    }
}

impl GridIndex<Dim<[Ix; 1]>> for Ix {
    open spec fn index_axes(&self) -> Seq<usize> {
        seq![*self]
    }

    fn lin_space_index_unchecked(&self, dim: &Dim<[Ix; 1]>) -> (r: usize) {
        let index = Dim::from(*self);
        proof {
            assert(index.axes() =~= self.index_axes());
        }
        Dim::<[Ix; 1]>::stride_offset(&index, &dim.strides())
    }
}

impl GridIndex<Dim<[Ix; 2]>> for Ix2 {
    open spec fn index_axes(&self) -> Seq<usize> {
        seq![self.0, self.1]
    }

    fn lin_space_index_unchecked(&self, dim: &Dim<[Ix; 2]>) -> (r: usize) {
        let index = Dim::from(*self);
        proof {
            assert(index.axes() =~= self.index_axes());
        }
        Dim::<[Ix; 2]>::stride_offset(&index, &dim.strides())
    }
}

impl GridIndex<Dim<[Ix; 3]>> for Ix3 {
    open spec fn index_axes(&self) -> Seq<usize> {
        seq![self.0, self.1, self.2]
    }

    fn lin_space_index_unchecked(&self, dim: &Dim<[Ix; 3]>) -> (r: usize) {
        let index = Dim::from(*self);
        proof {
            assert(index.axes() =~= self.index_axes());
        }
        Dim::<[Ix; 3]>::stride_offset(&index, &dim.strides())
    }
}

proof fn lemma_unfold_offset(i: Seq<usize>, e: Seq<usize>)
    requires
        e.len() > 0,
        i.len() > 0,
    ensures
        linear_offset(i, e) == i[0] * product(e.drop_first()) + linear_offset(
            i.drop_first(),
            e.drop_first(),
        ),
        product(e) == e[0] * product(e.drop_first()),
{
    let s = row_major_strides(e);
    assert(s.drop_first() =~= row_major_strides(e.drop_first()));
}

/// Every index inside the extents is linearized to an offset in `[0, product(e))`.
pub proof fn lemma_offset_in_range(i: Seq<usize>, e: Seq<usize>)
    requires
        in_extent(i, e),
    ensures
        0 <= linear_offset(i, e) < product(e),
    decreases e.len(),
{
    if e.len() > 0 {
        let (i1, e1) = (i.drop_first(), e.drop_first());
        assert(in_extent(i1, e1)) by {
            assert forall|k: int| 0 <= k < e1.len() implies #[trigger] i1[k] < e1[k] by {
                assert(i[k + 1] < e[k + 1]);
            }
        }
        lemma_offset_in_range(i1, e1);
        lemma_unfold_offset(i, e);
        let (a, b, p, rest) = (i[0] as int, e[0] as int, product(e1), linear_offset(i1, e1));
        assert(0 <= a < b);
        assert(0 <= a * p + rest < b * p) by (nonlinear_arith)
            requires
                0 <= rest < p,
                0 <= a < b,
        ;
    }
}

/// No two distinct indices inside the extents share a linear offset.
pub proof fn lemma_offset_injective(i: Seq<usize>, j: Seq<usize>, e: Seq<usize>)
    requires
        in_extent(i, e),
        in_extent(j, e),
        linear_offset(i, e) == linear_offset(j, e),
    ensures
        i == j,
    decreases e.len(),
{
    if e.len() == 0 {
        assert(i =~= j);
    } else {
        let (i1, j1, e1) = (i.drop_first(), j.drop_first(), e.drop_first());
        assert(in_extent(i1, e1) && in_extent(j1, e1)) by {
            assert forall|k: int| 0 <= k < e1.len() implies #[trigger] i1[k] < e1[k] && j1[k]
                < e1[k] by {
                assert(i[k + 1] < e[k + 1] && j[k + 1] < e[k + 1]);
            }
        }
        lemma_offset_in_range(i1, e1);
        lemma_offset_in_range(j1, e1);
        lemma_unfold_offset(i, e);
        lemma_unfold_offset(j, e);
        let (a, b, p) = (i[0] as int, j[0] as int, product(e1));
        let (ri, rj) = (linear_offset(i1, e1), linear_offset(j1, e1));
        assert(a == b && ri == rj) by (nonlinear_arith)
            requires
                a * p + ri == b * p + rj,
                0 <= ri < p,
                0 <= rj < p,
                0 <= a,
                0 <= b,
        ;
        lemma_offset_injective(i1, j1, e1);
        assert(i =~= j) by {
            assert forall|k: int| 0 <= k < i.len() implies i[k] == j[k] by {
                if k > 0 {
                    assert(i[k] == i1[k - 1] && j[k] == j1[k - 1]);
                }
            }
        }
    }
}

/// Row-major strides of small ranks: (C, 1) for extents (R, C), and
/// (B * C, C, 1) for extents (A, B, C).
pub proof fn lemma_row_major_strides_small_ranks(a: usize, b: usize, c: usize)
    ensures
        row_major_strides(seq![b, c]) == seq![c as int, 1],
        row_major_strides(seq![a, b, c]) == seq![b * c, c as int, 1],
{
    reveal_with_fuel(product, 3);
    reveal_with_fuel(row_major_strides, 4);
    assert(seq![b, c].drop_first() =~= seq![c]);
    assert(seq![c].drop_first() =~= Seq::<usize>::empty());
    assert(seq![a, b, c].drop_first() =~= seq![b, c]);
    assert(row_major_strides(seq![b, c]) =~= seq![c as int, 1]);
    assert(row_major_strides(seq![a, b, c]) =~= seq![b * c, c as int, 1]);
}

/// A bare integer, a pair or a triple addresses the same cell as the shape-typed
/// index holding the same values, so both linearize to the same offset.
pub proof fn lemma_index_representations_agree(i0: Ix, i1: Ix, i2: Ix)
    ensures
        <Ix as GridIndex<Dim<[Ix; 1]>>>::index_axes(&i0) == <Dim<[Ix; 1]> as GridIndex<
            Dim<[Ix; 1]>,
        >>::index_axes(&(Dim { index: [i0] })),
        <Ix2 as GridIndex<Dim<[Ix; 2]>>>::index_axes(&(i0, i1)) == <Dim<[Ix; 2]> as GridIndex<
            Dim<[Ix; 2]>,
        >>::index_axes(&(Dim { index: [i0, i1] })),
        <Ix3 as GridIndex<Dim<[Ix; 3]>>>::index_axes(&(i0, i1, i2)) == <Dim<[Ix; 3]> as GridIndex<
            Dim<[Ix; 3]>,
        >>::index_axes(&(Dim { index: [i0, i1, i2] })),
{
    assert((Dim { index: [i0] }).axes() =~= seq![i0]);
    assert((Dim { index: [i0, i1] }).axes() =~= seq![i0, i1]);
    assert((Dim { index: [i0, i1, i2] }).axes() =~= seq![i0, i1, i2]);
}

} // verus!
