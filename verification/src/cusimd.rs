//! Values that travel together through registers.
//!
//! Registers are values, not places in memory: every access copies.

use vstd::prelude::*;
use vstd::std_specs::cmp::PartialEqSpec;
use vstd::std_specs::cmp::PartialEqSpecImpl;

verus! {

/// A type whose values can travel in registers.
pub trait SimdElement: Copy + Sized {
    /// The largest number of values of this type.
    const MAX_N: usize;
}

impl SimdElement for u32 {
    const MAX_N: usize = 32;
}

impl SimdElement for i32 {
    const MAX_N: usize = 32;
}

impl SimdElement for u64 {
    const MAX_N: usize = 16;
}

impl SimdElement for i64 {
    const MAX_N: usize = 16;
}

impl SimdElement for u16 {
    const MAX_N: usize = 32;
}

impl SimdElement for i16 {
    const MAX_N: usize = 32;
}

/// `N` values of type `T` that travel together through registers.
#[derive(Clone, Copy, Debug)]
pub struct CuSimd<T: SimdElement, const N: usize> {
    data: [T; N],
}

impl<T: SimdElement, const N: usize> View for CuSimd<T, N> {
    type V = Seq<T>;

    closed spec fn view(&self) -> Seq<T> {
        self.data@
    }
}

impl<T: SimdElement, const N: usize> CuSimd<T, N> {
    /// The values of an array.
    pub closed spec fn of(data: [T; N]) -> CuSimd<T, N> {
        CuSimd { data }
    }

    /// The array of the values.
    pub closed spec fn array(self) -> [T; N] {
        self.data
    }

    /// Going to registers and back changes nothing, in either order, and the values
    /// are those of the array.
    pub proof fn arrays_round_trip(data: [T; N], simd: CuSimd<T, N>)
        ensures
            CuSimd::of(data).array() == data,
            CuSimd::of(simd.array()) == simd,
            CuSimd::of(data)@ == data@,
            simd.array()@ == simd@,
    {
    }

    /// There are `N` values, and they determine the whole.
    pub proof fn values_determine(a: CuSimd<T, N>, b: CuSimd<T, N>)
        ensures
            a@.len() == N,
            a@ == b@ ==> a == b,
    {
        if a@ == b@ {
            assert(a.data =~= b.data);
        }
    }

    /// The values of an array.
    #[inline(always)]
    pub fn new(data: [T; N]) -> (r: CuSimd<T, N>)
        ensures
            r == CuSimd::of(data),
            r@ == data@,
    {
        CuSimd { data }
    }

    /// The value at an index that is known at compile time.
    #[inline(always)]
    pub fn get<const I: usize>(&self) -> (r: T)
        requires
            I < N,
        ensures
            r == self@[I as int],
    {
        self.data[I]
    }

    /// The value at an index.
    #[inline(always)]
    pub fn at(&self, i: usize) -> (r: T)
        requires
            i < N,
        ensures
            r == self@[i as int],
    {
        self.data[i]
    }

    /// The values as an array.
    #[inline(always)]
    pub fn to_array(self) -> (r: [T; N])
        ensures
            r == self.array(),
            r@ == self@,
    {
        self.data
    }

    /// The number of values.
    #[inline(always)]
    pub fn len(&self) -> (r: usize)
        ensures
            r == N,
            r == self@.len(),
    {
        N
    }

    /// There are no values.
    #[inline(always)]
    pub fn is_empty(&self) -> (r: bool)
        ensures
            r <==> N == 0,
            r <==> self@.len() == 0,
    {
        N == 0
    }
}

impl<T: SimdElement, const N: usize> std::ops::Index<usize> for CuSimd<T, N> {
    type Output = T;

    #[inline(always)]
    fn index(&self, i: usize) -> (r: &T)
        ensures
            *r == self@[i as int],
    {
        &self.data[i]
    }
}

impl<T: SimdElement, const N: usize> vstd::std_specs::core::IndexSpecImpl<usize> for CuSimd<T, N> {
    open spec fn index_req(&self, index: &usize) -> bool {
        *index < N
    }
}

impl<T: SimdElement> CuSimd<T, 2> {
    /// The first value.
    #[inline(always)]
    pub fn x(&self) -> (r: T)
        ensures
            r == self@[0],
    {
        self.data[0]
    }

    /// The second value.
    #[inline(always)]
    pub fn y(&self) -> (r: T)
        ensures
            r == self@[1],
    {
        self.data[1]
    }

    /// Both values.
    #[inline(always)]
    pub fn xy(self) -> (r: (T, T))
        ensures
            r == (self@[0], self@[1]),
    {
        (self.data[0], self.data[1])
    }
}

impl<T: SimdElement> CuSimd<T, 4> {
    /// The first value.
    #[inline(always)]
    pub fn x(&self) -> (r: T)
        ensures
            r == self@[0],
    {
        self.data[0]
    }

    /// The second value.
    #[inline(always)]
    pub fn y(&self) -> (r: T)
        ensures
            r == self@[1],
    {
        self.data[1]
    }

    /// The third value.
    #[inline(always)]
    pub fn z(&self) -> (r: T)
        ensures
            r == self@[2],
    {
        self.data[2]
    }

    /// The fourth value.
    #[inline(always)]
    pub fn w(&self) -> (r: T)
        ensures
            r == self@[3],
    {
        self.data[3]
    }

    /// All values.
    #[inline(always)]
    pub fn xyzw(self) -> (r: (T, T, T, T))
        ensures
            r == (self@[0], self@[1], self@[2], self@[3]),
    {
        (self.data[0], self.data[1], self.data[2], self.data[3])
    }

    /// The lower half.
    #[inline(always)]
    pub fn lo(&self) -> (r: CuSimd<T, 2>)
        ensures
            r@ == self@.take(2),
    {
        let r = CuSimd::<T, 2>::new([self.data[0], self.data[1]]);
        assert(r@ =~= self@.take(2));
        r
    }

    /// The upper half.
    #[inline(always)]
    pub fn hi(&self) -> (r: CuSimd<T, 2>)
        ensures
            r@ == self@.skip(2),
    {
        let r = CuSimd::<T, 2>::new([self.data[2], self.data[3]]);
        assert(r@ =~= self@.skip(2));
        r
    }
}

/// Two 32-bit signed integers.
pub type Int2 = CuSimd<i32, 2>;

/// Four 32-bit signed integers.
pub type Int4 = CuSimd<i32, 4>;

/// Two 32-bit unsigned integers.
pub type Uint2 = CuSimd<u32, 2>;

/// Four 32-bit unsigned integers.
pub type Uint4 = CuSimd<u32, 4>;

/// `<[T; N]>::try_from(Vec<T>)`: the vector's items, in their order, where there
/// are exactly `N` of them.
#[verifier::external_body]
fn array_of<T, const N: usize>(values: Vec<T>) -> (r: [T; N])
    requires
        values@.len() == N,
    ensures
        r@ == values@,
{
    <[T; N]>::try_from(values).ok().unwrap()
}

/// Every value is a default of its own: `T::default` is called once for each, from
/// the first to the last.
impl<T: SimdElement + Default, const N: usize> Default for CuSimd<T, N> {
    fn default() -> (r: CuSimd<T, N>)
        ensures
            forall|i: int| 0 <= i < N ==> call_ensures(T::default, (), #[trigger] r@[i]),
    {
        let mut values: Vec<T> = Vec::new();
        while values.len() < N
            invariant
                values.len() <= N,
                forall|i: int|
                    0 <= i < values.len() ==> call_ensures(T::default, (), #[trigger] values@[i]),
            decreases N - values.len(),
        {
            values.push(T::default());
        }
        CuSimd { data: array_of(values) }
    }
}

impl<T: SimdElement + PartialEq, const N: usize> PartialEq for CuSimd<T, N> {
    fn eq(&self, other: &Self) -> (r: bool) {
        let mut i: usize = 0;
        while i < N
            invariant
                i <= N,
                T::obeys_eq_spec() ==> forall|j: int|
                    0 <= j < i ==> (#[trigger] self@[j]).eq_spec(&other@[j]),
            decreases N - i,
        {
            if self.data[i] != other.data[i] {
                assert(T::obeys_eq_spec() ==> !self@[i as int].eq_spec(&other@[i as int]));
                return false;
            }
            i += 1;
        }
        true
    }
}

impl<T: SimdElement + PartialEq, const N: usize> PartialEqSpecImpl for CuSimd<T, N> {
    open spec fn obeys_eq_spec() -> bool {
        T::obeys_eq_spec()
    }

    open spec fn eq_spec(&self, other: &Self) -> bool {
        forall|j: int| 0 <= j < N ==> (#[trigger] self@[j]).eq_spec(&other@[j])
    }
}

impl<T: SimdElement + Eq, const N: usize> Eq for CuSimd<T, N> {

}

impl<T: SimdElement, const N: usize> From<[T; N]> for CuSimd<T, N> {
    #[inline(always)]
    fn from(data: [T; N]) -> (r: CuSimd<T, N>) {
        CuSimd { data }
    }
}

impl<T: SimdElement, const N: usize> vstd::std_specs::convert::FromSpecImpl<[T; N]> for CuSimd<T, N> {
    open spec fn obeys_from_spec() -> bool {
        true
    }

    open spec fn from_spec(data: [T; N]) -> CuSimd<T, N> {
        CuSimd::of(data)
    }
}

impl<T: SimdElement, const N: usize> From<CuSimd<T, N>> for [T; N] {
    #[inline(always)]
    fn from(simd: CuSimd<T, N>) -> (r: [T; N]) {
        simd.data
    }
}

impl<T: SimdElement, const N: usize> vstd::std_specs::convert::FromSpecImpl<CuSimd<T, N>> for [T; N] {
    open spec fn obeys_from_spec() -> bool {
        true
    }

    open spec fn from_spec(simd: CuSimd<T, N>) -> [T; N] {
        simd.array()
    }
}

// ---------------------------------------------------------------------------
// Laws
// ---------------------------------------------------------------------------

/// The halves of four values, put together, are the four values.
pub proof fn halves_make_the_whole<T: SimdElement>(
    whole: CuSimd<T, 4>,
    lo: CuSimd<T, 2>,
    hi: CuSimd<T, 2>,
)
    requires
        lo@ == whole@.take(2),
        hi@ == whole@.skip(2),
    ensures
        lo@ + hi@ == whole@,
{
    assert(lo@ + hi@ =~= whole@);
}

/// Comparison is reflexive where the comparison of the values is.
pub proof fn equality_is_reflexive<T: SimdElement + PartialEq, const N: usize>(a: CuSimd<T, N>)
    requires
        forall|x: T| #[trigger] x.eq_spec(&x),
    ensures
        PartialEqSpec::eq_spec(&a, &a),
{
}

/// Four values go to registers and come back one by one in the order of the array.
pub proof fn four_values_come_back_in_order<T: SimdElement>(
    data: [T; 4],
    simd: CuSimd<T, 4>,
    x: T,
    y: T,
    z: T,
    w: T,
    all: (T, T, T, T),
    lo: CuSimd<T, 2>,
    hi: CuSimd<T, 2>,
)
    requires
        call_ensures(CuSimd::<T, 4>::new, (data,), simd),
        call_ensures(CuSimd::<T, 4>::x, (&simd,), x),
        call_ensures(CuSimd::<T, 4>::y, (&simd,), y),
        call_ensures(CuSimd::<T, 4>::z, (&simd,), z),
        call_ensures(CuSimd::<T, 4>::w, (&simd,), w),
        call_ensures(CuSimd::<T, 4>::xyzw, (simd,), all),
        call_ensures(CuSimd::<T, 4>::lo, (&simd,), lo),
        call_ensures(CuSimd::<T, 4>::hi, (&simd,), hi),
    ensures
        x == data@[0],
        y == data@[1],
        z == data@[2],
        w == data@[3],
        all == (data@[0], data@[1], data@[2], data@[3]),
        lo@ == seq![data@[0], data@[1]],
        hi@ == seq![data@[2], data@[3]],
{
    assert(lo@ =~= seq![data@[0], data@[1]]);
    assert(hi@ =~= seq![data@[2], data@[3]]);
}

/// Two values go to registers and come back one by one in the order of the array.
pub proof fn two_values_come_back_in_order<T: SimdElement>(
    data: [T; 2],
    simd: CuSimd<T, 2>,
    x: T,
    y: T,
    both: (T, T),
)
    requires
        call_ensures(CuSimd::<T, 2>::new, (data,), simd),
        call_ensures(CuSimd::<T, 2>::x, (&simd,), x),
        call_ensures(CuSimd::<T, 2>::y, (&simd,), y),
        call_ensures(CuSimd::<T, 2>::xy, (simd,), both),
    ensures
        x == data@[0],
        y == data@[1],
        both == (data@[0], data@[1]),
{
}

/// Any number of values goes to registers and comes back by index and as a whole.
pub proof fn values_come_back_by_index<T: SimdElement, const N: usize>(
    data: [T; N],
    simd: CuSimd<T, N>,
    i: usize,
    value: T,
    back: [T; N],
    len: usize,
)
    requires
        i < N,
        call_ensures(CuSimd::<T, N>::new, (data,), simd),
        call_ensures(CuSimd::<T, N>::at, (&simd, i), value),
        call_ensures(CuSimd::<T, N>::to_array, (simd,), back),
        call_ensures(CuSimd::<T, N>::len, (&simd,), len),
    ensures
        value == data@[i as int],
        back@ == data@,
        len == N,
{
}

}
