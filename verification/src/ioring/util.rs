use vstd::prelude::*;

verus! {

/// The place, counted in elements, that offset `idx` reaches when offsets step `stride`
/// elements at a time.
pub open spec fn offset_slot(stride: int, idx: int) -> int {
    stride * idx
}

/// A run of `T` values laid out one after another, reached by offsets from its first element.
/// One offset steps over `stride` elements: the size of one element, counted in elements, in
/// the memory the run lives in. The run always holds at least its first element.
pub struct Array<T> {
    first: T,
    rest: Vec<T>,
    stride: usize,
}

impl<T> View for Array<T> {
    type V = Seq<T>;

    closed spec fn view(&self) -> Seq<T> {
        seq![self.first] + self.rest@
    }
}

impl<T> Array<T> {
    /// How many elements one offset steps over.
    pub closed spec fn spec_stride(&self) -> int {
        self.stride as int
    }

    /// The run holding `items`, in order, in memory laid out by `T` itself: one offset steps
    /// over the size of `T`.
    pub fn from_vec(items: Vec<T>) -> (r: Array<T>)
        requires
            items@.len() >= 1,
        ensures
            r@ == items@,
            r.spec_stride() == vstd::layout::size_of::<T>(),
    {
        Self::with_stride(items, std::mem::size_of::<T>())
    }

    /// The run holding `items`, in order, mirroring memory where one element takes `stride`
    /// elements' room: one offset steps over `stride` elements.
    pub fn with_stride(items: Vec<T>, stride: usize) -> (r: Array<T>)
        requires
            items@.len() >= 1,
        ensures
            r@ == items@,
            r.spec_stride() == stride,
    {
        let mut rest: Vec<T> = items;
        let first: T = rest.remove(0);
        let r = Array { first, rest, stride };
        assert(r@ =~= items@);
        r
    }

    /// How many elements one offset steps over.
    pub fn stride(&self) -> (r: usize)
        ensures
            r == self.spec_stride(),
    {
        self.stride
    }

    /// The number of elements; never zero.
    pub fn len(&self) -> (r: usize)
        requires
            self@.len() <= usize::MAX,
        ensures
            r == self@.len(),
            r >= 1,
    {
        self.rest.len() + 1
    }

    /// The element at offset `idx`: the one `offset_slot(stride, idx)` places from the start.
    /// Offset 0 is always there, and reaches the first element.
    pub fn get_offset(&self, idx: isize) -> (r: &T)
        requires
            0 <= idx,
            idx == 0 || offset_slot(self.spec_stride(), idx as int) < self@.len(),
        ensures
            *r == self@[offset_slot(self.spec_stride(), idx as int)],
            *r == self@[self.spec_stride() * idx],
            idx == 0 ==> *r == self@[0],
    {
        let slot: usize = Self::slot_of(self.stride, idx, self.rest.len());
        if slot == 0 {
            &self.first
        } else {
            &self.rest[slot - 1]
        }
    }

    /// Writes `value` at offset `idx`, the place `offset_slot(stride, idx)`; every other
    /// element stays as it was.
    pub fn set_offset(&mut self, idx: isize, value: T)
        requires
            0 <= idx,
            idx == 0 || offset_slot(old(self).spec_stride(), idx as int) < old(self)@.len(),
        ensures
            final(self)@ == old(self)@.update(offset_slot(old(self).spec_stride(), idx as int), value),
            final(self)@ == old(self)@.update(old(self).spec_stride() * idx, value),
            final(self).spec_stride() == old(self).spec_stride(),
    {
        let slot: usize = Self::slot_of(self.stride, idx, self.rest.len());
        if slot == 0 {
            self.first = value;
        } else {
            self.rest.set(slot - 1, value);
        }
        assert(self@ =~= old(self)@.update(offset_slot(old(self).spec_stride(), idx as int), value));
    }

    /// The place of offset `idx`, in a run of `rest_len` elements after the first.
    fn slot_of(stride: usize, idx: isize, rest_len: usize) -> (r: usize)
        requires
            0 <= idx,
            idx == 0 || offset_slot(stride as int, idx as int) < rest_len + 1,
        ensures
            r == offset_slot(stride as int, idx as int),
            r <= rest_len,
    {
        if idx == 0 {
            assert(offset_slot(stride as int, 0) == 0);
            return 0;
        }
        let i: usize = idx as usize;
        assert(stride * i == offset_slot(stride as int, idx as int));
        stride * i
    }
}

/// Offset `idx` lies `stride * idx` elements from the start: each further offset steps exactly
/// `stride` elements further, from the first element at offset 0.
pub proof fn lemma_offset_slot_steps_by_stride(stride: int, idx: int)
    ensures
        offset_slot(stride, idx) == stride * idx,
        offset_slot(stride, 0) == 0,
        offset_slot(stride, idx + 1) == offset_slot(stride, idx) + stride,
{
    assert(stride * (idx + 1) == stride * idx + stride) by (nonlinear_arith);
}

/// Every run holds its first element.
pub proof fn lemma_array_holds_first<T>(a: Array<T>)
    ensures
        a@.len() >= 1,
{
}

/// Offset 0 reaches the first element, whatever the stride.
pub proof fn lemma_offset_zero_is_first(stride: int)
    ensures
        offset_slot(stride, 0) == 0,
{
}

/// Reading an offset gives back what was last written there, and a write at one offset leaves
/// every element at another place unchanged. With a non-zero stride, different offsets reach
/// different places, so a write at one offset never disturbs a read at another.
pub proof fn lemma_read_after_write<T>(items: Seq<T>, stride: int, i: int, j: int, value: T)
    requires
        0 <= i,
        0 <= j,
        0 <= offset_slot(stride, i) < items.len(),
        0 <= offset_slot(stride, j) < items.len(),
    ensures
        items.update(offset_slot(stride, i), value)[offset_slot(stride, i)] == value,
        offset_slot(stride, i) != offset_slot(stride, j) ==> items.update(offset_slot(stride, i), value)[offset_slot(stride, j)]
            == items[offset_slot(stride, j)],
        stride > 0 && i != j ==> offset_slot(stride, i) != offset_slot(stride, j),
{
    if stride > 0 && i != j {
        assert(stride * i != stride * j) by (nonlinear_arith)
            requires
                stride > 0,
                i != j,
        ;
    }
}

} // verus!
