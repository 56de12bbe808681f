use vstd::prelude::*;

verus! {

/// The fewest back buffers a flip-model swap chain takes.
pub const MIN_FRAME_COUNT: u32 = 2;

/// The most back buffers a swap chain takes.
pub const MAX_FRAME_COUNT: u32 = 16;

/// Address of descriptor slot `index` in a heap that starts at `base`.
pub open spec fn slot_address(base: nat, stride: nat, index: nat) -> nat {
    base + index * stride
}

/// The render-target-view heap: `count` contiguous slots of `stride` bytes
/// from `base`, slot `i` describing back buffer `i`.
#[derive(Clone, Copy, PartialEq, Eq, Structural, Debug)]
pub struct DescriptorHeap {
    pub base: usize,
    pub stride: usize,
    pub count: u32,
}

impl DescriptorHeap {
    /// Every slot address fits in a `usize`.
    pub open spec fn wf(&self) -> bool {
        slot_address(self.base as nat, self.stride as nat, self.count as nat) <= usize::MAX
    }

    /// The heap that the device laid out from `base` with `stride`; `None`
    /// where the last slot would lie past the end of the address space.
    pub fn new(base: usize, stride: usize, count: u32) -> (r: Option<DescriptorHeap>)
        ensures
            r is Some <==> slot_address(base as nat, stride as nat, count as nat) <= usize::MAX,
            r matches Some(h) ==> h.wf() && h.base == base && h.stride == stride && h.count == count,
    {
        let span = (count as usize).checked_mul(stride);
        match span {
            Some(span) => match span.checked_add(base) {
                Some(_) => Some(DescriptorHeap { base, stride, count }),
                None => None,
            },
            None => None,
        }
    }

    /// The address of slot `index`.
    pub fn slot(&self, index: u32) -> (r: usize)
        requires
            self.wf(),
            index < self.count,
        ensures
            r as nat == slot_address(self.base as nat, self.stride as nat, index as nat),
    {
        proof {
            lemma_slot_below(self.base as nat, self.stride as nat, index as nat, self.count as nat);
        }
        self.base + (index as usize) * self.stride
    }

    /// The address of every slot, in order.
    pub fn slots(&self) -> (r: Vec<usize>)
        requires
            self.wf(),
        ensures
            r@.len() == self.count,
            forall|i: int|
                0 <= i < r@.len() ==> #[trigger] r@[i] as nat == slot_address(
                    self.base as nat,
                    self.stride as nat,
                    i as nat,
                ),
    {
        let mut r: Vec<usize> = Vec::new();
        let mut i: u32 = 0;
        while i < self.count
            invariant
                self.wf(),
                i <= self.count,
                r@.len() == i,
                forall|k: int|
                    0 <= k < r@.len() ==> #[trigger] r@[k] as nat == slot_address(
                        self.base as nat,
                        self.stride as nat,
                        k as nat,
                    ),
            decreases self.count - i,
        {
            let a = self.slot(i);
            r.push(a);
            i = i + 1;
        }
        r
    }
}

/// A slot below the heap's count lies no further than the end of the heap.
pub proof fn lemma_slot_below(base: nat, stride: nat, index: nat, count: nat)
    requires
        index <= count,
    ensures
        slot_address(base, stride, index) <= slot_address(base, stride, count),
{
    assert(index * stride <= count * stride) by (nonlinear_arith)
        requires
            index <= count,
    ;
}

/// With a non-zero stride, distinct back buffers get distinct slots.
pub proof fn lemma_slots_distinct(base: nat, stride: nat, i: nat, j: nat)
    requires
        stride > 0,
        i != j,
    ensures
        slot_address(base, stride, i) != slot_address(base, stride, j),
{
    if i < j {
        assert(i * stride < j * stride) by (nonlinear_arith)
            requires
                i < j,
                stride > 0,
        ;
    } else {
        assert(j * stride < i * stride) by (nonlinear_arith)
            requires
                j < i,
                stride > 0,
        ;
    }
}

/// After the heap is filled for `count` buffers there are exactly `count`
/// slots, and each belongs to a different back buffer.
pub proof fn lemma_heap_slots(heap: DescriptorHeap, slots: Seq<usize>)
    requires
        heap.wf(),
        heap.stride > 0,
        slots.len() == heap.count,
        forall|i: int|
            0 <= i < slots.len() ==> #[trigger] slots[i] as nat == slot_address(
                heap.base as nat,
                heap.stride as nat,
                i as nat,
            ),
    ensures
        slots.len() == heap.count,
        forall|i: int, j: int| 0 <= i < j < slots.len() ==> slots[i] != slots[j],
{
    assert forall|i: int, j: int| 0 <= i < j < slots.len() implies slots[i] != slots[j] by {
        lemma_slots_distinct(heap.base as nat, heap.stride as nat, i as nat, j as nat);
    }
}

} // verus!
