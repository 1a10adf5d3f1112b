use vstd::prelude::*;

verus! {

/// `size` rounded up to a multiple of `align`.
pub open spec fn aligned(size: u64, align: u64) -> int
    recommends
        align > 0,
{
    if size % align == 0 { size as int } else { (size - size % align) + align }
}

/// Where a block was written, and whether the buffer had to grow for it.
#[derive(Clone, Copy, Debug, PartialEq, Eq, Structural)]
pub struct SlotWrite {
    pub offset: u64,
    pub reallocated: bool,
}

/// Many fixed-size uniform blocks packed into one buffer at a stable stride.
/// A block is addressed by its slot; the buffer grows to hold any slot that
/// is written, which discards every block written so far, and never shrinks.
/// Each frame starts with no valid block.
#[derive(Clone, Debug)]
pub struct DynamicUniformBuffer {
    stride: u64,
    written: Vec<bool>,
}

impl DynamicUniformBuffer {
    /// Bytes between the starts of two consecutive slots.
    pub closed spec fn stride_spec(&self) -> u64 {
        self.stride
    }

    /// For each allocated slot, whether it holds a block of this frame.
    pub closed spec fn valid_slots(&self) -> Seq<bool> {
        self.written@
    }

    pub open spec fn wf(&self) -> bool {
        self.stride_spec() > 0
    }

    /// A buffer of one slot for blocks of `block_size` bytes, each slot
    /// starting at a multiple of `alignment`.
    pub fn new(block_size: u64, alignment: u64) -> (r: DynamicUniformBuffer)
        requires
            alignment > 0,
            block_size > 0,
            block_size + alignment <= u64::MAX,
        ensures
            r.wf(),
            r.stride_spec() == aligned(block_size, alignment),
            r.valid_slots() == seq![false],
    {
        let rem = block_size % alignment;
        assert(rem <= block_size) by (nonlinear_arith)
            requires
                rem == block_size % alignment,
                alignment > 0,
        ;
        let stride = if rem == 0 { block_size } else { block_size - rem + alignment };
        let mut written: Vec<bool> = Vec::new();
        written.push(false);
        assert(written@ =~= seq![false]);
        DynamicUniformBuffer { stride, written }
    }

    /// Bytes between the starts of two consecutive slots.
    pub fn stride(&self) -> (r: u64)
        ensures
            r == self.stride_spec(),
    {
        self.stride
    }

    /// Number of slots the buffer holds.
    pub fn capacity(&self) -> (r: usize)
        ensures
            r == self.valid_slots().len(),
    {
        self.written.len()
    }

    /// Whether `slot` holds a block written this frame.
    pub fn is_valid(&self, slot: usize) -> (r: bool)
        ensures
            r == (slot < self.valid_slots().len() && self.valid_slots()[slot as int]),
    {
        slot < self.written.len() && self.written[slot]
    }

    /// Records a block written at `slot` and returns its byte offset. When
    /// `slot` lies past the end the buffer grows to end at it, and every
    /// other slot must be written again.
    pub fn write(&mut self, slot: usize) -> (r: SlotWrite)
        requires
            old(self).wf(),
            (slot + 1) * old(self).stride_spec() <= u64::MAX,
        ensures
            final(self).wf(),
            final(self).stride_spec() == old(self).stride_spec(),
            r.offset == slot * old(self).stride_spec(),
            r.reallocated == (slot >= old(self).valid_slots().len()),
            !r.reallocated ==> final(self).valid_slots() == old(self).valid_slots().update(slot as int, true),
            r.reallocated ==> final(self).valid_slots().len() == slot + 1 && forall|i: int|
                0 <= i <= slot ==> #[trigger] final(self).valid_slots()[i] == (i == slot),
    {
        proof {
            assert(slot * self.stride <= (slot + 1) * self.stride) by (nonlinear_arith);
        }
        let offset = slot as u64 * self.stride;
        if slot < self.written.len() {
            self.written.set(slot, true);
            SlotWrite { offset, reallocated: false }
        } else {
            let mut written: Vec<bool> = Vec::new();
            let mut i: usize = 0;
            while i < slot
                invariant
                    i <= slot,
                    written@.len() == i,
                    forall|k: int| 0 <= k < i ==> #[trigger] written@[k] == false,
                decreases slot - i,
            {
                written.push(false);
                i = i + 1;
            }
            written.push(true);
            self.written = written;
            SlotWrite { offset, reallocated: true }
        }
    }

    /// Starts a frame: no slot holds a valid block, and the capacity is kept.
    pub fn clear(&mut self)
        requires
            old(self).wf(),
        ensures
            final(self).wf(),
            final(self).stride_spec() == old(self).stride_spec(),
            final(self).valid_slots().len() == old(self).valid_slots().len(),
            forall|i: int| 0 <= i < final(self).valid_slots().len() ==> !#[trigger] final(self).valid_slots()[i],
    {
        let n = self.written.len();
        let mut i: usize = 0;
        while i < n
            invariant
                n == self.written@.len(),
                i <= n,
                self.stride == old(self).stride,
                n == old(self).written@.len(),
                forall|k: int| 0 <= k < i ==> !#[trigger] self.written@[k],
            decreases n - i,
        {
            self.written.set(i, false);
            i = i + 1;
        }
    }
}

} // verus!
