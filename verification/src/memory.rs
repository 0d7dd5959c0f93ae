//! The segmented memory manager.
//!
//! Memory is a growable table of optional word segments, addressed by
//! small non-negative identifiers, together with a FIFO queue of freed
//! identifiers. Identifier 0 always holds the executing program text: it
//! is never freed and never handed out by allocation. Freed identifiers
//! are reused oldest first, and a reused identifier is always rebound to a
//! freshly zero-filled segment.

use std::collections::VecDeque;
use vstd::prelude::*;

use crate::machine::Fault;

verus! {

/// The machine's segmented memory.
pub struct Memory {
    /// The segment table: entry `id` is `Some` while `id` is mapped.
    pub segs: Vec<Option<Vec<u32>>>,
    /// Freed identifiers awaiting reuse, oldest first.
    pub unmapped_segs: VecDeque<usize>,
}

impl Memory {
    /// Whether `id` currently names a mapped segment.
    pub open spec fn mapped(self, id: int) -> bool {
        0 <= id < self.segs@.len() && self.segs@[id] is Some
    }

    /// The words of the segment mapped at `id`.
    pub open spec fn seg(self, id: int) -> Seq<u32>
        recommends
            self.mapped(id),
    {
        self.segs@[id]->0@
    }

    /// The queue of freed identifiers, oldest first.
    pub open spec fn free(self) -> Seq<usize> {
        self.unmapped_segs@
    }

    /// The identifier that the next allocation will bind: the oldest freed
    /// identifier if any is queued, else one past the current maximum.
    pub open spec fn next_id(self) -> int {
        if self.free().len() > 0 {
            self.free()[0] as int
        } else {
            self.segs@.len() as int
        }
    }

    /// Whether an allocation can proceed without growing the segment table
    /// beyond the range of 32-bit identifiers.
    pub open spec fn can_allocate(self) -> bool {
        self.free().len() > 0 || self.segs@.len() < 0x1_0000_0000
    }

    /// Well-formedness: segment 0 is mapped; the segment table fits the
    /// 32-bit identifier space; every queued identifier is a non-zero,
    /// in-range, unmapped identifier; and no identifier is queued twice.
    pub open spec fn wf(self) -> bool {
        &&& self.segs@.len() >= 1
        &&& self.segs@.len() <= 0x1_0000_0000
        &&& self.segs@[0] is Some
        &&& forall|i: int|
            0 <= i < self.free().len() ==> {
                &&& 0 < self.free()[i] < self.segs@.len()
                &&& self.segs@[self.free()[i] as int] is None
            }
        &&& forall|i: int, j: int|
            0 <= i < j < self.free().len() ==> self.free()[i] != self.free()[j]
    }

    /// Whether the next allocation can be served from the 32-bit
    /// identifier space; allocation asks for this.
    pub fn has_capacity(&self) -> (r: bool)
        ensures
            r == self.can_allocate(),
    {
        self.unmapped_segs.len() > 0 || (self.segs.len() as u64) < 0x1_0000_0000u64
    }

    /// Memory fresh from the constructor: the program text alone, mapped
    /// at identifier 0, with an empty reuse queue.
    pub fn new(instructions: Vec<u32>) -> (r: Memory)
        ensures
            r.wf(),
            r.segs@.len() == 1,
            r.seg(0) == instructions@,
            r.free().len() == 0,
    {
        let mut segs: Vec<Option<Vec<u32>>> = Vec::new();
        segs.push(Some(instructions));
        Memory { segs, unmapped_segs: VecDeque::new() }
    }

    /// Reads the word at `offset` in the segment mapped at `id`.
    ///
    /// Returns the word exactly when `id` is mapped and `offset` lies
    /// inside the segment; every other pair faults with `OutOfBounds`.
    pub fn get(&self, id: u32, offset: u32) -> (r: Result<u32, Fault>)
        ensures
            r is Ok <==> self.mapped(id as int) && (offset as int) < self.seg(id as int).len(),
            r is Ok ==> r->Ok_0 == self.seg(id as int)[offset as int],
            r is Err ==> r->Err_0 == Fault::OutOfBounds,
    {
        if (id as usize) < self.segs.len() {
            match &self.segs[id as usize] {
                Some(seg) => {
                    if (offset as usize) < seg.len() {
                        Ok(seg[offset as usize])
                    } else {
                        Err(Fault::OutOfBounds)
                    }
                },
                None => Err(Fault::OutOfBounds),
            }
        } else {
            Err(Fault::OutOfBounds)
        }
    }

    /// Writes `val` at `offset` in the segment mapped at `id`.
    ///
    /// Succeeds exactly when `id` is mapped and `offset` lies inside the
    /// segment; every other pair faults with `OutOfBounds` and leaves the
    /// memory unchanged.
    pub fn set(&mut self, id: u32, offset: u32, val: u32) -> (r: Result<(), Fault>)
        ensures
            r is Ok <==> old(self).mapped(id as int) && (offset as int) < old(self).seg(
                id as int,
            ).len(),
            r is Ok ==> set_post(*old(self), *final(self), id as int, offset as int, val),
            r is Err ==> r->Err_0 == Fault::OutOfBounds && *final(self) == *old(self),
            old(self).wf() ==> final(self).wf(),
    {
        let idu = id as usize;
        if idu < self.segs.len() {
            let in_range: bool = match &self.segs[idu] {
                Some(seg) => (offset as usize) < seg.len(),
                None => false,
            };
            if in_range {
                let entry = &mut self.segs[idu];
                match entry {
                    Some(seg) => {
                        seg.set(offset as usize, val);
                    },
                    None => {},
                }
                return Ok(());
            }
            Err(Fault::OutOfBounds)
        } else {
            Err(Fault::OutOfBounds)
        }
    }

    /// Creates a zero-filled segment of `len` words and binds it to the
    /// oldest freed identifier, or to a brand-new identifier when none is
    /// queued. The chosen identifier is never 0.
    pub fn allocate(&mut self, len: usize) -> (id: usize)
        requires
            old(self).wf(),
            old(self).can_allocate(),
        ensures
            final(self).wf(),
            alloc_post(*old(self), *final(self), len as int, id as int),
    {
        let mut new_seg: Vec<u32> = Vec::new();
        let mut i: usize = 0;
        while i < len
            invariant
                i <= len,
                new_seg@ == Seq::new(i as nat, |j: int| 0u32),
            decreases len - i,
        {
            new_seg.push(0);
            proof {
                assert(new_seg@ =~= Seq::new((i + 1) as nat, |j: int| 0u32));
            }
            i = i + 1;
        }
        match self.unmapped_segs.pop_front() {
            Some(o) => {
                self.segs.set(o, Some(new_seg));
                o
            },
            None => {
                self.segs.push(Some(new_seg));
                self.segs.len() - 1
            },
        }
    }

    /// Unmaps the segment at `id` and queues `id` for reuse.
    ///
    /// Faults with `InvalidDeallocation`, leaving the memory unchanged,
    /// exactly when `id` is 0 or is not currently mapped; identifier 0 can
    /// never be freed.
    pub fn deallocate(&mut self, id: usize) -> (r: Result<(), Fault>)
        requires
            old(self).wf(),
        ensures
            final(self).wf(),
            r is Ok <==> id != 0 && old(self).mapped(id as int),
            r is Ok ==> dealloc_post(*old(self), *final(self), id),
            r is Err ==> r->Err_0 == Fault::InvalidDeallocation && *final(self) == *old(self),
    {
        if id == 0 || id >= self.segs.len() {
            return Err(Fault::InvalidDeallocation);
        }
        let is_mapped: bool = match &self.segs[id] {
            Some(_) => true,
            None => false,
        };
        if !is_mapped {
            return Err(Fault::InvalidDeallocation);
        }
        self.segs.set(id, None);
        self.unmapped_segs.push_back(id);
        proof {
            assert(forall|i: int|
                0 <= i < old(self).free().len() ==> old(self).free()[i] != id);
        }
        Ok(())
    }

    /// Replaces the contents of segment 0 wholesale with a copy of the
    /// segment mapped at `src`; the copy is independent storage. With
    /// `src` equal to 0 the contents are unchanged.
    ///
    /// Faults with `OutOfBounds`, leaving the memory unchanged, exactly
    /// when `src` is not mapped.
    pub fn duplicate_into_zero(&mut self, src: usize) -> (r: Result<(), Fault>)
        requires
            old(self).wf(),
        ensures
            final(self).wf(),
            r is Ok <==> old(self).mapped(src as int),
            r is Ok ==> dup_post(*old(self), *final(self), src as int),
            r is Err ==> r->Err_0 == Fault::OutOfBounds && *final(self) == *old(self),
    {
        if src == 0 {
            return Ok(());
        }
        if src >= self.segs.len() {
            return Err(Fault::OutOfBounds);
        }
        let mut copy: Vec<u32> = Vec::new();
        match &self.segs[src] {
            Some(seg) => {
                let n = seg.len();
                let mut i: usize = 0;
                while i < n
                    invariant
                        i <= n,
                        n == seg@.len(),
                        copy@ == seg@.subrange(0, i as int),
                    decreases n - i,
                {
                    copy.push(seg[i]);
                    proof {
                        assert(copy@ =~= seg@.subrange(0, i + 1));
                    }
                    i = i + 1;
                }
                proof {
                    assert(copy@ =~= seg@);
                }
            },
            None => {
                return Err(Fault::OutOfBounds);
            },
        }
        self.segs.set(0, Some(copy));
        Ok(())
    }
}

/// How a successful word write changes the memory: the one word changes
/// and everything else is kept.
pub open spec fn set_post(pre: Memory, post: Memory, id: int, offset: int, val: u32) -> bool {
    &&& post.segs@.len() == pre.segs@.len()
    &&& post.seg(id) == pre.seg(id).update(offset, val)
    &&& post.mapped(id)
    &&& forall|j: int| 0 <= j < pre.segs@.len() && j != id ==> post.segs@[j] == pre.segs@[j]
    &&& post.free() == pre.free()
}

/// How an allocation changes the memory: the oldest freed identifier (or
/// a brand-new one) is bound to a zero-filled segment of the requested
/// length, and everything else is kept.
pub open spec fn alloc_post(pre: Memory, post: Memory, len: int, id: int) -> bool {
    &&& id != 0
    &&& id == pre.next_id()
    &&& post.mapped(id)
    &&& post.seg(id) == Seq::new(len as nat, |j: int| 0u32)
    &&& if pre.free().len() > 0 {
        post.free() == pre.free().skip(1) && post.segs@.len() == pre.segs@.len()
    } else {
        post.free() == pre.free() && post.segs@.len() == pre.segs@.len() + 1
    }
    &&& forall|j: int| 0 <= j < pre.segs@.len() && j != id ==> post.segs@[j] == pre.segs@[j]
}

/// How a successful deallocation changes the memory: the identifier's
/// entry becomes absent, the identifier joins the tail of the reuse
/// queue, and everything else is kept.
pub open spec fn dealloc_post(pre: Memory, post: Memory, id: usize) -> bool {
    &&& post.segs@ == pre.segs@.update(id as int, None)
    &&& post.free() == pre.free().push(id)
}

/// How a successful program duplication changes the memory: segment 0
/// holds a copy of the source segment and everything else is kept.
pub open spec fn dup_post(pre: Memory, post: Memory, src: int) -> bool {
    &&& post.segs@.len() == pre.segs@.len()
    &&& post.mapped(0)
    &&& post.seg(0) == pre.seg(src)
    &&& forall|j: int| 0 < j < pre.segs@.len() ==> post.segs@[j] == pre.segs@[j]
    &&& post.free() == pre.free()
}

/// Law: with an empty reuse queue, freeing identifier `a` and then
/// identifier `b` makes the next two allocations return `a` and then `b`,
/// in that order — freed identifiers are reused first in, first out.
pub proof fn lemma_fifo_reuse(
    m0: Memory,
    m1: Memory,
    m2: Memory,
    m3: Memory,
    m4: Memory,
    a: usize,
    b: usize,
    len1: int,
    len2: int,
    id1: int,
    id2: int,
)
    requires
        m0.free().len() == 0,
        dealloc_post(m0, m1, a),
        dealloc_post(m1, m2, b),
        alloc_post(m2, m3, len1, id1),
        alloc_post(m3, m4, len2, id2),
    ensures
        id1 == a as int,
        id2 == b as int,
{
    assert(m2.free() =~= seq![a, b]);
    assert(m3.free() =~= seq![b]);
}

} // verus!
