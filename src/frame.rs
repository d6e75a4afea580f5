//! The emulated physical address space and its page-frame allocator.
use std::collections::VecDeque;
use vstd::prelude::*;

verus! {

/// Size of one page frame.
pub const PAGE_SIZE: usize = 0x1000;

/// Size of the emulated physical address space (1 GiB).
pub const PMEM_SIZE: usize = 0x4000_0000;

/// Number of page frames in the emulated physical address space.
pub const PAGE_COUNT: usize = 0x40000;

/// Host virtual address at which physical address 0 is mapped.
pub const PMEM_BASE: u64 = 0x8_0000_0000;

/// An address the allocator may hand out: page-aligned, inside the
/// physical range, and not the reserved zero page.
pub open spec fn is_frame_addr(a: int) -> bool {
    PAGE_SIZE <= a < PMEM_SIZE && a % (PAGE_SIZE as int) == 0
}

/// Host virtual address of physical address `paddr`.
pub fn phys_to_virt(paddr: usize) -> (r: u64)
    requires
        paddr <= PMEM_SIZE,
    ensures
        r == PMEM_BASE + paddr,
{
    PMEM_BASE + paddr as u64
}

/// Whether `[paddr, paddr + len)` lies inside the physical address space.
pub fn range_in_pmem(paddr: usize, len: usize) -> (r: bool)
    ensures
        r == (paddr + len <= PMEM_SIZE),
{
    len <= PMEM_SIZE && paddr <= PMEM_SIZE - len
}

/// Page protection bits, as the host's `mmap` takes them.
pub const PROT_READ: i32 = 1;
pub const PROT_WRITE: i32 = 2;
pub const PROT_EXEC: i32 = 4;

/// Protection to request for a mapping. Where the host needs it
/// (`exec_needs_write`), write permission is added to any executable
/// request, so that code pages such as the v-DSO can still be patched.
pub fn mmap_prot(prot: i32, exec_needs_write: bool) -> (r: i32)
    ensures
        r == (if exec_needs_write && prot & PROT_EXEC != 0 {
            prot | PROT_WRITE
        } else {
            prot
        }),
{
    if exec_needs_write && prot & PROT_EXEC != 0 {
        prot | PROT_WRITE
    } else {
        prot
    }
}

/// One exclusively owned page frame. It can only be obtained from
/// `PhysFrame::allocate` and is given back, once, by `PhysFrame::dealloc`.
#[derive(Debug)]
pub struct PhysFrame {
    paddr: usize,
}

impl View for PhysFrame {
    type V = usize;

    closed spec fn view(&self) -> usize {
        self.paddr
    }
}

/// The registry of free frames, in the order they will be handed out,
/// together with the set of frames that are currently live.
pub struct FrameAllocator {
    free: VecDeque<usize>,
    live: Ghost<Set<usize>>,
}

impl FrameAllocator {
    /// Free frames, front first.
    pub closed spec fn free_frames(&self) -> Seq<usize> {
        self.free@
    }

    /// Addresses of the frames that are allocated and not yet released.
    pub closed spec fn live_frames(&self) -> Set<usize> {
        self.live@
    }

    /// An address is free exactly when no live frame owns it, and every
    /// allocatable address is one or the other.
    pub open spec fn wf(&self) -> bool {
        &&& self.free_frames().no_duplicates()
        &&& forall|i: int|
            0 <= i < self.free_frames().len() ==> is_frame_addr(
                #[trigger] self.free_frames()[i] as int,
            )
        &&& forall|a: usize| #[trigger]
            self.live_frames().contains(a) ==> is_frame_addr(a as int)
                && !self.free_frames().contains(a)
        &&& forall|a: usize|
            is_frame_addr(a as int) ==> #[trigger] self.free_frames().contains(a)
                || self.live_frames().contains(a)
        &&& self.live_frames().finite()
        &&& self.free_frames().len() + self.live_frames().len() == PAGE_COUNT - 1
    }

    /// A registry holding every page frame but the zero page, in ascending order.
    pub fn new() -> (r: FrameAllocator)
        ensures
            r.wf(),
            r.live_frames() == Set::<usize>::empty(),
            r.free_frames().len() == PAGE_COUNT - 1,
            forall|i: int|
                0 <= i < r.free_frames().len() ==> #[trigger] r.free_frames()[i] == (i + 1)
                    * PAGE_SIZE,
    {
        let mut free: VecDeque<usize> = VecDeque::new();
        let mut k: usize = 1;
        while k < PAGE_COUNT
            invariant
                1 <= k <= PAGE_COUNT,
                free@.len() == k - 1,
                forall|i: int| 0 <= i < free@.len() ==> #[trigger] free@[i] == (i + 1) * PAGE_SIZE,
            decreases PAGE_COUNT - k,
        {
            free.push_back(k * PAGE_SIZE);
            k = k + 1;
        }
        let r = FrameAllocator { free, live: Ghost(Set::empty()) };
        assert forall|i: int| 0 <= i < r.free@.len() implies is_frame_addr(
            #[trigger] r.free@[i] as int,
        ) by {
            lemma_page_multiple(i + 1);
        }
        assert forall|a: usize| is_frame_addr(a as int) implies #[trigger] r.free@.contains(a) by {
            let j: int = a as int / PAGE_SIZE as int;
            lemma_div_page(a as int);
            assert(r.free@[j - 1] == a);
        }
        r
    }
}

proof fn lemma_page_multiple(k: int)
    requires
        k >= 0,
    ensures
        (k * PAGE_SIZE) % (PAGE_SIZE as int) == 0,
{
    assert((k * 4096) % 4096 == 0) by (nonlinear_arith)
        requires
            k >= 0,
    ;
}

proof fn lemma_div_page(a: int)
    requires
        a >= 0,
        a % (PAGE_SIZE as int) == 0,
    ensures
        (a / PAGE_SIZE as int) * PAGE_SIZE == a,
{
    assert((a / 4096) * 4096 == a) by (nonlinear_arith)
        requires
            a >= 0,
            a % 4096 == 0,
    ;
}

impl PhysFrame {
    /// Physical address of this frame.
    pub fn addr(&self) -> (r: usize)
        ensures
            r == self@,
    {
        self.paddr
    }

    /// Takes the frame at the front of the free registry, or returns `None`
    /// when no frame is left. The frame returned is owned by no live frame.
    pub fn allocate(allocator: &mut FrameAllocator) -> (r: Option<PhysFrame>)
        requires
            old(allocator).wf(),
        ensures
            final(allocator).wf(),
            r.is_some() == (old(allocator).free_frames().len() > 0),
            r.is_none() ==> final(allocator).free_frames() == old(allocator).free_frames()
                && final(allocator).live_frames() == old(allocator).live_frames(),
            r matches Some(f) ==> {
                &&& f@ == old(allocator).free_frames()[0]
                &&& is_frame_addr(f@ as int)
                &&& !old(allocator).live_frames().contains(f@)
                &&& final(allocator).live_frames() == old(allocator).live_frames().insert(f@)
                &&& final(allocator).free_frames() == old(allocator).free_frames().drop_first()
            },
    {
        let ghost old_free = allocator.free@;
        match allocator.free.pop_front() {
            Some(paddr) => {
                proof {
                    assert(old_free[0] == paddr);
                    assert(is_frame_addr(old_free[0] as int));
                    assert(old_free.contains(paddr));
                    allocator.live = Ghost(allocator.live@.insert(paddr));
                    assert forall|a: usize| #[trigger]
                        allocator.live@.contains(a) implies is_frame_addr(a as int)
                        && !allocator.free@.contains(a) by {
                        if allocator.free@.contains(a) {
                            let j = choose|j: int|
                                0 <= j < allocator.free@.len() && allocator.free@[j] == a;
                            assert(old_free[j + 1] == a);
                            if a == paddr {
                                assert(old_free[0] == old_free[j + 1]);
                            }
                        }
                    }
                    assert forall|a: usize| is_frame_addr(a as int) implies #[trigger]
                        allocator.free@.contains(a) || allocator.live@.contains(a) by {
                        if a != paddr && old_free.contains(a) {
                            let j = choose|j: int| 0 <= j < old_free.len() && old_free[j] == a;
                            assert(allocator.free@[j - 1] == a);
                        }
                    }
                }
                Some(PhysFrame { paddr })
            },
            None => None,
        }
    }

    /// Address of the reserved zero page: never allocated, never written.
    pub fn zero_frame_addr() -> (r: usize)
        ensures
            r == 0,
    {
        0
    }

    /// Gives the frame back: its address goes to the back of the registry.
    pub fn dealloc(self, allocator: &mut FrameAllocator)
        requires
            old(allocator).wf(),
            old(allocator).live_frames().contains(self@),
        ensures
            final(allocator).wf(),
            final(allocator).free_frames() == old(allocator).free_frames().push(self@),
            final(allocator).live_frames() == old(allocator).live_frames().remove(self@),
    {
        let ghost old_free = allocator.free@;
        allocator.free.push_back(self.paddr);
        proof {
            allocator.live = Ghost(allocator.live@.remove(self.paddr));
            assert forall|i: int, j: int|
                0 <= i < allocator.free@.len() && 0 <= j < allocator.free@.len() && i != j
                implies allocator.free@[i] != allocator.free@[j] by {
                if j == old_free.len() {
                    assert(old_free.contains(allocator.free@[i]));
                } else if i == old_free.len() {
                    assert(old_free.contains(allocator.free@[j]));
                }
            }
            assert forall|a: usize| is_frame_addr(a as int) implies #[trigger]
                allocator.free@.contains(a) || allocator.live@.contains(a) by {
                if a == self.paddr {
                    assert(allocator.free@[old_free.len() as int] == a);
                } else if old_free.contains(a) {
                    let j = choose|j: int| 0 <= j < old_free.len() && old_free[j] == a;
                    assert(allocator.free@[j] == a);
                }
            }
        }
    }
}

/// Frame accounting: the free frames and the live frames together always
/// number every page but the reserved zero page, and no address is both.
pub proof fn lemma_frame_accounting(allocator: &FrameAllocator)
    requires
        allocator.wf(),
    ensures
        allocator.free_frames().len() + allocator.live_frames().len() == PAGE_COUNT - 1,
        forall|a: usize|
            allocator.live_frames().contains(a) ==> !allocator.free_frames().contains(a),
{
}

/// Exhaustion: allocation succeeds exactly while fewer than all pages but
/// the zero page are live; once they all are, the registry is empty.
pub proof fn lemma_frame_exhaustion(allocator: &FrameAllocator)
    requires
        allocator.wf(),
    ensures
        (allocator.free_frames().len() > 0) == (allocator.live_frames().len() < PAGE_COUNT - 1),
        allocator.live_frames().len() == PAGE_COUNT - 1 ==> allocator.free_frames().len() == 0,
{
}

} // verus!
