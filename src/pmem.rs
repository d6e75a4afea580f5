//! A model of the emulated physical memory, held in the process's own heap:
//! the byte-level operations on physical addresses with their bounds and
//! their effect. Pages are kept apart and created on first write; a page
//! never written reads as zeros. The host store that the kernel maps at a
//! fixed address is outside the library; it checks its bounds with
//! `frame::range_in_pmem`.
use crate::frame::{PAGE_COUNT, PAGE_SIZE, PMEM_SIZE};
use vstd::prelude::*;

verus! {

/// The bytes `[paddr, paddr + len)` of `mem`.
pub open spec fn mem_read(mem: Seq<u8>, paddr: int, len: int) -> Seq<u8> {
    mem.subrange(paddr, paddr + len)
}

/// `mem` with `data` written at `paddr`.
pub open spec fn mem_write(mem: Seq<u8>, paddr: int, data: Seq<u8>) -> Seq<u8> {
    Seq::new(
        mem.len(),
        |a: int|
            if paddr <= a < paddr + data.len() {
                data[a - paddr]
            } else {
                mem[a]
            },
    )
}

/// `len` zero bytes.
pub open spec fn zeros(len: nat) -> Seq<u8> {
    Seq::new(len, |i: int| 0u8)
}

/// `mem` after the page at `src` is copied onto the page at `target`.
pub open spec fn mem_frame_copy(mem: Seq<u8>, src: int, target: int) -> Seq<u8> {
    mem_write(mem, target, mem_read(mem, src, PAGE_SIZE as int))
}

spec fn page_ok(p: Option<Vec<u8>>) -> bool {
    match p {
        Some(v) => v@.len() == PAGE_SIZE,
        None => true,
    }
}

spec fn page_byte(p: Option<Vec<u8>>, off: int) -> u8 {
    match p {
        Some(v) => v@[off],
        None => 0u8,
    }
}

/// A model of the emulated physical memory: `PMEM_SIZE` bytes, all zero at first.
pub struct PhysMem {
    pages: Vec<Option<Vec<u8>>>,
}

impl View for PhysMem {
    type V = Seq<u8>;

    closed spec fn view(&self) -> Seq<u8> {
        Seq::new(
            PMEM_SIZE as nat,
            |a: int| page_byte(self.pages@[a / (PAGE_SIZE as int)], a % PAGE_SIZE as int),
        )
    }
}

proof fn lemma_split(a: int)
    requires
        0 <= a < PMEM_SIZE,
    ensures
        0 <= a / (PAGE_SIZE as int) < PAGE_COUNT,
        0 <= a % (PAGE_SIZE as int) < PAGE_SIZE,
{
}

proof fn lemma_same_split(a: int, b: int)
    requires
        0 <= a,
        0 <= b,
        a / (PAGE_SIZE as int) == b / (PAGE_SIZE as int),
        a % (PAGE_SIZE as int) == b % (PAGE_SIZE as int),
    ensures
        a == b,
{
    assert(a == (a / 4096) * 4096 + a % 4096) by (nonlinear_arith)
        requires
            a >= 0,
    ;
    assert(b == (b / 4096) * 4096 + b % 4096) by (nonlinear_arith)
        requires
            b >= 0,
    ;
}

fn zero_page() -> (r: Vec<u8>)
    ensures
        r@ == zeros(PAGE_SIZE as nat),
{
    let mut v: Vec<u8> = Vec::new();
    let mut i: usize = 0;
    while i < PAGE_SIZE
        invariant
            i <= PAGE_SIZE,
            v@ == zeros(i as nat),
        decreases PAGE_SIZE - i,
    {
        v.push(0u8);
        i = i + 1;
        assert(v@ =~= zeros(i as nat));
    }
    v
}

impl PhysMem {
    pub closed spec fn wf(&self) -> bool {
        &&& self.pages@.len() == PAGE_COUNT
        &&& forall|i: int| 0 <= i < PAGE_COUNT ==> page_ok(#[trigger] self.pages@[i])
    }

    /// Every model of physical memory holds `PMEM_SIZE` bytes.
    pub proof fn lemma_view_len(&self)
        ensures
            self@.len() == PMEM_SIZE,
    {
    }

    /// Physical memory with every byte zero.
    pub fn new() -> (r: PhysMem)
        ensures
            r.wf(),
            r@ == zeros(PMEM_SIZE as nat),
    {
        let mut pages: Vec<Option<Vec<u8>>> = Vec::new();
        let mut i: usize = 0;
        while i < PAGE_COUNT
            invariant
                i <= PAGE_COUNT,
                pages@.len() == i,
                forall|j: int| 0 <= j < i ==> #[trigger] pages@[j] is None,
            decreases PAGE_COUNT - i,
        {
            pages.push(None);
            i = i + 1;
        }
        let r = PhysMem { pages };
        assert forall|a: int| 0 <= a < PMEM_SIZE implies #[trigger] r@[a] == 0u8 by {
            lemma_split(a);
        }
        assert(r@ =~= zeros(PMEM_SIZE as nat));
        r
    }

    fn read_byte(&self, a: usize) -> (r: u8)
        requires
            self.wf(),
            a < PMEM_SIZE,
        ensures
            r == self@[a as int],
    {
        proof {
            lemma_split(a as int);
        }
        match &self.pages[a / PAGE_SIZE] {
            Some(p) => p[a % PAGE_SIZE],
            None => 0u8,
        }
    }

    fn write_byte(&mut self, a: usize, v: u8)
        requires
            old(self).wf(),
            a < PMEM_SIZE,
        ensures
            final(self).wf(),
            final(self)@ == old(self)@.update(a as int, v),
    {
        proof {
            lemma_split(a as int);
        }
        let i = a / PAGE_SIZE;
        let off = a % PAGE_SIZE;
        let mut slot: Option<Vec<u8>> = None;
        self.pages.set_and_swap(i, &mut slot);
        let mut page = match slot {
            Some(p) => p,
            None => zero_page(),
        };
        let ghost before = page@;
        page.set(off, v);
        let mut filled = Some(page);
        self.pages.set_and_swap(i, &mut filled);
        proof {
            assert forall|b: int| 0 <= b < PMEM_SIZE implies #[trigger] self@[b] == old(self)@.update(
                a as int,
                v,
            )[b] by {
                lemma_split(b);
                if b != a as int && b / (PAGE_SIZE as int) == i as int {
                    if b % (PAGE_SIZE as int) == off as int {
                        lemma_same_split(a as int, b);
                    }
                }
            }
            assert(self@ =~= old(self)@.update(a as int, v));
        }
    }

    /// Reads `buf.len()` bytes starting at physical address `paddr` into `buf`.
    pub fn pmem_read(&self, paddr: usize, buf: &mut Vec<u8>)
        requires
            self.wf(),
            paddr + old(buf)@.len() <= PMEM_SIZE,
        ensures
            final(buf)@ == mem_read(self@, paddr as int, old(buf)@.len() as int),
    {
        let n = buf.len();
        let mut i: usize = 0;
        while i < n
            invariant
                self.wf(),
                i <= n,
                n == old(buf)@.len(),
                paddr + n <= PMEM_SIZE,
                buf@.len() == n,
                forall|j: int| 0 <= j < i ==> #[trigger] buf@[j] == self@[paddr + j],
            decreases n - i,
        {
            let b = self.read_byte(paddr + i);
            buf.set(i, b);
            i = i + 1;
        }
        assert(buf@ =~= mem_read(self@, paddr as int, n as int));
    }

    /// Writes `buf` at physical address `paddr`.
    pub fn pmem_write(&mut self, paddr: usize, buf: &[u8])
        requires
            old(self).wf(),
            paddr + buf@.len() <= PMEM_SIZE,
        ensures
            final(self).wf(),
            final(self)@ == mem_write(old(self)@, paddr as int, buf@),
            final(self)@.len() == PMEM_SIZE,
            mem_read(final(self)@, paddr as int, buf@.len() as int) == buf@,
    {
        let n = buf.len();
        let mut i: usize = 0;
        while i < n
            invariant
                self.wf(),
                i <= n,
                n == buf@.len(),
                paddr + n <= PMEM_SIZE,
                self@ == mem_write(old(self)@, paddr as int, buf@.subrange(0, i as int)),
            decreases n - i,
        {
            self.write_byte(paddr + i, buf[i]);
            i = i + 1;
            assert(self@ =~= mem_write(old(self)@, paddr as int, buf@.subrange(0, i as int)));
        }
        assert(buf@.subrange(0, n as int) =~= buf@);
        proof {
            lemma_write_then_read(old(self)@, paddr as int, buf@);
        }
    }

    /// Sets `len` bytes starting at physical address `paddr` to zero.
    pub fn pmem_zero(&mut self, paddr: usize, len: usize)
        requires
            old(self).wf(),
            paddr + len <= PMEM_SIZE,
        ensures
            final(self).wf(),
            final(self)@ == mem_write(old(self)@, paddr as int, zeros(len as nat)),
            final(self)@.len() == PMEM_SIZE,
    {
        let mut i: usize = 0;
        while i < len
            invariant
                self.wf(),
                i <= len,
                paddr + len <= PMEM_SIZE,
                self@ == mem_write(old(self)@, paddr as int, zeros(i as nat)),
            decreases len - i,
        {
            self.write_byte(paddr + i, 0u8);
            i = i + 1;
            assert(self@ =~= mem_write(old(self)@, paddr as int, zeros(i as nat)));
        }
    }

    /// Copies the page at `src` onto the page at `target`.
    pub fn frame_copy(&mut self, src: usize, target: usize)
        requires
            old(self).wf(),
            src + PAGE_SIZE <= PMEM_SIZE,
            target + PAGE_SIZE <= PMEM_SIZE,
        ensures
            final(self).wf(),
            final(self)@ == mem_frame_copy(old(self)@, src as int, target as int),
            final(self)@.len() == PMEM_SIZE,
            mem_read(final(self)@, target as int, PAGE_SIZE as int) == mem_read(
                old(self)@,
                src as int,
                PAGE_SIZE as int,
            ),
    {
        let mut page = zero_page();
        self.pmem_read(src, &mut page);
        self.pmem_write(target, page.as_slice());
        proof {
            lemma_frame_copy(old(self)@, src as int, target as int);
        }
    }

    /// Makes the page at `target` visible to other observers. Memory here
    /// is coherent, so nothing changes.
    pub fn frame_flush(&self, target: usize)
        requires
            self.wf(),
    {
    }
}

/// Writing bytes and reading the same range back gives those bytes.
pub proof fn lemma_write_then_read(mem: Seq<u8>, paddr: int, data: Seq<u8>)
    requires
        0 <= paddr,
        paddr + data.len() <= mem.len(),
    ensures
        mem_read(mem_write(mem, paddr, data), paddr, data.len() as int) == data,
{
    assert(mem_read(mem_write(mem, paddr, data), paddr, data.len() as int) =~= data);
}

/// After a frame copy, the target page reads as the source page did before.
pub proof fn lemma_frame_copy(mem: Seq<u8>, src: int, target: int)
    requires
        0 <= src,
        0 <= target,
        src + PAGE_SIZE <= mem.len(),
        target + PAGE_SIZE <= mem.len(),
    ensures
        mem_read(mem_frame_copy(mem, src, target), target, PAGE_SIZE as int) == mem_read(
            mem,
            src,
            (PAGE_SIZE as int),
        ),
{
    lemma_write_then_read(mem, target, mem_read(mem, src, PAGE_SIZE as int));
}

} // verus!
