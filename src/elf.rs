//! What the loader needs from an ELF image: its entry point, the extent of
//! its loadable segments, and the value of a named symbol. Parsing is done
//! by `xmas_elf`; the computations on its results are verified here.
use crate::frame::PAGE_SIZE;
use vstd::prelude::*;
use crate::elf_sound::{elf_header_sound, elf_symbols_sound, u16_at, u32_at, u64_at};
use xmas_elf::sections::{SectionData, ShType};
use xmas_elf::symbol_table::Entry;

verus! {

/// One program header, reduced to what the loader reads.
#[derive(Clone, Copy, Debug, PartialEq, Eq, Structural)]
pub struct ProgramSegment {
    pub is_load: bool,
    pub vaddr: u64,
    pub mem_size: u64,
}

/// One entry of a 64-bit symbol table.
#[derive(Debug)]
pub struct ElfSymbol {
    pub name: Vec<u8>,
    pub value: u64,
}

/// Offset of program header `i`.
pub open spec fn ph_at(d: Seq<u8>, i: int) -> int {
    u64_at(d, 32) + 56 * i
}

/// The program headers of an image whose header is sound, in order: none
/// where the table offset is zero, else as many as the header counts.
pub open spec fn header_segments(d: Seq<u8>) -> Seq<ProgramSegment> {
    if u64_at(d, 32) == 0 {
        Seq::empty()
    } else {
        Seq::new(
            u16_at(d, 56) as nat,
            |i: int|
                ProgramSegment {
                    is_load: u32_at(d, ph_at(d, i)) == 1,
                    vaddr: u64_at(d, ph_at(d, i) + 16) as u64,
                    mem_size: u64_at(d, ph_at(d, i) + 40) as u64,
                },
        )
    }
}

/// Entries of the symbol tables (sections of type `SymTab`) of `data`,
/// section by section and in table order, if their names can be read.
pub uninterp spec fn elf_symbols_of(data: Seq<u8>) -> Option<Seq<ElfSymbol>>;

/// Relies on `xmas_elf::ElfFile::new` and the header's `entry_point`: the
/// header parses once the magic, the 64-bit class and the full header are
/// there, and the entry point is the field at byte 24. `xmas_elf` reads
/// structures in place and asserts their alignment, so, like the two below,
/// this copies the image to an 8-byte aligned window of a fresh buffer.
#[verifier::external_body]
pub(crate) fn elf_entry(data: &[u8]) -> (r: Option<u64>)
    requires
        elf_header_sound(data@),
    ensures
        r == Some(u64_at(data@, 24) as u64),
{
    let mut buf = vec![0u8; data.len() + 7];
    let k = (8 - (buf.as_ptr() as usize) % 8) % 8;
    buf[k..k + data.len()].copy_from_slice(data);
    xmas_elf::ElfFile::new(&buf[k..k + data.len()]).ok().map(|elf| elf.header.pt2.entry_point())
}

/// Relies on `xmas_elf::ElfFile::program_iter`: each program header with
/// whether its type is `Load` (1), its virtual address and its memory size.
/// The iterator stops at the first header it cannot read, which with a
/// sound header happens only where the table offset is zero.
#[verifier::external_body]
pub(crate) fn elf_segments(data: &[u8]) -> (r: Option<Vec<ProgramSegment>>)
    requires
        elf_header_sound(data@),
    ensures
        r is Some,
        r->0@ == header_segments(data@),
{
    let mut buf = vec![0u8; data.len() + 7];
    let k = (8 - (buf.as_ptr() as usize) % 8) % 8;
    buf[k..k + data.len()].copy_from_slice(data);
    let elf = xmas_elf::ElfFile::new(&buf[k..k + data.len()]).ok()?;
    let segments = elf.program_iter().map(|ph| ProgramSegment {
        is_load: matches!(ph.get_type(), Ok(xmas_elf::program::Type::Load)),
        vaddr: ph.virtual_addr(),
        mem_size: ph.mem_size(),
    });
    Some(segments.collect())
}

/// Relies on `xmas_elf::ElfFile::section_iter`, `SectionHeader::get_data`
/// on the sections of type `SymTab`, and `Entry::get_name` on their
/// entries; `None` where `xmas_elf` reports a name as unreadable (no
/// `.strtab` section of type `StrTab`).
#[verifier::external_body]
pub(crate) fn elf_symbols(data: &[u8]) -> (r: Option<Vec<ElfSymbol>>)
    requires
        elf_symbols_sound(data@),
    ensures
        r.is_some() == elf_symbols_of(data@).is_some(),
        r matches Some(v) ==> elf_symbols_of(data@) == Some(v@),
{
    let mut buf = vec![0u8; data.len() + 7];
    let k = (8 - (buf.as_ptr() as usize) % 8) % 8;
    buf[k..k + data.len()].copy_from_slice(data);
    let elf = xmas_elf::ElfFile::new(&buf[k..k + data.len()]).ok()?;
    let mut symbols = Vec::new();
    for section in elf.section_iter().filter(|s| s.get_type() == Ok(ShType::SymTab)) {
        if let Ok(SectionData::SymbolTable64(entries)) = section.get_data(&elf) {
            for e in entries {
                symbols.push(ElfSymbol { name: e.get_name(&elf).ok()?.as_bytes().to_vec(), value: e.value() });
            }
        }
    }
    Some(symbols)
}

/// Number of pages needed to cover `[0, end)`.
pub open spec fn pages_to_cover(end: int) -> int {
    (end + PAGE_SIZE - 1) / (PAGE_SIZE as int)
}

/// The largest page count that covers a loadable segment of `segs`, or 0.
pub open spec fn load_pages(segs: Seq<ProgramSegment>) -> int
    decreases segs.len(),
{
    if segs.len() == 0 {
        0
    } else {
        let rest = load_pages(segs.drop_last());
        let s = segs.last();
        let p = pages_to_cover(s.vaddr + s.mem_size);
        if s.is_load && p > rest {
            p
        } else {
            rest
        }
    }
}

/// The span of the loadable segments, where there is one and it fits a `usize`.
pub open spec fn span_of(segs: Seq<ProgramSegment>) -> Option<usize> {
    if has_load_segment(segs) && load_pages(segs) * PAGE_SIZE <= usize::MAX {
        Some((load_pages(segs) * PAGE_SIZE) as usize)
    } else {
        None
    }
}

pub open spec fn has_load_segment(segs: Seq<ProgramSegment>) -> bool {
    exists|i: int| 0 <= i < segs.len() && (#[trigger] segs[i]).is_load
}

proof fn lemma_load_pages_bound(segs: Seq<ProgramSegment>)
    ensures
        0 <= load_pages(segs) <= 0x20_0000_0000_0000,
    decreases segs.len(),
{
    if segs.len() > 0 {
        lemma_load_pages_bound(segs.drop_last());
    }
}

/// Size of the span that the loadable segments of an image occupy: the
/// highest segment end, rounded up to whole pages. `None` for an image with
/// no loadable segment, or whose span does not fit a `usize`.
pub fn load_segment_size(segs: &Vec<ProgramSegment>) -> (r: Option<usize>)
    ensures
        r == span_of(segs@),
{
    let mut pages: u128 = 0;
    let mut found = false;
    let mut i: usize = 0;
    while i < segs.len()
        invariant
            i <= segs@.len(),
            pages == load_pages(segs@.subrange(0, i as int)),
            found == has_load_segment(segs@.subrange(0, i as int)),
        decreases segs@.len() - i,
    {
        let s = segs[i];
        let end: u128 = s.vaddr as u128 + s.mem_size as u128;
        let p: u128 = (end + (PAGE_SIZE as u128) - 1) / (PAGE_SIZE as u128);
        proof {
            let prefix = segs@.subrange(0, i as int + 1);
            assert(prefix.drop_last() =~= segs@.subrange(0, i as int));
            assert(prefix.last() == s);
            lemma_load_pages_bound(segs@.subrange(0, i as int));
            if has_load_segment(segs@.subrange(0, i as int)) {
                let j = choose|j: int|
                    0 <= j < i && (#[trigger] segs@.subrange(0, i as int)[j]).is_load;
                assert(prefix[j].is_load);
            }
            if s.is_load {
                assert(prefix[i as int].is_load);
            }
            if has_load_segment(prefix) {
                let j = choose|j: int| 0 <= j < i + 1 && (#[trigger] prefix[j]).is_load;
                if j < i {
                    assert(segs@.subrange(0, i as int)[j].is_load);
                }
            }
        }
        if s.is_load {
            found = true;
            if p > pages {
                pages = p;
            }
        }
        i = i + 1;
    }
    assert(segs@.subrange(0, segs@.len() as int) =~= segs@);
    proof {
        lemma_load_pages_bound(segs@);
        assert(pages == load_pages(segs@));
        assert(pages <= 0x20_0000_0000_0000);
    }
    let bytes: u128 = pages * 0x1000u128;
    if !found || bytes > usize::MAX as u128 {
        None
    } else {
        Some(bytes as usize)
    }
}

/// Whether two byte strings are equal.
pub fn bytes_equal(a: &[u8], b: &[u8]) -> (r: bool)
    ensures
        r == (a@ == b@),
{
    if a.len() != b.len() {
        return false;
    }
    let mut i: usize = 0;
    while i < a.len()
        invariant
            a@.len() == b@.len(),
            i <= a@.len(),
            forall|j: int| 0 <= j < i ==> a@[j] == b@[j],
        decreases a@.len() - i,
    {
        if a[i] != b[i] {
            return false;
        }
        i = i + 1;
    }
    assert(a@ =~= b@);
    true
}

/// `i` is the first entry of `syms` named `name`.
pub open spec fn first_symbol_at(syms: Seq<ElfSymbol>, name: Seq<u8>, i: int) -> bool {
    &&& 0 <= i < syms.len()
    &&& syms[i].name@ == name
    &&& forall|j: int| 0 <= j < i ==> (#[trigger] syms[j]).name@ != name
}

/// Value of the first entry of `syms` named `name`, if any.
pub open spec fn symbol_value(syms: Seq<ElfSymbol>, name: Seq<u8>) -> Option<u64> {
    if exists|i: int| first_symbol_at(syms, name, i) {
        Some(syms[choose|i: int| first_symbol_at(syms, name, i)].value)
    } else {
        None
    }
}

proof fn lemma_first_symbol_unique(syms: Seq<ElfSymbol>, name: Seq<u8>, i: int, j: int)
    requires
        first_symbol_at(syms, name, i),
        first_symbol_at(syms, name, j),
    ensures
        i == j,
{
    if i < j {
        assert(syms[i].name@ != name);
    } else if j < i {
        assert(syms[j].name@ != name);
    }
}

/// Value of the first symbol named `name`.
pub fn find_symbol(syms: &Vec<ElfSymbol>, name: &[u8]) -> (r: Option<u64>)
    ensures
        r == symbol_value(syms@, name@),
{
    let mut i: usize = 0;
    while i < syms.len()
        invariant
            i <= syms@.len(),
            forall|j: int| 0 <= j < i ==> (#[trigger] syms@[j]).name@ != name@,
        decreases syms@.len() - i,
    {
        if bytes_equal(syms[i].name.as_slice(), name) {
            proof {
                assert(first_symbol_at(syms@, name@, i as int));
                let k = choose|k: int| first_symbol_at(syms@, name@, k);
                lemma_first_symbol_unique(syms@, name@, i as int, k);
            }
            return Some(syms[i].value);
        }
        i = i + 1;
    }
    proof {
        if exists|k: int| first_symbol_at(syms@, name@, k) {
            let k = choose|k: int| first_symbol_at(syms@, name@, k);
            assert(syms@[k].name@ != name@);
        }
    }
    None
}

} // verus!
