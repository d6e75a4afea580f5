//! Byte-level soundness of an ELF64 image: the header tables, the section
//! data and the strings that the loader reads lie inside the image, and
//! tables are whole numbers of entries. Fields are read in the byte order of
//! the little-endian hosts that this kernel runs on, as `xmas_elf` reads them
//! in host order.
use vstd::prelude::*;

verus! {

pub open spec fn u16_at(d: Seq<u8>, i: int) -> int {
    d[i] + d[i + 1] * 0x100
}

pub open spec fn u32_at(d: Seq<u8>, i: int) -> int {
    u16_at(d, i) + u16_at(d, i + 2) * 0x10000
}

pub open spec fn u64_at(d: Seq<u8>, i: int) -> int {
    u32_at(d, i) + u32_at(d, i + 4) * 0x1_0000_0000
}

fn read_u16(d: &[u8], i: usize) -> (r: u64)
    requires
        i + 2 <= d@.len(),
    ensures
        r == u16_at(d@, i as int),
        r <= 0xffff,
{
    d[i] as u64 + d[i + 1] as u64 * 0x100
}

fn read_u32(d: &[u8], i: usize) -> (r: u64)
    requires
        i + 4 <= d@.len(),
    ensures
        r == u32_at(d@, i as int),
        r <= 0xffff_ffff,
{
    let _len = d.len();
    read_u16(d, i) + read_u16(d, i + 2) * 0x10000
}

fn read_u64(d: &[u8], i: usize) -> (r: u128)
    requires
        i + 8 <= d@.len(),
    ensures
        r == u64_at(d@, i as int),
        r <= 0xffff_ffff_ffff_ffff,
{
    let _len = d.len();
    read_u32(d, i) as u128 + read_u32(d, i + 4) as u128 * 0x1_0000_0000
}

/// The ELF64 file header is present, and the program header table lies
/// inside the image, aligned, with entries of the ELF64 size.
pub open spec fn elf_header_sound(d: Seq<u8>) -> bool {
    &&& d.len() >= 64
    &&& d[0] == 0x7f && d[1] == 0x45 && d[2] == 0x4c && d[3] == 0x46
    &&& d[4] == 2
    &&& u16_at(d, 54) == 56
    &&& u64_at(d, 32) % 8 == 0
    &&& u64_at(d, 32) + 56 * u16_at(d, 56) <= d.len()
}

pub fn check_elf_header(d: &[u8]) -> (r: bool)
    ensures
        r == elf_header_sound(d@),
{
    if d.len() < 64 {
        return false;
    }
    if !(d[0] == 0x7f && d[1] == 0x45 && d[2] == 0x4c && d[3] == 0x46) || d[4] != 2 {
        return false;
    }
    let phoff = read_u64(d, 32);
    read_u16(d, 54) == 56 && phoff % 8 == 0 && phoff + 56 * (read_u16(d, 56) as u128)
        <= d.len() as u128
}

pub open spec fn sh_count(d: Seq<u8>) -> int {
    u16_at(d, 60)
}

pub open spec fn shstr_index(d: Seq<u8>) -> int {
    u16_at(d, 62)
}

/// Offset of the header of section `i`.
pub open spec fn sh_at(d: Seq<u8>, i: int) -> int {
    u64_at(d, 40) + 64 * i
}

pub open spec fn sec_name(d: Seq<u8>, i: int) -> int {
    u32_at(d, sh_at(d, i))
}

pub open spec fn sec_type(d: Seq<u8>, i: int) -> int {
    u32_at(d, sh_at(d, i) + 4)
}

pub open spec fn sec_off(d: Seq<u8>, i: int) -> int {
    u64_at(d, sh_at(d, i) + 24)
}

pub open spec fn sec_size(d: Seq<u8>, i: int) -> int {
    u64_at(d, sh_at(d, i) + 32)
}

/// A NUL byte lies in `[start, end)`, with only ASCII bytes before it.
pub open spec fn cstr_at(d: Seq<u8>, start: int, end: int) -> bool {
    exists|k: int|
        start <= k < end && d[k] == 0 && forall|j: int| start <= j < k ==> #[trigger] d[j] < 0x80
}

fn check_cstr(d: &[u8], start: usize, end: usize) -> (r: bool)
    requires
        end <= d@.len(),
    ensures
        r == cstr_at(d@, start as int, end as int),
{
    let mut i = start;
    while i < end
        invariant
            start <= i,
            end <= d@.len(),
            forall|j: int| start <= j < i ==> d@[j] != 0 && #[trigger] d@[j] < 0x80,
        decreases end - i,
    {
        if d[i] == 0 {
            return true;
        }
        if d[i] >= 0x80 {
            proof {
                if cstr_at(d@, start as int, end as int) {
                    let k = choose|k: int|
                        start <= k < end && d@[k] == 0 && forall|j: int|
                            start <= j < k ==> #[trigger] d@[j] < 0x80;
                    assert(d@[i as int] < 0x80);
                }
            }
            return false;
        }
        i = i + 1;
    }
    false
}

/// The section header table lies inside the image, aligned, with entries of
/// the ELF64 size and no reserved index, and the section name table starts
/// inside the image.
pub open spec fn section_table_sound(d: Seq<u8>) -> bool {
    &&& elf_header_sound(d)
    &&& u16_at(d, 58) == 64
    &&& sh_count(d) < 0xff00
    &&& u64_at(d, 40) % 8 == 0
    &&& u64_at(d, 40) + 64 * sh_count(d) <= d.len()
    &&& shstr_index(d) < sh_count(d)
    &&& sec_off(d, shstr_index(d)) <= d.len()
}

/// The name of section `i`, unless its type is null, is a string inside
/// the image.
pub open spec fn section_name_sound(d: Seq<u8>, i: int) -> bool {
    sec_type(d, i) != 0 ==> cstr_at(d, sec_off(d, shstr_index(d)) + sec_name(d, i), d.len() as int)
}

/// Section `j` is named `.strtab`.
pub open spec fn named_strtab(d: Seq<u8>, j: int) -> bool {
    let at = sec_off(d, shstr_index(d)) + sec_name(d, j);
    at + 8 <= d.len() && d.subrange(at, at + 8) == seq![
        0x2eu8,
        0x73u8,
        0x74u8,
        0x72u8,
        0x74u8,
        0x61u8,
        0x62u8,
        0u8,
    ]
}

/// Where section `j` is a string table named `.strtab`, its data lies in
/// the image and holds a string at `name`.
pub open spec fn symbol_name_sound(d: Seq<u8>, name: int, j: int) -> bool {
    (sec_type(d, j) == 3 && named_strtab(d, j)) ==> {
        &&& sec_off(d, j) + sec_size(d, j) <= d.len()
        &&& cstr_at(d, sec_off(d, j) + name, sec_off(d, j) + sec_size(d, j))
    }
}

/// The name of entry `e` of section `i` can be read from every `.strtab`.
pub open spec fn entry_sound(d: Seq<u8>, i: int, e: int) -> bool {
    forall|j: int|
        0 <= j < sh_count(d) ==> #[trigger] symbol_name_sound(
            d,
            u32_at(d, sec_off(d, i) + 24 * e),
            j,
        )
}

/// Where section `i` is a symbol table, its data lies in the image, aligned,
/// as whole entries, and each entry's name can be read.
pub open spec fn symtab_sound(d: Seq<u8>, i: int) -> bool {
    sec_type(d, i) == 2 ==> {
        &&& sec_off(d, i) % 8 == 0
        &&& sec_size(d, i) % 24 == 0
        &&& sec_off(d, i) + sec_size(d, i) <= d.len()
        &&& forall|e: int| 0 <= e < sec_size(d, i) / 24 ==> #[trigger] entry_sound(d, i, e)
    }
}

/// Everything that reading the symbols of the image touches is inside it.
pub open spec fn elf_symbols_sound(d: Seq<u8>) -> bool {
    &&& section_table_sound(d)
    &&& forall|i: int| 0 <= i < sh_count(d) ==> #[trigger] section_name_sound(d, i)
    &&& forall|i: int| 0 <= i < sh_count(d) ==> #[trigger] symtab_sound(d, i)
}

fn check_section_table(d: &[u8]) -> (r: bool)
    ensures
        r == section_table_sound(d@),
{
    if !check_elf_header(d) {
        return false;
    }
    let shoff = read_u64(d, 40);
    let count = read_u16(d, 60);
    let idx = read_u16(d, 62);
    if read_u16(d, 58) != 64 || count >= 0xff00 || shoff % 8 != 0 || shoff + 64 * (count as u128)
        > d.len() as u128 || idx >= count {
        return false;
    }
    let h = (shoff + 64 * (idx as u128)) as usize;
    read_u64(d, h + 24) <= d.len() as u128
}

fn section_header(d: &[u8], i: usize) -> (h: usize)
    requires
        section_table_sound(d@),
        i < sh_count(d@),
    ensures
        h == sh_at(d@, i as int),
        h + 64 <= d@.len(),
        d@.len() <= usize::MAX,
{
    let len = d.len();
    let shoff = read_u64(d, 40);
    (shoff + 64 * (i as u128)) as usize
}

fn shstr_offset(d: &[u8]) -> (r: u128)
    requires
        section_table_sound(d@),
    ensures
        r == sec_off(d@, shstr_index(d@)),
        r <= d@.len(),
{
    let h = section_header(d, read_u16(d, 62) as usize);
    read_u64(d, h + 24)
}

#[verifier::rlimit(50)]
fn check_section_name(d: &[u8], i: usize) -> (r: bool)
    requires
        section_table_sound(d@),
        i < sh_count(d@),
    ensures
        r == section_name_sound(d@, i as int),
{
    let h = section_header(d, i);
    if read_u32(d, h + 4) == 0 {
        return true;
    }
    let so = shstr_offset(d);
    let start = so + read_u32(d, h) as u128;
    if start >= d.len() as u128 {
        return false;
    }
    check_cstr(d, start as usize, d.len())
}

#[verifier::rlimit(50)]
fn check_named_strtab(d: &[u8], j: usize) -> (r: bool)
    requires
        section_table_sound(d@),
        j < sh_count(d@),
    ensures
        r == named_strtab(d@, j as int),
{
    let so = shstr_offset(d);
    let at = so + read_u32(d, section_header(d, j)) as u128;
    if at + 8 > d.len() as u128 {
        return false;
    }
    let a = at as usize;
    let r = d[a] == 0x2e && d[a + 1] == 0x73 && d[a + 2] == 0x74 && d[a + 3] == 0x72 && d[a + 4]
        == 0x74 && d[a + 5] == 0x61 && d[a + 6] == 0x62 && d[a + 7] == 0;
    proof {
        let want = seq![0x2eu8, 0x73u8, 0x74u8, 0x72u8, 0x74u8, 0x61u8, 0x62u8, 0u8];
        if r {
            assert(d@.subrange(a as int, a + 8) =~= want);
        } else {
            if d@.subrange(a as int, a + 8) == want {
                assert(d@.subrange(a as int, a + 8)[0] == want[0]);
                assert(d@.subrange(a as int, a + 8)[1] == want[1]);
                assert(d@.subrange(a as int, a + 8)[2] == want[2]);
                assert(d@.subrange(a as int, a + 8)[3] == want[3]);
                assert(d@.subrange(a as int, a + 8)[4] == want[4]);
                assert(d@.subrange(a as int, a + 8)[5] == want[5]);
                assert(d@.subrange(a as int, a + 8)[6] == want[6]);
                assert(d@.subrange(a as int, a + 8)[7] == want[7]);
            }
        }
    }
    r
}

#[verifier::rlimit(50)]
fn check_symbol_name(d: &[u8], name: u64, j: usize) -> (r: bool)
    requires
        section_table_sound(d@),
        j < sh_count(d@),
    ensures
        r == symbol_name_sound(d@, name as int, j as int),
{
    let h = section_header(d, j);
    if read_u32(d, h + 4) != 3 || !check_named_strtab(d, j) {
        return true;
    }
    let off = read_u64(d, h + 24);
    let end = off + read_u64(d, h + 32);
    if end > d.len() as u128 {
        return false;
    }
    let start = off + name as u128;
    if start >= end {
        return false;
    }
    check_cstr(d, start as usize, end as usize)
}

#[verifier::rlimit(50)]
fn check_entry(d: &[u8], i: usize, e: usize) -> (r: bool)
    requires
        section_table_sound(d@),
        i < sh_count(d@),
        sec_off(d@, i as int) + 24 * e + 24 <= d@.len(),
    ensures
        r == entry_sound(d@, i as int, e as int),
{
    let count = read_u16(d, 60) as usize;
    let h = section_header(d, i);
    let off = read_u64(d, h + 24) as usize;
    let name = read_u32(d, off + 24 * e);
    let mut j: usize = 0;
    while j < count
        invariant
            section_table_sound(d@),
            count == sh_count(d@),
            name == u32_at(d@, sec_off(d@, i as int) + 24 * e),
            j <= count,
            forall|k: int| 0 <= k < j ==> #[trigger] symbol_name_sound(d@, name as int, k),
        decreases count - j,
    {
        if !check_symbol_name(d, name, j) {
            return false;
        }
        j = j + 1;
    }
    true
}

#[verifier::rlimit(50)]
fn check_symtab(d: &[u8], i: usize) -> (r: bool)
    requires
        section_table_sound(d@),
        i < sh_count(d@),
    ensures
        r == symtab_sound(d@, i as int),
{
    let h = section_header(d, i);
    if read_u32(d, h + 4) != 2 {
        return true;
    }
    let off = read_u64(d, h + 24);
    let size = read_u64(d, h + 32);
    if off % 8 != 0 || size % 24 != 0 || off + size > d.len() as u128 {
        return false;
    }
    let n = (size / 24) as usize;
    let mut e: usize = 0;
    while e < n
        invariant
            section_table_sound(d@),
            i < sh_count(d@),
            off == sec_off(d@, i as int),
            size == sec_size(d@, i as int),
            off + size <= d@.len(),
            sec_type(d@, i as int) == 2,
            n == size / 24,
            size % 24 == 0,
            d@.len() <= usize::MAX,
            e <= n,
            forall|k: int| 0 <= k < e ==> #[trigger] entry_sound(d@, i as int, k),
        decreases n - e,
    {
        proof {
            assert(24 * e + 24 <= size) by (nonlinear_arith)
                requires
                    e < n,
                    n == size / 24,
                    size % 24 == 0,
            ;
        }
        if !check_entry(d, i, e) {
            assert(sec_type(d@, i as int) == 2);
            assert(!entry_sound(d@, i as int, e as int));
            return false;
        }
        e = e + 1;
    }
    true
}

/// Whether reading the symbols of `d` stays inside it.
pub fn check_elf_symbols(d: &[u8]) -> (r: bool)
    ensures
        r == elf_symbols_sound(d@),
{
    if !check_section_table(d) {
        return false;
    }
    let count = read_u16(d, 60) as usize;
    let mut i: usize = 0;
    while i < count
        invariant
            section_table_sound(d@),
            count == sh_count(d@),
            i <= count,
            forall|k: int| 0 <= k < i ==> #[trigger] section_name_sound(d@, k),
            forall|k: int| 0 <= k < i ==> #[trigger] symtab_sound(d@, k),
        decreases count - i,
    {
        if !check_section_name(d, i) || !check_symtab(d, i) {
            return false;
        }
        i = i + 1;
    }
    true
}

} // verus!
