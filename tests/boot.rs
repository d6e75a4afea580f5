use zircon_boot::boot::{
    bootstrap_handle_table, build_vdso_image, cmdline_payload, default_handle_table,
    initial_stack_pointer, plan_userboot, start_params, stack_size, vmo_page_count, BootError, BootHandle,
    BootObject, Images, HANDLE_TABLE_LEN, K_HANDLECOUNT, VDSO_DATA_CONSTANTS,
    VDSO_DATA_CONSTANTS_SIZE,
};
use zircon_boot::elf_sound::{check_elf_header, check_elf_symbols};
use zircon_boot::elf::{find_symbol, load_segment_size, ElfSymbol, ProgramSegment};
use zircon_boot::frame::PAGE_SIZE;
use zircon_boot::rights::{DEFAULT_CHANNEL, DEFAULT_PROCESS, DEFAULT_VMAR, DEFAULT_VMO, EXECUTE, IO};

const PT_LOAD: u32 = 1;
const PT_NOTE: u32 = 4;

fn put(buf: &mut [u8], at: usize, bytes: &[u8]) {
    buf[at..at + bytes.len()].copy_from_slice(bytes);
}

/// A little-endian ELF64 image with the given entry point, program headers
/// (type, vaddr, memsz) and, optionally, one symbol with its name and value.
/// The image is padded with zeros to at least `min_len` bytes.
fn elf64(entry: u64, segs: &[(u32, u64, u64)], symbol: Option<(&str, u64)>, min_len: usize) -> Vec<u8> {
    let phoff = 64usize;
    let ph_end = phoff + 56 * segs.len();
    let shstrtab = b"\0.symtab\0.strtab\0.shstrtab\0";
    let (name, value) = symbol.unwrap_or(("other", 0));
    let mut strtab = vec![0u8];
    strtab.extend_from_slice(name.as_bytes());
    strtab.push(0);
    let align8 = |x: usize| (x + 7) & !7;
    let symtab_off = align8(ph_end);
    let symtab_len = 48;
    let strtab_off = align8(symtab_off + symtab_len);
    let shstr_off = align8(strtab_off + strtab.len());
    let shoff = align8(shstr_off + shstrtab.len());
    let total = shoff + 4 * 64;
    let mut b = vec![0u8; total.max(min_len)];
    put(&mut b, 0, &[0x7f, b'E', b'L', b'F', 2, 1, 1]);
    put(&mut b, 16, &2u16.to_le_bytes());
    put(&mut b, 18, &0x3eu16.to_le_bytes());
    put(&mut b, 20, &1u32.to_le_bytes());
    put(&mut b, 24, &entry.to_le_bytes());
    put(&mut b, 32, &(phoff as u64).to_le_bytes());
    put(&mut b, 40, &(shoff as u64).to_le_bytes());
    put(&mut b, 52, &64u16.to_le_bytes());
    put(&mut b, 54, &56u16.to_le_bytes());
    put(&mut b, 56, &(segs.len() as u16).to_le_bytes());
    put(&mut b, 58, &64u16.to_le_bytes());
    put(&mut b, 60, &4u16.to_le_bytes());
    put(&mut b, 62, &3u16.to_le_bytes());
    for (i, (ty, vaddr, memsz)) in segs.iter().enumerate() {
        let at = phoff + 56 * i;
        put(&mut b, at, &ty.to_le_bytes());
        put(&mut b, at + 16, &vaddr.to_le_bytes());
        put(&mut b, at + 24, &vaddr.to_le_bytes());
        put(&mut b, at + 40, &memsz.to_le_bytes());
        put(&mut b, at + 48, &0x1000u64.to_le_bytes());
    }
    // symbol 1 (symbol 0 is the null symbol)
    put(&mut b, symtab_off + 24, &1u32.to_le_bytes());
    put(&mut b, symtab_off + 24 + 8, &value.to_le_bytes());
    put(&mut b, strtab_off, &strtab);
    put(&mut b, shstr_off, shstrtab);
    // (name offset, type, offset, size, link, entsize)
    let sections = [
        (1u32, 2u32, symtab_off, symtab_len, 2u32, 24u64),
        (9, 3, strtab_off, strtab.len(), 0, 0),
        (17, 3, shstr_off, shstrtab.len(), 0, 0),
    ];
    for (i, (nm, ty, off, size, link, entsize)) in sections.iter().enumerate() {
        let at = shoff + 64 * (i + 1);
        put(&mut b, at, &nm.to_le_bytes());
        put(&mut b, at + 4, &ty.to_le_bytes());
        put(&mut b, at + 24, &(*off as u64).to_le_bytes());
        put(&mut b, at + 32, &(*size as u64).to_le_bytes());
        put(&mut b, at + 40, &link.to_le_bytes());
        put(&mut b, at + 56, &entsize.to_le_bytes());
    }
    b
}

fn userboot_elf() -> Vec<u8> {
    elf64(0x1000, &[(PT_LOAD, 0, 0x1800), (PT_NOTE, 0, 0x9000), (PT_LOAD, 0x2000, 0x345)], None, 0)
}

fn vdso_elf() -> Vec<u8> {
    elf64(0, &[(PT_LOAD, 0, 0x5000)], Some(("zcore_syscall_entry", 0x100)), 0x4100)
}

fn constants() -> Vec<u8> {
    (0..VDSO_DATA_CONSTANTS_SIZE).map(|i| i as u8).collect()
}

const SYSCALL_ENTRY: u64 = 0x1122_3344_5566_7788;

#[test]
fn bootstrap_layout_scenario() {
    let images = Images { userboot: userboot_elf(), vdso: vdso_elf(), zbi: vec![1u8; 5000] };
    let l = plan_userboot(&images, b"a:b:c", SYSCALL_ENTRY, &constants()).unwrap();
    assert_eq!(l.entry_offset, 0x1000);
    assert_eq!(l.userboot_size, 0x3000);
    assert_eq!(l.vdso_offset, l.userboot_size);
    assert_eq!(l.vdso_size, 0x5000);
    assert_eq!(l.zbi_pages, 2);
    assert_eq!(l.stack_size, 8 * PAGE_SIZE);
    assert_eq!(l.payload, b"a\0b\0c\0".to_vec());
    assert_eq!(l.handles.len(), 16);
    assert_eq!(l.handles, bootstrap_handle_table());
    let vdso = &images.vdso;
    assert_eq!(l.vdso_image.len(), 0x5000);
    for slot in 0..3 {
        let at = 0x100 + 8 * slot;
        assert_eq!(&l.vdso_image[at..at + 8], &SYSCALL_ENTRY.to_le_bytes());
    }
    assert_eq!(&l.vdso_image[VDSO_DATA_CONSTANTS..VDSO_DATA_CONSTANTS + VDSO_DATA_CONSTANTS_SIZE], &constants()[..]);
    assert_eq!(&l.vdso_image[..0x100], &vdso[..0x100]);
    assert!(l.vdso_image[vdso.len()..VDSO_DATA_CONSTANTS].iter().all(|b| *b == 0));
}

#[test]
fn vdso_region_follows_userboot_without_overlap() {
    let images = Images { userboot: userboot_elf(), vdso: vdso_elf(), zbi: Vec::new() };
    let l = plan_userboot(&images, b"", SYSCALL_ENTRY, &constants()).unwrap();
    assert_eq!(l.vdso_offset, 0x3000);
    assert!(l.vdso_offset >= 0 + l.userboot_size);
    assert_eq!(l.payload, vec![0u8]);
    assert_eq!(l.zbi_pages, 1);
}

#[test]
fn userboot_that_is_not_elf() {
    let images = Images { userboot: b"not an elf image".to_vec(), vdso: vdso_elf(), zbi: Vec::new() };
    assert_eq!(plan_userboot(&images, b"", 0, &constants()).err(), Some(BootError::UserbootImage));
}

#[test]
fn userboot_without_load_segment() {
    let userboot = elf64(0x10, &[(PT_NOTE, 0, 0x1000)], None, 0);
    let images = Images { userboot, vdso: vdso_elf(), zbi: Vec::new() };
    assert_eq!(plan_userboot(&images, b"", 0, &constants()).err(), Some(BootError::UserbootImage));
}

#[test]
fn vdso_that_is_not_elf() {
    let images = Images { userboot: userboot_elf(), vdso: vec![0u8; 10], zbi: Vec::new() };
    assert_eq!(plan_userboot(&images, b"", 0, &constants()).err(), Some(BootError::VdsoImage));
}

#[test]
fn vdso_without_syscall_entry() {
    let vdso = elf64(0, &[(PT_LOAD, 0, 0x5000)], Some(("something_else", 0x100)), 0x4100);
    let images = Images { userboot: userboot_elf(), vdso, zbi: Vec::new() };
    assert_eq!(plan_userboot(&images, b"", 0, &constants()).err(), Some(BootError::SyscallEntryMissing));
}

#[test]
fn vdso_too_small_for_constants() {
    let vdso = elf64(0, &[(PT_LOAD, 0, 0x1000)], Some(("zcore_syscall_entry", 0x100)), 0);
    let images = Images { userboot: userboot_elf(), vdso, zbi: Vec::new() };
    assert_eq!(plan_userboot(&images, b"", 0, &constants()).err(), Some(BootError::VdsoPatch));
}

#[test]
fn cmdline_colons_become_nul() {
    assert_eq!(cmdline_payload(b"a:b:c"), b"a\0b\0c\0".to_vec());
    assert_eq!(cmdline_payload(b""), vec![0u8]);
    assert_eq!(cmdline_payload(b"::"), vec![0u8, 0, 0]);
    assert_eq!(cmdline_payload(b"x=1"), b"x=1\0".to_vec());
}

#[test]
fn stack_pointer_alignment_scenario() {
    let base = 0x7000_0000usize;
    let sp = initial_stack_pointer(base, stack_size());
    assert_eq!(stack_size(), 8 * PAGE_SIZE);
    assert_eq!(sp, base + 8 * PAGE_SIZE - 8);
    assert_eq!((sp + 8) % 16, 0);
}

#[test]
fn default_table_is_process_without_rights() {
    let t = default_handle_table();
    assert_eq!(t.len(), HANDLE_TABLE_LEN);
    for h in &t {
        assert_eq!(h.object, BootObject::Process);
        assert!(h.rights.is_empty());
    }
}

#[test]
fn bootstrap_table_slots() {
    let t = bootstrap_handle_table();
    assert_eq!(t.len(), 16);
    assert_eq!(t[0].object, BootObject::Process);
    assert_eq!(t[0].rights.bits(), DEFAULT_PROCESS);
    assert_eq!(t[1].object, BootObject::RootVmar);
    assert_eq!(t[1].rights.bits(), DEFAULT_VMAR | IO);
    assert_eq!(t[2].object, BootObject::RootJob);
    assert_eq!(t[3].object, BootObject::RootResource);
    assert_eq!(t[4].object, BootObject::Zbi);
    assert_eq!(t[5].object, BootObject::VdsoFull);
    assert_eq!(t[6].object, BootObject::VdsoTest1);
    assert_eq!(t[7].object, BootObject::VdsoTest2);
    for i in 5..8 {
        assert_eq!(t[i].rights.bits(), DEFAULT_VMO | EXECUTE);
    }
    assert_eq!(t[8].object, BootObject::CrashLog);
    assert_eq!(t[9].object, BootObject::CounterNames);
    assert_eq!(t[10].object, BootObject::Counters);
    for i in 11..15 {
        assert_eq!(t[i].object, BootObject::InstrumentationData);
        assert_eq!(t[i].rights.bits(), DEFAULT_VMO);
    }
    let filler: BootHandle = default_handle_table()[0];
    assert_eq!(t[K_HANDLECOUNT], filler);
}

#[test]
fn segment_span_rounds_up_the_highest_end() {
    let segs = vec![
        ProgramSegment { is_load: true, vaddr: 0, mem_size: 0x10 },
        ProgramSegment { is_load: true, vaddr: 0x4000, mem_size: 0x1 },
        ProgramSegment { is_load: false, vaddr: 0x10000, mem_size: 0x1 },
    ];
    assert_eq!(load_segment_size(&segs), Some(0x5000));
    assert_eq!(load_segment_size(&Vec::new()), None);
    let huge = vec![ProgramSegment { is_load: true, vaddr: u64::MAX, mem_size: u64::MAX }];
    assert_eq!(load_segment_size(&huge), None);
}

#[test]
fn first_matching_symbol_wins() {
    let syms = vec![
        ElfSymbol { name: b"a".to_vec(), value: 1 },
        ElfSymbol { name: b"b".to_vec(), value: 2 },
        ElfSymbol { name: b"b".to_vec(), value: 3 },
    ];
    assert_eq!(find_symbol(&syms, b"b"), Some(2));
    assert_eq!(find_symbol(&syms, b"c"), None);
}

#[test]
fn vdso_image_patches() {
    let small = vec![0xffu8; 10];
    assert_eq!(vmo_page_count(small.len()), 1);
    // the constants block lies beyond a one-page object
    assert!(build_vdso_image(&small, 0, 7, &constants()).is_none());
    let vdso = vec![0xffu8; 0x4000];
    assert_eq!(vmo_page_count(vdso.len()), 5);
    let img = build_vdso_image(&vdso, 2, 0x0102030405060708, &constants()).unwrap();
    assert_eq!(img.len(), 5 * PAGE_SIZE);
    assert_eq!(&img[..2], &[0xff, 0xff]);
    assert_eq!(&img[2..10], &[8, 7, 6, 5, 4, 3, 2, 1]);
    assert_eq!(&img[18..26], &[8, 7, 6, 5, 4, 3, 2, 1]);
    assert_eq!(img[26], 0xff);
    assert_eq!(img[0x4000], 0);
    assert_eq!(img[VDSO_DATA_CONSTANTS + 1], 1);
    assert!(build_vdso_image(&vdso, 5 * PAGE_SIZE - 23, 7, &constants()).is_none());
    assert!(build_vdso_image(&vdso, 5 * PAGE_SIZE - 24, 7, &constants()).is_some());
}

fn u64_at(b: &[u8], at: usize) -> usize {
    u64::from_le_bytes(b[at..at + 8].try_into().unwrap()) as usize
}

#[test]
fn sound_images_pass_the_checks() {
    assert!(check_elf_header(&userboot_elf()));
    assert!(check_elf_symbols(&vdso_elf()));
    assert!(!check_elf_header(b"\x7fELF"));
}

#[test]
fn program_table_outside_the_image() {
    let mut userboot = userboot_elf();
    put(&mut userboot, 32, &0x10_0000u64.to_le_bytes());
    assert!(!check_elf_header(&userboot));
    let images = Images { userboot, vdso: vdso_elf(), zbi: Vec::new() };
    assert_eq!(plan_userboot(&images, b"", 0, &constants()).err(), Some(BootError::UserbootImage));
}

#[test]
fn thirty_two_bit_image_is_refused() {
    let mut userboot = userboot_elf();
    userboot[4] = 1;
    let images = Images { userboot, vdso: vdso_elf(), zbi: Vec::new() };
    assert_eq!(plan_userboot(&images, b"", 0, &constants()).err(), Some(BootError::UserbootImage));
}

#[test]
fn symbol_name_outside_the_string_table() {
    let mut vdso = vdso_elf();
    let shoff = u64_at(&vdso, 40);
    let symtab = u64_at(&vdso, shoff + 64 + 24);
    put(&mut vdso, symtab + 24, &0xffffu32.to_le_bytes());
    assert!(check_elf_header(&vdso));
    assert!(!check_elf_symbols(&vdso));
    let images = Images { userboot: userboot_elf(), vdso, zbi: Vec::new() };
    assert_eq!(plan_userboot(&images, b"", 0, &constants()).err(), Some(BootError::VdsoImage));
}

#[test]
fn symbol_table_of_partial_entries() {
    let mut vdso = vdso_elf();
    let shoff = u64_at(&vdso, 40);
    put(&mut vdso, shoff + 64 + 32, &40u64.to_le_bytes());
    assert!(!check_elf_symbols(&vdso));
}

#[test]
fn section_table_outside_the_image() {
    let mut vdso = vdso_elf();
    put(&mut vdso, 60, &0x1000u16.to_le_bytes());
    assert!(!check_elf_symbols(&vdso));
    let images = Images { userboot: userboot_elf(), vdso, zbi: Vec::new() };
    assert_eq!(plan_userboot(&images, b"", 0, &constants()).err(), Some(BootError::VdsoImage));
}

#[test]
fn start_parameters_of_the_first_thread() {
    let images = Images { userboot: userboot_elf(), vdso: vdso_elf(), zbi: Vec::new() };
    let l = plan_userboot(&images, b"", SYSCALL_ENTRY, &constants()).unwrap();
    assert_eq!(l.root_resource_size, 0x1_0000_0000);
    let p = start_params(&l, 0x2000_0000, 0x4000_0000);
    assert_eq!(p.entry, 0x2000_1000);
    assert_eq!(p.stack_pointer, 0x4000_0000 + 8 * PAGE_SIZE - 8);
    assert_eq!((p.stack_pointer + 8) % 16, 0);
    assert_eq!(p.channel_rights.bits(), DEFAULT_CHANNEL);
}

#[test]
fn image_without_program_table_offset_has_no_segments() {
    let mut userboot = userboot_elf();
    put(&mut userboot, 32, &0u64.to_le_bytes());
    assert!(check_elf_header(&userboot));
    let images = Images { userboot, vdso: vdso_elf(), zbi: Vec::new() };
    assert_eq!(plan_userboot(&images, b"", 0, &constants()).err(), Some(BootError::UserbootImage));
}
