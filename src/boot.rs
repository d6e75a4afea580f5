//! The bootstrap of the first user process: everything it computes from the
//! boot images before the kernel objects are created and wired together.
use crate::elf::{
    ElfSymbol, ProgramSegment, elf_entry, elf_segments, header_segments,
    elf_symbols, elf_symbols_of, find_symbol, load_segment_size, span_of, symbol_value,
};
use crate::elf_sound::{
    check_elf_header, check_elf_symbols, elf_header_sound, elf_symbols_sound, u64_at,
};
use crate::frame::PAGE_SIZE;
use crate::pmem::{mem_write, zeros};
use crate::rights::{
    DEFAULT_CHANNEL, DEFAULT_JOB, DEFAULT_PROCESS, DEFAULT_RESOURCE, DEFAULT_VMAR, DEFAULT_VMO, EXECUTE, IO, Rights,
};
use vstd::prelude::*;

verus! {

/// Slot of the process's handle to itself.
pub const K_PROC_SELF: usize = 0;
/// Slot of the handle to the process's root address region.
pub const K_VMARROOT_SELF: usize = 1;
/// Slot of the root job.
pub const K_ROOTJOB: usize = 2;
/// Slot of the root resource.
pub const K_ROOTRESOURCE: usize = 3;
/// Slot of the boot payload memory object.
pub const K_ZBI: usize = 4;
/// First of the three v-DSO memory object slots.
pub const K_FIRSTVDSO: usize = 5;
/// Slot of the crash log placeholder.
pub const K_CRASHLOG: usize = 8;
/// Slot of the counter names memory object.
pub const K_COUNTERNAMES: usize = 9;
/// Slot of the counter data memory object.
pub const K_COUNTERS: usize = 10;
/// First of the four instrumentation data placeholder slots.
pub const K_FIRSTINSTRUMENTATIONDATA: usize = 11;
/// Sentinel index after the assigned slots.
pub const K_HANDLECOUNT: usize = 15;
/// Number of slots in the initial handle table.
pub const HANDLE_TABLE_LEN: usize = 16;

/// Pages of the initial user stack.
pub const STACK_PAGES: usize = 8;
/// Offset of the kernel-exported constants inside the v-DSO.
pub const VDSO_DATA_CONSTANTS: usize = 0x4a50;
/// Size of the kernel-exported constants block.
pub const VDSO_DATA_CONSTANTS_SIZE: usize = 0x78;
/// Size of the address range that the root resource spans.
pub const ROOT_RESOURCE_SIZE: u64 = 0x1_0000_0000;

/// The boot inputs: the loader stub, the v-DSO and the boot payload.
pub struct Images {
    pub userboot: Vec<u8>,
    pub vdso: Vec<u8>,
    pub zbi: Vec<u8>,
}

/// The kernel objects that the initial handle table refers to.
#[derive(Clone, Copy, Debug, PartialEq, Eq, Structural)]
pub enum BootObject {
    Process,
    RootVmar,
    RootJob,
    RootResource,
    Zbi,
    VdsoFull,
    VdsoTest1,
    VdsoTest2,
    CrashLog,
    CounterNames,
    Counters,
    InstrumentationData,
}

/// One slot of the initial handle table.
#[derive(Clone, Copy, Debug, PartialEq, Eq, Structural)]
pub struct BootHandle {
    pub object: BootObject,
    pub rights: Rights,
}

/// The filler of every slot before assignment: the process, with no rights.
pub open spec fn filler_handle() -> BootHandle {
    BootHandle { object: BootObject::Process, rights: Rights { bits: 0 } }
}

/// The handle that slot `i` of the initial table holds.
pub open spec fn boot_handle(i: int) -> BootHandle {
    let vdso_rights = Rights { bits: DEFAULT_VMO | EXECUTE };
    let vmo_rights = Rights { bits: DEFAULT_VMO };
    if i == 0 {
        BootHandle { object: BootObject::Process, rights: Rights { bits: DEFAULT_PROCESS } }
    } else if i == 1 {
        BootHandle { object: BootObject::RootVmar, rights: Rights { bits: DEFAULT_VMAR | IO } }
    } else if i == 2 {
        BootHandle { object: BootObject::RootJob, rights: Rights { bits: DEFAULT_JOB } }
    } else if i == 3 {
        BootHandle { object: BootObject::RootResource, rights: Rights { bits: DEFAULT_RESOURCE } }
    } else if i == 4 {
        BootHandle { object: BootObject::Zbi, rights: vmo_rights }
    } else if i == 5 {
        BootHandle { object: BootObject::VdsoFull, rights: vdso_rights }
    } else if i == 6 {
        BootHandle { object: BootObject::VdsoTest1, rights: vdso_rights }
    } else if i == 7 {
        BootHandle { object: BootObject::VdsoTest2, rights: vdso_rights }
    } else if i == 8 {
        BootHandle { object: BootObject::CrashLog, rights: vmo_rights }
    } else if i == 9 {
        BootHandle { object: BootObject::CounterNames, rights: vmo_rights }
    } else if i == 10 {
        BootHandle { object: BootObject::Counters, rights: vmo_rights }
    } else if 11 <= i < 15 {
        BootHandle { object: BootObject::InstrumentationData, rights: vmo_rights }
    } else {
        filler_handle()
    }
}

/// A table of `HANDLE_TABLE_LEN` slots, each holding the filler handle.
pub fn default_handle_table() -> (r: Vec<BootHandle>)
    ensures
        r@.len() == HANDLE_TABLE_LEN,
        forall|i: int| 0 <= i < HANDLE_TABLE_LEN ==> #[trigger] r@[i] == filler_handle(),
{
    let mut table: Vec<BootHandle> = Vec::new();
    let mut i: usize = 0;
    while i < HANDLE_TABLE_LEN
        invariant
            i <= HANDLE_TABLE_LEN,
            table@.len() == i,
            forall|j: int| 0 <= j < i ==> #[trigger] table@[j] == filler_handle(),
        decreases HANDLE_TABLE_LEN - i,
    {
        table.push(BootHandle { object: BootObject::Process, rights: Rights::empty() });
        i = i + 1;
    }
    table
}

/// The initial handle table: the filler table with the fixed slots assigned.
pub fn bootstrap_handle_table() -> (r: Vec<BootHandle>)
    ensures
        r@.len() == HANDLE_TABLE_LEN,
        forall|i: int| 0 <= i < HANDLE_TABLE_LEN ==> #[trigger] r@[i] == boot_handle(i),
{
    let mut t = default_handle_table();
    let vmo = Rights::from_bits(DEFAULT_VMO);
    let vdso = Rights::from_bits(DEFAULT_VMO | EXECUTE);
    t.set(K_PROC_SELF, BootHandle { object: BootObject::Process, rights: Rights::from_bits(DEFAULT_PROCESS) });
    t.set(K_VMARROOT_SELF, BootHandle { object: BootObject::RootVmar, rights: Rights::from_bits(DEFAULT_VMAR | IO) });
    t.set(K_ROOTJOB, BootHandle { object: BootObject::RootJob, rights: Rights::from_bits(DEFAULT_JOB) });
    t.set(K_ROOTRESOURCE, BootHandle { object: BootObject::RootResource, rights: Rights::from_bits(DEFAULT_RESOURCE) });
    t.set(K_ZBI, BootHandle { object: BootObject::Zbi, rights: vmo });
    t.set(K_FIRSTVDSO, BootHandle { object: BootObject::VdsoFull, rights: vdso });
    t.set(K_FIRSTVDSO + 1, BootHandle { object: BootObject::VdsoTest1, rights: vdso });
    t.set(K_FIRSTVDSO + 2, BootHandle { object: BootObject::VdsoTest2, rights: vdso });
    t.set(K_CRASHLOG, BootHandle { object: BootObject::CrashLog, rights: vmo });
    t.set(K_COUNTERNAMES, BootHandle { object: BootObject::CounterNames, rights: vmo });
    t.set(K_COUNTERS, BootHandle { object: BootObject::Counters, rights: vmo });
    let mut k: usize = K_FIRSTINSTRUMENTATIONDATA;
    while k < K_HANDLECOUNT
        invariant
            K_FIRSTINSTRUMENTATIONDATA <= k <= K_HANDLECOUNT,
            vmo.bits == DEFAULT_VMO,
            t@.len() == HANDLE_TABLE_LEN,
            forall|i: int| 0 <= i < k ==> #[trigger] t@[i] == boot_handle(i),
            forall|i: int| k <= i < HANDLE_TABLE_LEN ==> #[trigger] t@[i] == filler_handle(),
        decreases K_HANDLECOUNT - k,
    {
        t.set(k, BootHandle { object: BootObject::InstrumentationData, rights: vmo });
        k = k + 1;
    }
    t
}

/// The message body handed to the first process: the command line with
/// every `:` turned into a NUL byte, followed by a NUL terminator.
pub open spec fn payload_of(cmdline: Seq<u8>) -> Seq<u8> {
    Seq::new(cmdline.len(), |i: int| if cmdline[i] == 0x3a { 0u8 } else { cmdline[i] }).push(0u8)
}

pub fn cmdline_payload(cmdline: &[u8]) -> (r: Vec<u8>)
    ensures
        r@ == payload_of(cmdline@),
{
    let mut out: Vec<u8> = Vec::new();
    let mut i: usize = 0;
    while i < cmdline.len()
        invariant
            i <= cmdline@.len(),
            out@ =~= Seq::new(
                i as nat,
                |j: int| if cmdline@[j] == 0x3a { 0u8 } else { cmdline@[j] },
            ),
        decreases cmdline@.len() - i,
    {
        let c = cmdline[i];
        if c == 0x3a {
            out.push(0u8);
        } else {
            out.push(c);
        }
        i = i + 1;
    }
    out.push(0u8);
    assert(out@ =~= payload_of(cmdline@));
    out
}

/// Initial stack pointer for a stack mapped at `stack_bottom`: the top of
/// the stack less one return-address slot.
pub fn initial_stack_pointer(stack_bottom: usize, stack_size: usize) -> (r: usize)
    requires
        stack_size >= 8,
        stack_bottom + stack_size <= usize::MAX,
    ensures
        r == stack_bottom + stack_size - 8,
{
    stack_bottom + stack_size - 8
}

/// Size of the initial user stack.
pub fn stack_size() -> (r: usize)
    ensures
        r == STACK_PAGES * PAGE_SIZE,
{
    STACK_PAGES * PAGE_SIZE
}

/// Pages of a memory object made to hold `len` bytes.
pub open spec fn vmo_pages(len: int) -> int {
    len / (PAGE_SIZE as int) + 1
}

pub fn vmo_page_count(len: usize) -> (r: usize)
    ensures
        r == vmo_pages(len as int),
{
    len / PAGE_SIZE + 1
}

/// The 8 bytes of `x`, least significant first.
pub open spec fn le_bytes(x: u64) -> Seq<u8> {
    seq![
        (x & 0xff) as u8,
        ((x >> 8u64) & 0xff) as u8,
        ((x >> 16u64) & 0xff) as u8,
        ((x >> 24u64) & 0xff) as u8,
        ((x >> 32u64) & 0xff) as u8,
        ((x >> 40u64) & 0xff) as u8,
        ((x >> 48u64) & 0xff) as u8,
        ((x >> 56u64) & 0xff) as u8,
    ]
}

pub fn u64_le_bytes(x: u64) -> (r: Vec<u8>)
    ensures
        r@ == le_bytes(x),
{
    let mut v: Vec<u8> = Vec::new();
    v.push((x & 0xff) as u8);
    v.push(((x >> 8u64) & 0xff) as u8);
    v.push(((x >> 16u64) & 0xff) as u8);
    v.push(((x >> 24u64) & 0xff) as u8);
    v.push(((x >> 32u64) & 0xff) as u8);
    v.push(((x >> 40u64) & 0xff) as u8);
    v.push(((x >> 48u64) & 0xff) as u8);
    v.push(((x >> 56u64) & 0xff) as u8);
    assert(v@ =~= le_bytes(x));
    v
}

/// Writes `data` into `buf` at `at`.
pub fn write_at(buf: &mut Vec<u8>, at: usize, data: &[u8])
    requires
        at + data@.len() <= old(buf)@.len(),
    ensures
        final(buf)@ == mem_write(old(buf)@, at as int, data@),
{
    let blen = buf.len();
    let mut i: usize = 0;
    while i < data.len()
        invariant
            i <= data@.len(),
            at + data@.len() <= old(buf)@.len(),
            buf@.len() == old(buf)@.len(),
            blen == old(buf)@.len(),
            buf@ == mem_write(old(buf)@, at as int, data@.subrange(0, i as int)),
        decreases data@.len() - i,
    {
        buf.set(at + i, data[i]);
        i = i + 1;
        assert(buf@ =~= mem_write(old(buf)@, at as int, data@.subrange(0, i as int)));
    }
    assert(data@.subrange(0, data@.len() as int) =~= data@);
}

/// `len` zero bytes.
pub fn zeroed(len: usize) -> (r: Vec<u8>)
    ensures
        r@ == zeros(len as nat),
{
    let mut v: Vec<u8> = Vec::new();
    let mut i: usize = 0;
    while i < len
        invariant
            i <= len,
            v@ =~= zeros(i as nat),
        decreases len - i,
    {
        v.push(0u8);
        i = i + 1;
    }
    v
}

/// Size in bytes of the memory object that holds the v-DSO.
pub open spec fn vdso_vmo_size(vdso_len: int) -> int {
    vmo_pages(vdso_len) * PAGE_SIZE
}

/// The v-DSO patches fit inside its memory object: three syscall-entry
/// slots at `entry_off`, and the constants block at its fixed offset.
pub open spec fn vdso_patches_fit(vdso_len: int, entry_off: int, constants_len: int) -> bool {
    &&& vdso_vmo_size(vdso_len) <= usize::MAX
    &&& entry_off + 24 <= vdso_vmo_size(vdso_len)
    &&& VDSO_DATA_CONSTANTS + constants_len <= vdso_vmo_size(vdso_len)
}

/// Content of the v-DSO memory object: the raw image at offset 0, padded
/// with zeros, with the syscall entry address written in three consecutive
/// 8-byte slots at `entry_off` and the kernel constants at their offset.
pub open spec fn vdso_image_of(
    vdso: Seq<u8>,
    entry_off: int,
    syscall_entry: u64,
    constants: Seq<u8>,
) -> Seq<u8> {
    let base = mem_write(zeros(vdso_vmo_size(vdso.len() as int) as nat), 0, vdso);
    let e = le_bytes(syscall_entry);
    let patched = mem_write(
        mem_write(mem_write(base, entry_off, e), entry_off + 8, e),
        entry_off + 16,
        e,
    );
    mem_write(patched, VDSO_DATA_CONSTANTS as int, constants)
}

/// Builds the patched v-DSO memory object content, or `None` where a
/// patch would fall outside it.
pub fn build_vdso_image(vdso: &[u8], entry_off: usize, syscall_entry: u64, constants: &[u8]) -> (r:
    Option<Vec<u8>>)
    ensures
        r is Some == vdso_patches_fit(vdso@.len() as int, entry_off as int, constants@.len() as int),
        r matches Some(v) ==> v@ == vdso_image_of(vdso@, entry_off as int, syscall_entry, constants@),
{
    let pages = vmo_page_count(vdso.len());
    if pages > usize::MAX / PAGE_SIZE {
        return None;
    }
    let size = pages * PAGE_SIZE;
    if entry_off > size || size - entry_off < 24 || size < VDSO_DATA_CONSTANTS
        || constants.len() > size - VDSO_DATA_CONSTANTS {
        return None;
    }
    let mut image = zeroed(size);
    proof {
        assert(vdso@.len() <= size) by (nonlinear_arith)
            requires
                size == (vdso@.len() / 4096 + 1) * 4096,
        ;
    }
    write_at(&mut image, 0, vdso);
    let e = u64_le_bytes(syscall_entry);
    write_at(&mut image, entry_off, e.as_slice());
    write_at(&mut image, entry_off + 8, e.as_slice());
    write_at(&mut image, entry_off + 16, e.as_slice());
    write_at(&mut image, VDSO_DATA_CONSTANTS, constants);
    Some(image)
}

/// Name of the v-DSO symbol that marks the syscall trampoline slots.
pub open spec fn syscall_entry_symbol() -> Seq<u8> {
    seq![
        0x7au8, 0x63, 0x6f, 0x72, 0x65, 0x5f, 0x73, 0x79, 0x73, 0x63, 0x61, 0x6c, 0x6c, 0x5f,
        0x65, 0x6e, 0x74, 0x72, 0x79,
    ]
}

/// `zcore_syscall_entry`, as bytes.
pub fn syscall_entry_symbol_name() -> (r: Vec<u8>)
    ensures
        r@ == syscall_entry_symbol(),
{
    let r: Vec<u8> = vec![
        0x7au8, 0x63, 0x6f, 0x72, 0x65, 0x5f, 0x73, 0x79, 0x73, 0x63, 0x61, 0x6c, 0x6c, 0x5f,
        0x65, 0x6e, 0x74, 0x72, 0x79,
    ];
    assert(r@ =~= syscall_entry_symbol());
    r
}

/// Why the boot images cannot be laid out.
#[derive(Clone, Copy, Debug, PartialEq, Eq, Structural)]
pub enum BootError {
    /// The loader stub does not parse or has no loadable span.
    UserbootImage,
    /// The v-DSO does not parse or has no loadable span.
    VdsoImage,
    /// The v-DSO lacks the syscall entry symbol.
    SyscallEntryMissing,
    /// A v-DSO patch falls outside its memory object.
    VdsoPatch,
}

/// Everything the bootstrap derives from its inputs before it creates the
/// kernel objects. Offsets are relative to the base of the region that the
/// loader stub is allocated at.
pub struct BootLayout {
    /// Entry point of the loader stub, relative to its base.
    pub entry_offset: u64,
    /// Span of the loader stub's loadable segments.
    pub userboot_size: usize,
    /// Offset of the v-DSO region: right after the loader stub.
    pub vdso_offset: usize,
    /// Span of the v-DSO's loadable segments.
    pub vdso_size: usize,
    /// Content of the v-DSO memory object, patched.
    pub vdso_image: Vec<u8>,
    /// Pages of the boot payload memory object.
    pub zbi_pages: usize,
    /// Size of the initial stack.
    pub stack_size: usize,
    /// Body of the bootstrap message.
    pub payload: Vec<u8>,
    /// Handles of the bootstrap message, in slot order.
    pub handles: Vec<BootHandle>,
    /// Size of the address range, from 0, that the root resource spans.
    pub root_resource_size: u64,
}

/// The error, if any, that laying out these parts gives.
pub open spec fn boot_error_of(
    useg: Seq<ProgramSegment>,
    vdso: Seq<u8>,
    vseg: Seq<ProgramSegment>,
    vsyms: Seq<ElfSymbol>,
    constants_len: int,
) -> Option<BootError> {
    if span_of(useg) is None {
        Some(BootError::UserbootImage)
    } else if span_of(vseg) is None {
        Some(BootError::VdsoImage)
    } else if symbol_value(vsyms, syscall_entry_symbol()) is None {
        Some(BootError::SyscallEntryMissing)
    } else if !vdso_patches_fit(
        vdso.len() as int,
        symbol_value(vsyms, syscall_entry_symbol())->0 as int,
        constants_len,
    ) {
        Some(BootError::VdsoPatch)
    } else {
        None
    }
}

/// `l` is the layout of these parts.
pub open spec fn layout_of(
    l: BootLayout,
    entry: u64,
    useg: Seq<ProgramSegment>,
    vdso: Seq<u8>,
    vseg: Seq<ProgramSegment>,
    vsyms: Seq<ElfSymbol>,
    zbi_len: int,
    cmdline: Seq<u8>,
    syscall_entry: u64,
    constants: Seq<u8>,
) -> bool {
    &&& l.entry_offset == entry
    &&& span_of(useg) == Some(l.userboot_size)
    &&& l.vdso_offset == l.userboot_size
    &&& span_of(vseg) == Some(l.vdso_size)
    &&& l.vdso_image@ == vdso_image_of(
        vdso,
        symbol_value(vsyms, syscall_entry_symbol())->0 as int,
        syscall_entry,
        constants,
    )
    &&& l.zbi_pages == vmo_pages(zbi_len)
    &&& l.stack_size == STACK_PAGES * PAGE_SIZE
    &&& l.payload@ == payload_of(cmdline)
    &&& l.root_resource_size == ROOT_RESOURCE_SIZE
    &&& l.handles@.len() == HANDLE_TABLE_LEN
    &&& forall|i: int| 0 <= i < HANDLE_TABLE_LEN ==> #[trigger] l.handles@[i] == boot_handle(i)
}

/// Lays out the bootstrap from what was read out of the two ELF images:
/// the loader stub's entry point and program headers, the v-DSO's raw bytes,
/// program headers and symbols.
pub fn layout_from_parts(
    entry: u64,
    useg: &Vec<ProgramSegment>,
    vdso: &[u8],
    vseg: &Vec<ProgramSegment>,
    vsyms: &Vec<ElfSymbol>,
    zbi_len: usize,
    cmdline: &[u8],
    syscall_entry: u64,
    constants: &[u8],
) -> (r: Result<BootLayout, BootError>)
    ensures
        r is Err == boot_error_of(useg@, vdso@, vseg@, vsyms@, constants@.len() as int) is Some,
        r matches Err(e) ==> boot_error_of(useg@, vdso@, vseg@, vsyms@, constants@.len() as int)
            == Some(e),
        r matches Ok(l) ==> layout_of(
            l,
            entry,
            useg@,
            vdso@,
            vseg@,
            vsyms@,
            zbi_len as int,
            cmdline@,
            syscall_entry,
            constants@,
        ),
{
    let userboot_size = match load_segment_size(useg) {
        Some(s) => s,
        None => return Err(BootError::UserbootImage),
    };
    let vdso_size = match load_segment_size(vseg) {
        Some(s) => s,
        None => return Err(BootError::VdsoImage),
    };
    let name = syscall_entry_symbol_name();
    let off = match find_symbol(vsyms, name.as_slice()) {
        Some(v) => v,
        None => return Err(BootError::SyscallEntryMissing),
    };
    if off > usize::MAX as u64 {
        return Err(BootError::VdsoPatch);
    }
    let vdso_image = match build_vdso_image(vdso, off as usize, syscall_entry, constants) {
        Some(v) => v,
        None => return Err(BootError::VdsoPatch),
    };
    Ok(
        BootLayout {
            entry_offset: entry,
            userboot_size,
            vdso_offset: userboot_size,
            vdso_size,
            vdso_image,
            zbi_pages: vmo_page_count(zbi_len),
            stack_size: stack_size(),
            payload: cmdline_payload(cmdline),
            handles: bootstrap_handle_table(),
            root_resource_size: ROOT_RESOURCE_SIZE,
        },
    )
}

/// Reads the two ELF images and lays out the bootstrap. An image whose
/// headers, tables or symbol names fall outside it (see `elf_sound`), or that
/// does not parse, gives the error of that image; otherwise the result is
/// that of `layout_from_parts` on what was read. Image buffers start on an
/// 8-byte boundary, as a `Vec<u8>` heap buffer of header size or more does.
pub fn plan_userboot(images: &Images, cmdline: &[u8], syscall_entry: u64, constants: &[u8]) -> (r:
    Result<BootLayout, BootError>)
    ensures
        !elf_header_sound(images.userboot@) ==> r == Err::<BootLayout, BootError>(
            BootError::UserbootImage,
        ),
        elf_header_sound(images.userboot@) && (!elf_symbols_sound(images.vdso@) || elf_symbols_of(
            images.vdso@,
        ) is None) ==> r == Err::<BootLayout, BootError>(BootError::VdsoImage),
        elf_header_sound(images.userboot@) && elf_symbols_sound(images.vdso@) ==> (elf_symbols_of(
            images.vdso@,
        ) matches Some(vsyms) ==> {
            let useg = header_segments(images.userboot@);
            let vseg = header_segments(images.vdso@);
            &&& r is Err == boot_error_of(
                useg,
                images.vdso@,
                vseg,
                vsyms,
                constants@.len() as int,
            ) is Some
            &&& r matches Err(e) ==> boot_error_of(
                useg,
                images.vdso@,
                vseg,
                vsyms,
                constants@.len() as int,
            ) == Some(e)
            &&& r matches Ok(l) ==> layout_of(
                l,
                u64_at(images.userboot@, 24) as u64,
                useg,
                images.vdso@,
                vseg,
                vsyms,
                images.zbi@.len() as int,
                cmdline@,
                syscall_entry,
                constants@,
            )
        }),
{
    if !check_elf_header(images.userboot.as_slice()) {
        return Err(BootError::UserbootImage);
    }
    let entry = match elf_entry(images.userboot.as_slice()) {
        Some(e) => e,
        None => return Err(BootError::UserbootImage),
    };
    let useg = match elf_segments(images.userboot.as_slice()) {
        Some(s) => s,
        None => return Err(BootError::UserbootImage),
    };
    if !check_elf_symbols(images.vdso.as_slice()) {
        return Err(BootError::VdsoImage);
    }
    let vseg = match elf_segments(images.vdso.as_slice()) {
        Some(s) => s,
        None => return Err(BootError::VdsoImage),
    };
    let vsyms = match elf_symbols(images.vdso.as_slice()) {
        Some(s) => s,
        None => return Err(BootError::VdsoImage),
    };
    layout_from_parts(
        entry,
        &useg,
        images.vdso.as_slice(),
        &vseg,
        &vsyms,
        images.zbi.len(),
        cmdline,
        syscall_entry,
        constants,
    )
}

/// How the first thread starts: its entry point and initial stack pointer,
/// and the rights of the user-side channel handle passed as its argument.
#[derive(Clone, Copy, Debug, PartialEq, Eq, Structural)]
pub struct StartParams {
    pub entry: usize,
    pub stack_pointer: usize,
    pub channel_rights: Rights,
}

/// Start parameters of the first thread, once the loader stub has been
/// placed at `stub_base` and the stack mapped at `stack_bottom`.
pub fn start_params(l: &BootLayout, stub_base: usize, stack_bottom: usize) -> (r: StartParams)
    requires
        stub_base + l.entry_offset <= usize::MAX,
        stack_bottom + l.stack_size <= usize::MAX,
        l.stack_size >= 8,
    ensures
        r.entry == stub_base + l.entry_offset,
        r.stack_pointer == stack_bottom + l.stack_size - 8,
        r.channel_rights.bits == DEFAULT_CHANNEL,
{
    StartParams {
        entry: stub_base + l.entry_offset as usize,
        stack_pointer: initial_stack_pointer(stack_bottom, l.stack_size),
        channel_rights: Rights::from_bits(DEFAULT_CHANNEL),
    }
}

/// The initial stack pointer of a bootstrap layout sits one return-address
/// slot below the top of the 8-page stack, 16-byte aligned once that slot
/// is pushed when the stack is page-aligned.
pub proof fn lemma_stack_pointer(l: BootLayout, stack_bottom: usize, r: StartParams)
    requires
        l.stack_size == STACK_PAGES * PAGE_SIZE,
        stack_bottom % PAGE_SIZE == 0,
        r.stack_pointer == stack_bottom + l.stack_size - 8,
    ensures
        r.stack_pointer == stack_bottom + 8 * PAGE_SIZE - 8,
        (r.stack_pointer + 8) % 16 == 0,
{
}

} // verus!
