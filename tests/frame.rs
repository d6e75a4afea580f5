use zircon_boot::frame::{
    mmap_prot, phys_to_virt, range_in_pmem, FrameAllocator, PhysFrame, PAGE_COUNT, PAGE_SIZE,
    PMEM_BASE, PMEM_SIZE, PROT_EXEC, PROT_READ, PROT_WRITE,
};

#[test]
fn frames_come_out_in_order_and_distinct() {
    let mut a = FrameAllocator::new();
    let f1 = PhysFrame::allocate(&mut a).unwrap();
    let f2 = PhysFrame::allocate(&mut a).unwrap();
    assert_eq!(f1.addr(), PAGE_SIZE);
    assert_eq!(f2.addr(), 2 * PAGE_SIZE);
    assert_ne!(f1.addr(), f2.addr());
}

#[test]
fn released_frame_goes_to_the_back() {
    let mut a = FrameAllocator::new();
    let f1 = PhysFrame::allocate(&mut a).unwrap();
    let addr = f1.addr();
    f1.dealloc(&mut a);
    let f2 = PhysFrame::allocate(&mut a).unwrap();
    assert_eq!(f2.addr(), 2 * PAGE_SIZE);
    assert_ne!(f2.addr(), addr);
}

#[test]
fn allocator_exhaustion() {
    let mut a = FrameAllocator::new();
    let mut frames = Vec::new();
    for i in 1..PAGE_COUNT {
        let f = PhysFrame::allocate(&mut a).expect("frame");
        assert_eq!(f.addr(), i * PAGE_SIZE);
        frames.push(f);
    }
    assert_eq!(frames.len(), PMEM_SIZE / PAGE_SIZE - 1);
    assert!(PhysFrame::allocate(&mut a).is_none());
    let last = frames.pop().unwrap();
    let addr = last.addr();
    last.dealloc(&mut a);
    assert_eq!(PhysFrame::allocate(&mut a).unwrap().addr(), addr);
    assert!(PhysFrame::allocate(&mut a).is_none());
}

#[test]
fn zero_frame_is_address_zero() {
    assert_eq!(PhysFrame::zero_frame_addr(), 0);
}

#[test]
fn physical_to_virtual() {
    assert_eq!(phys_to_virt(0), 0x8_0000_0000);
    assert_eq!(phys_to_virt(0x1234), PMEM_BASE + 0x1234);
}

#[test]
fn range_checks() {
    assert!(range_in_pmem(0, PMEM_SIZE));
    assert!(range_in_pmem(PMEM_SIZE - 1, 1));
    assert!(!range_in_pmem(PMEM_SIZE - 1, 2));
    assert!(!range_in_pmem(usize::MAX, 2));
}

#[test]
fn exec_mappings_gain_write_where_required() {
    assert_eq!(mmap_prot(PROT_READ | PROT_EXEC, true), PROT_READ | PROT_WRITE | PROT_EXEC);
    assert_eq!(mmap_prot(PROT_READ | PROT_EXEC, false), PROT_READ | PROT_EXEC);
    assert_eq!(mmap_prot(PROT_READ, true), PROT_READ);
}
