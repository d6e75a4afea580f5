use zircon_boot::frame::{PAGE_SIZE, PMEM_SIZE};
use zircon_boot::pmem::PhysMem;

#[test]
fn fresh_memory_reads_zero() {
    let m = PhysMem::new();
    let mut buf = vec![7u8; 16];
    m.pmem_read(0x5000, &mut buf);
    assert_eq!(buf, vec![0u8; 16]);
}

#[test]
fn write_then_read_round_trip() {
    let mut m = PhysMem::new();
    let data: Vec<u8> = (0..100u8).collect();
    // spans a page boundary
    let p = 3 * PAGE_SIZE - 40;
    m.pmem_write(p, &data);
    let mut buf = vec![0u8; data.len()];
    m.pmem_read(p, &mut buf);
    assert_eq!(buf, data);
}

#[test]
fn write_at_top_of_memory() {
    let mut m = PhysMem::new();
    m.pmem_write(PMEM_SIZE - 3, &[1, 2, 3]);
    let mut buf = vec![0u8; 4];
    m.pmem_read(PMEM_SIZE - 4, &mut buf);
    assert_eq!(buf, vec![0, 1, 2, 3]);
}

#[test]
fn zero_clears_a_range() {
    let mut m = PhysMem::new();
    m.pmem_write(0x2000, &[9u8; 32]);
    m.pmem_zero(0x2008, 8);
    let mut buf = vec![0u8; 32];
    m.pmem_read(0x2000, &mut buf);
    let mut expected = vec![9u8; 32];
    for b in &mut expected[8..16] {
        *b = 0;
    }
    assert_eq!(buf, expected);
}

#[test]
fn frame_copy_copies_one_page() {
    let mut m = PhysMem::new();
    let src = 4 * PAGE_SIZE;
    let dst = 9 * PAGE_SIZE;
    let data: Vec<u8> = (0..PAGE_SIZE).map(|i| (i % 251) as u8).collect();
    m.pmem_write(src, &data);
    m.pmem_write(dst + PAGE_SIZE, &[5]);
    m.frame_copy(src, dst);
    m.frame_flush(dst);
    let mut a = vec![0u8; PAGE_SIZE];
    let mut b = vec![0u8; PAGE_SIZE];
    m.pmem_read(src, &mut a);
    m.pmem_read(dst, &mut b);
    assert_eq!(a, b);
    assert_eq!(b, data);
    let mut after = vec![0u8; 1];
    m.pmem_read(dst + PAGE_SIZE, &mut after);
    assert_eq!(after, vec![5]);
}

#[test]
fn frame_copy_onto_itself_changes_nothing() {
    let mut m = PhysMem::new();
    let p = 6 * PAGE_SIZE;
    let data: Vec<u8> = (0..PAGE_SIZE).map(|i| (i % 7) as u8).collect();
    m.pmem_write(p, &data);
    m.frame_copy(p, p);
    let mut buf = vec![0u8; PAGE_SIZE];
    m.pmem_read(p, &mut buf);
    assert_eq!(buf, data);
}
