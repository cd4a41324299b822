use rk3588_rs::interface::{AllocationSet, NpuMemory};

#[test]
fn memory_descriptor_getters() {
    let m = NpuMemory::new(4096, 7, 0xffff_0000_1234, 0x8000_0000);
    assert_eq!(m.size(), 4096);
    assert_eq!(m.handle(), 7);
    assert_eq!(m.obj_addr(), 0xffff_0000_1234);
    assert_eq!(m.dma_addr(), 0x8000_0000);
}

#[test]
fn write_prefix() {
    let m = NpuMemory::new(8, 1, 2, 3);
    let mut mapped = [9u8; 8];
    assert!(m.write(&mut mapped, &[1, 2, 3]).is_ok());
    assert_eq!(mapped, [1, 2, 3, 9, 9, 9, 9, 9]);
    assert!(m.write(&mut mapped, &[5; 8]).is_ok());
    assert_eq!(mapped, [5; 8]);
    assert!(m.write(&mut mapped, &[]).is_ok());
    assert_eq!(mapped, [5; 8]);
}

#[test]
fn write_too_long_is_refused() {
    let m = NpuMemory::new(4, 1, 2, 3);
    let mut mapped = [0u8; 4];
    let err = m.write(&mut mapped, &[1, 2, 3, 4, 5]).unwrap_err();
    assert_eq!(err.kind(), std::io::ErrorKind::InvalidInput);
    assert_eq!(err.to_string(), "Data size exceeds allocated memory size");
    assert_eq!(mapped, [0; 4]);
}

#[test]
fn allocation_set_record_and_forget() {
    let mut s = AllocationSet::new();
    assert!(!s.contains(1, 10));
    s.insert(1, 10);
    s.insert(2, 20);
    s.insert(1, 10);
    assert!(s.contains(1, 10));
    assert!(s.contains(2, 20));
    assert!(!s.contains(1, 20));
    assert_eq!(s.to_vec(), vec![(1, 10), (2, 20)]);
    s.remove(1, 10);
    assert!(!s.contains(1, 10));
    assert!(s.contains(2, 20));
    s.remove(3, 30);
    assert_eq!(s.to_vec(), vec![(2, 20)]);
    s.remove(2, 20);
    assert!(s.to_vec().is_empty());
}
