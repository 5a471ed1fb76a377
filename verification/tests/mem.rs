use phipsboot::mem::heap::Heap;
use phipsboot::mem::paging::Level;
use phipsboot::mem::paging::PhysAddr;
use phipsboot::mem::paging::VirtAddr;
use phipsboot::mem::Memory;
use phipsboot::once::Once;
use phipsboot::safe::Safe;

#[test]
fn page_table_index_and_offset() {
    let addr = VirtAddr::from(0xdead_beef_1337_1337);
    assert_eq!(addr.pt_index(Level::One), 369);
    assert_eq!(addr.pt_index(Level::Two), 153);
    assert_eq!(addr.pt_index(Level::Three), 444);
    assert_eq!(addr.pt_index(Level::Four), 381);
    assert_eq!(addr.pt_offset(Level::One), 0xb88);
    assert_eq!(addr.pt_offset(Level::Two), 0x4c8);
    assert_eq!(addr.pt_offset(Level::Three), 0xde0);
    assert_eq!(addr.pt_offset(Level::Four), 0xbe8);
}

#[test]
fn test_once_smart_pointer() {
    let mut foo = Once::<String>::new();
    foo.init(String::from("hello"))
}

#[test]
fn once_reads_back_the_stored_value() {
    let mut cell = Once::<u64>::new();
    assert!(!cell.is_initialized());
    cell.init(7);
    assert!(cell.is_initialized());
    assert_eq!(*cell.get(), 7);
}

#[test]
fn once_double_init_is_detected() {
    let mut cell = Once::<u64>::new();
    assert_eq!(cell.try_init(1), Ok(()));
    assert_eq!(cell.try_init(2), Err(2));
    assert_eq!(*cell.get(), 1);
}

#[test]
fn safe_test_basic() {
    let mut foo = Safe::new(1337);
    assert_eq!(*foo.get(), 1337);
    foo.0 = 42;
    assert_eq!(*foo.get(), 42);
}

#[test]
fn test_basic() {
    let mut foo = Safe::new(1337);
    let read = *foo.get();
    assert_eq!(read, 1337);
    foo.0 = 42;
    let write = *foo.get();
    assert_eq!(write, 42);
}

#[test]
fn mem_translates_with_a_negative_offset() {
    let mut mem = Memory::new();
    mem.init(-0x200000);
    assert_eq!(mem.load_offset(), -0x200000);
    let phys = mem.virt_to_phys(VirtAddr::new(0x1_0000_0000));
    assert_eq!(phys, PhysAddr::new(0xFFE0_0000));
    assert_eq!(phys.val(), 0x1_0000_0000u64.wrapping_add((-0x200000i64) as u64));
}

#[test]
fn mem_translates_with_a_positive_offset() {
    let mut mem = Memory::new();
    mem.init(0x1000);
    assert_eq!(mem.virt_to_phys(VirtAddr::new(0x2000)).val(), 0x3000);
}

#[test]
fn mem_double_configuration_is_detected() {
    let mut mem = Memory::new();
    assert_eq!(mem.try_init(-0x200000), Ok(()));
    assert_eq!(mem.try_init(0x1000), Err(0x1000));
    assert_eq!(mem.load_offset(), -0x200000);
}

#[test]
fn heap_records_the_arena_once() {
    let mut heap = Heap::new();
    heap.init(0x8000_0000, 0x20000);
    assert_eq!(heap.base(), 0x8000_0000);
    assert_eq!(heap.size(), 0x20000);
}

#[test]
fn heap_double_initialization_is_detected() {
    let mut heap = Heap::new();
    assert_eq!(heap.try_init(0x8000_0000, 0x20000), Ok(()));
    let err = heap.try_init(0x9000_0000, 0x1000).unwrap_err();
    assert_eq!(err.base, 0x9000_0000);
    assert_eq!(err.size, 0x1000);
    assert_eq!(heap.base(), 0x8000_0000);
    assert_eq!(heap.size(), 0x20000);
}

#[test]
fn paging_level_values() {
    assert_eq!(Level::One.val(), 1);
    assert_eq!(Level::Two.val(), 2);
    assert_eq!(Level::Three.val(), 3);
    assert_eq!(Level::Four.val(), 4);
}
