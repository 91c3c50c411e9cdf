use vmm_core::frame::{BumpFrameAllocator, FrameAllocator, HostFrame};
use vmm_core::memory::{map_guest_memory, EptTable, GuestPhysAddr};

fn allocator(frames: u64) -> BumpFrameAllocator {
    BumpFrameAllocator::new(0x0100_0000, 0x0100_0000 + frames * 4096).unwrap()
}

fn frame(addr: u64) -> HostFrame {
    HostFrame::from_start_address(addr).unwrap()
}

#[test]
fn mapped_addresses_resolve_to_their_frames() {
    let mut alloc = allocator(64);
    let root = alloc.allocate_frame().unwrap();
    let mut ept = EptTable::new(root);

    let f1 = frame(0x8000);
    let f2 = frame(0x9000);
    let f3 = frame(0xa000);
    map_guest_memory(&mut alloc, &mut ept, GuestPhysAddr::new(0xffff_f000), f1, false).unwrap();
    map_guest_memory(&mut alloc, &mut ept, GuestPhysAddr::new(0x1000), f2, true).unwrap();
    // An address in another top-level region of the space.
    map_guest_memory(&mut alloc, &mut ept, GuestPhysAddr::new(0x80_0000_0000), f3, true).unwrap();

    assert_eq!(ept.translate(GuestPhysAddr::new(0xffff_f000)), Some((0x8000, false)));
    assert_eq!(ept.translate(GuestPhysAddr::new(0x1000)), Some((0x9000, true)));
    assert_eq!(ept.translate(GuestPhysAddr::new(0x80_0000_0000)), Some((0xa000, true)));
}

#[test]
fn unmapped_addresses_resolve_to_none() {
    let mut alloc = allocator(64);
    let root = alloc.allocate_frame().unwrap();
    let mut ept = EptTable::new(root);

    assert_eq!(ept.translate(GuestPhysAddr::new(0)), None);
    map_guest_memory(&mut alloc, &mut ept, GuestPhysAddr::new(0x1000), frame(0x8000), true)
        .unwrap();
    // Neighbours of the mapped page stay unmapped.
    assert_eq!(ept.translate(GuestPhysAddr::new(0x0)), None);
    assert_eq!(ept.translate(GuestPhysAddr::new(0x2000)), None);
    assert_eq!(ept.translate(GuestPhysAddr::new(0xffff_f000)), None);
}

#[test]
fn whole_page_shares_one_translation() {
    let mut alloc = allocator(64);
    let root = alloc.allocate_frame().unwrap();
    let mut ept = EptTable::new(root);
    map_guest_memory(&mut alloc, &mut ept, GuestPhysAddr::new(0xffff_f000), frame(0x8000), false)
        .unwrap();
    assert_eq!(ept.translate(GuestPhysAddr::new(0xffff_f123)), Some((0x8000, false)));
    assert_eq!(ept.translate(GuestPhysAddr::new(0xffff_ffff)), Some((0x8000, false)));
}

#[test]
fn remapping_a_page_replaces_its_frame() {
    let mut alloc = allocator(64);
    let root = alloc.allocate_frame().unwrap();
    let mut ept = EptTable::new(root);
    map_guest_memory(&mut alloc, &mut ept, GuestPhysAddr::new(0x1000), frame(0x8000), false)
        .unwrap();
    map_guest_memory(&mut alloc, &mut ept, GuestPhysAddr::new(0x1000), frame(0x9000), true)
        .unwrap();
    assert_eq!(ept.translate(GuestPhysAddr::new(0x1000)), Some((0x9000, true)));
}

#[test]
fn exhausted_allocator_fails_the_mapping_and_changes_nothing() {
    // The first mapping needs three intermediate tables; an allocator
    // with fewer frames must fail and leave every translation unchanged.
    let mut alloc = allocator(1);
    let root = alloc.allocate_frame().unwrap();
    let mut ept = EptTable::new(root);
    assert!(map_guest_memory(&mut alloc, &mut ept, GuestPhysAddr::new(0x1000), frame(0x8000), true)
        .is_err());
    assert_eq!(ept.translate(GuestPhysAddr::new(0x1000)), None);
}
