use aarch64_bringup::percpu::PerCpu;

#[test]
fn cold_init_populates_exactly_the_roster_ids() {
    let mut store: PerCpu<u64> = PerCpu::new();
    let ids = vec![0x100usize, 0x101, 0x102];
    store.cpu0_init(&ids, || 42u64);
    for id in [0x100usize, 0x101, 0x102] {
        assert!(store.has_id(id));
        assert_eq!(*store.get(id), 42u64);
    }
    assert!(!store.has_id(0x103));
}

#[test]
fn an_empty_store_holds_no_id() {
    let store: PerCpu<u8> = PerCpu::new();
    assert!(!store.has_id(0));
}

#[test]
fn a_repeated_id_gets_one_slot() {
    let mut store: PerCpu<u32> = PerCpu::new();
    let ids = vec![5usize, 5, 6];
    store.cpu0_init(&ids, || 9u32);
    assert!(store.has_id(5));
    assert!(store.has_id(6));
    assert_eq!(*store.get(5), 9u32);
    assert_eq!(*store.get(6), 9u32);
}

#[test]
fn each_slot_holds_what_the_factory_produced() {
    let mut store: PerCpu<Vec<u8>> = PerCpu::new();
    let ids = vec![1usize, 2];
    store.cpu0_init(&ids, || vec![0xAAu8, 0xBB]);
    assert_eq!(store.get(1).as_slice(), &[0xAAu8, 0xBB]);
    assert_eq!(store.get(2).as_slice(), &[0xAAu8, 0xBB]);
}
