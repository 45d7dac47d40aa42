use nes_rust::memory::Memory;

#[test]
fn memory_initialize() {
    let m = Memory::new(vec![0; 1]);
    assert_eq!(0, m.load(0));
}

#[test]
fn memory_clear() {
    let mut m = Memory::new(vec![0; 16]);
    for i in 0..m.capacity() {
        m.store(i, 1);
    }
    m.clear();
    for i in 0..m.capacity() {
        assert_eq!(0, m.load(i));
    }
}

#[test]
fn capacity() {
    let m = Memory::new(vec![0; 16]);
    assert_eq!(0x10, m.capacity());
}

#[test]
fn store_and_load() {
    let mut m = Memory::new(vec![0; 16]);
    assert_eq!(0, m.load(1));
    m.store(1, 1);
    assert_eq!(1, m.load(1));
    assert_eq!(0, m.load(2));
}

#[test]
fn memory_contains_tells_the_addresses_held() {
    let m = Memory::new(vec![7; 3]);
    assert!(m.contains(0));
    assert!(m.contains(2));
    assert!(!m.contains(3));
}
