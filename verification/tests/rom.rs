use nes_rust::rom::Rom;

#[test]
fn rom_initialize() {
    let _r = Rom::new(vec![0; 17]);
}

#[test]
fn rom_load() {
    let r = Rom::new(vec![0; 17]);
    assert_eq!(0, r.load(0));
}

#[test]
fn rom_store() {
    let mut r = Rom::new(vec![0; 17]);
    r.store(0, 0);
}

#[test]
fn valid() {
    let r = Rom::new(vec![0; 64]);
    assert_eq!(false, r.valid());
    let mut v = vec![0; 64];
    v[0] = 0x4e; // N
    v[1] = 0x45; // E
    v[2] = 0x53; // S
    v[3] = 0x1a; // magic number
    let r2 = Rom::new(v);
    assert_eq!(true, r2.valid());
}
