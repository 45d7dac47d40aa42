use nes_rust::register::Register;

#[test]
fn initial_value() {
    let r = Register::<u8>::new();
    assert_eq!(0, r.data);
}

#[test]
fn get_width() {
    let r = Register::<u8>::new();
    assert_eq!(8, r.get_width());
}

#[test]
fn load() {
    let r = Register::<u8>::new();
    assert_eq!(0, r.load());
}

#[test]
fn load_bit() {
    let mut r = Register::<u8>::new();
    r.store(2);
    assert_eq!(1, r.load_bit(1));
}

#[test]
fn load_bits() {
    let mut r = Register::<u8>::new();
    r.store(2);
    assert_eq!(1, r.load_bits(1, 2));
}

#[test]
fn store() {
    let mut r = Register::<u8>::new();
    r.store(0xFF);
    assert_eq!(0xFF, r.load());
    r.store(0);
    assert_eq!(0, r.load());
}

#[test]
fn store_bit() {
    let mut r = Register::<u8>::new();
    r.store_bit(1, 1);
    assert_eq!(2, r.load());
    r.store(0xFF);
    r.store_bit(1, 0);
    assert_eq!(0xFD, r.load());
}

#[test]
fn store_bits() {
    let mut r = Register::<u8>::new();
    r.store_bits(1, 2, 3);
    assert_eq!(6, r.load());
    r.store(0xFF);
    r.store_bits(1, 2, 0);
    assert_eq!(0xF9, r.load());
}

#[test]
fn clear() {
    let mut r = Register::<u8>::new();
    r.store(0xFF);
    r.clear();
    assert_eq!(0, r.load());
}

#[test]
fn set_bit() {
    let mut r = Register::<u8>::new();
    r.set_bit(1);
    assert_eq!(2, r.load());
}

#[test]
fn clear_bit() {
    let mut r = Register::<u8>::new();
    r.store(0xFF);
    r.clear_bit(1);
    assert_eq!(0xFD, r.load());
}

#[test]
fn is_bit_set() {
    let mut r = Register::<u8>::new();
    assert_eq!(false, r.is_bit_set(1));
    r.set_bit(1);
    assert_eq!(true, r.is_bit_set(1));
}

#[test]
fn increment() {
    let mut r = Register::<u8>::new();
    r.increment();
    assert_eq!(1, r.load());
    r.store(0xFF);
    r.increment();
    assert_eq!(0, r.load());
}

#[test]
fn increment_by_2() {
    let mut r = Register::<u8>::new();
    r.increment_by_2();
    assert_eq!(2, r.load());
    r.store(0xFF);
    r.increment_by_2();
    assert_eq!(1, r.load());
}

#[test]
fn add() {
    let mut r = Register::<u8>::new();
    r.add(3);
    assert_eq!(3, r.load());
    r.store(0xFF);
    r.add(3);
    assert_eq!(2, r.load());
}

#[test]
fn decrement() {
    let mut r = Register::<u8>::new();
    r.decrement();
    assert_eq!(0xFF, r.load());
    r.decrement();
    assert_eq!(0xFE, r.load());
}

#[test]
fn decrement_by_2() {
    let mut r = Register::<u8>::new();
    r.decrement_by_2();
    assert_eq!(0xFE, r.load());
    r.decrement_by_2();
    assert_eq!(0xFC, r.load());
}

#[test]
fn sub() {
    let mut r = Register::<u8>::new();
    r.sub(3);
    assert_eq!(0xFD, r.load());
    r.sub(3);
    assert_eq!(0xFA, r.load());
}

#[test]
fn shift() {
    let mut r = Register::<u8>::new();
    assert_eq!(0, r.shift(1));
    assert_eq!(1, r.load());
    assert_eq!(0, r.shift(0));
    assert_eq!(2, r.load());
    r.store(0xFF);
    assert_eq!(1, r.shift(1));
    assert_eq!(0xFF, r.load());
    assert_eq!(1, r.shift(0));
    assert_eq!(0xFE, r.load());
}

#[test]
fn dump() {
    let mut r = Register::<u8>::new();
    assert_eq!("0x00", r.dump());
    r.store(0xFF);
    assert_eq!("0xff", r.dump());
    r.store(0x8A);
    assert_eq!("0x8a", r.dump());
}

