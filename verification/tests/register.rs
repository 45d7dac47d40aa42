use nes_rust::register::Register;

#[test]
fn register_initial_value() {
    let r = Register::<u16>::new();
    assert_eq!(0, r.data);
}

#[test]
fn register_get_width() {
    let r = Register::<u16>::new();
    assert_eq!(16, r.get_width());
}

#[test]
fn register_load() {
    let r = Register::<u16>::new();
    assert_eq!(0, r.load());
}

#[test]
fn register_load_bit() {
    let mut r = Register::<u16>::new();
    r.store(2);
    assert_eq!(1, r.load_bit(1));
}

#[test]
fn register_load_bits() {
    let mut r = Register::<u16>::new();
    r.store(2);
    assert_eq!(1, r.load_bits(1, 2));
}

#[test]
fn register_store() {
    let mut r = Register::<u16>::new();
    r.store(0xFF);
    assert_eq!(0xFF, r.load());
    r.store(0);
    assert_eq!(0, r.load());
}

#[test]
fn register_store_bit() {
    let mut r = Register::<u16>::new();
    r.store_bit(1, 1);
    assert_eq!(2, r.load());
    r.store(0xFF);
    r.store_bit(1, 0);
    assert_eq!(0xFD, r.load());
}

#[test]
fn register_store_bits() {
    let mut r = Register::<u16>::new();
    r.store_bits(1, 2, 3);
    assert_eq!(6, r.load());
    r.store(0xFF);
    r.store_bits(1, 2, 0);
    assert_eq!(0xF9, r.load());
}

#[test]
fn register_clear() {
    let mut r = Register::<u16>::new();
    r.store(0xFF);
    r.clear();
    assert_eq!(0, r.load());
}

#[test]
fn register_set_bit() {
    let mut r = Register::<u16>::new();
    r.set_bit(1);
    assert_eq!(2, r.load());
}

#[test]
fn register_clear_bit() {
    let mut r = Register::<u16>::new();
    r.store(0xFF);
    r.clear_bit(1);
    assert_eq!(0xFD, r.load());
}

#[test]
fn register_is_bit_set() {
    let mut r = Register::<u16>::new();
    assert_eq!(false, r.is_bit_set(1));
    r.set_bit(1);
    assert_eq!(true, r.is_bit_set(1));
}

#[test]
fn register_increment() {
    let mut r = Register::<u16>::new();
    r.increment();
    assert_eq!(1, r.load());
    r.store(0xFF);
    r.increment();
    assert_eq!(0x100, r.load());
    r.store(0xFFFF);
    r.increment();
    assert_eq!(0, r.load());
}

#[test]
fn register_increment_by_2() {
    let mut r = Register::<u16>::new();
    r.increment_by_2();
    assert_eq!(2, r.load());
    r.store(0xFF);
    r.increment_by_2();
    assert_eq!(0x101, r.load());
    r.store(0xFFFF);
    r.increment_by_2();
    assert_eq!(1, r.load());
}

#[test]
fn register_add() {
    let mut r = Register::<u16>::new();
    r.add(3);
    assert_eq!(3, r.load());
    r.store(0xFF);
    r.add(3);
    assert_eq!(0x102, r.load());
    r.store(0xFFFF);
    r.add(3);
    assert_eq!(2, r.load());
}

#[test]
fn register_decrement() {
    let mut r = Register::<u16>::new();
    r.decrement();
    assert_eq!(0xFFFF, r.load());
    r.decrement();
    assert_eq!(0xFFFE, r.load());
}

#[test]
fn register_decrement_by_2() {
    let mut r = Register::<u16>::new();
    r.decrement_by_2();
    assert_eq!(0xFFFE, r.load());
    r.decrement_by_2();
    assert_eq!(0xFFFC, r.load());
}

#[test]
fn register_sub() {
    let mut r = Register::<u16>::new();
    r.sub(3);
    assert_eq!(0xFFFD, r.load());
    r.sub(3);
    assert_eq!(0xFFFA, r.load());
}

#[test]
fn register_shift() {
    let mut r = Register::<u16>::new();
    assert_eq!(0, r.shift(1));
    assert_eq!(1, r.load());
    assert_eq!(0, r.shift(0));
    assert_eq!(2, r.load());
    r.store(0xFF);
    assert_eq!(0, r.shift(1));
    assert_eq!(0x1FF, r.load());
    assert_eq!(0, r.shift(0));
    assert_eq!(0x3FE, r.load());
    r.store(0xFFFF);
    assert_eq!(1, r.shift(1));
    assert_eq!(0xFFFF, r.load());
    assert_eq!(1, r.shift(0));
    assert_eq!(0xFFFE, r.load());
}

#[test]
fn register_dump() {
    let mut r = Register::<u16>::new();
    assert_eq!("0x0000", r.dump());
    r.store(0xFF);
    assert_eq!("0x00ff", r.dump());
    r.store(0x8A);
    assert_eq!("0x008a", r.dump());
    r.store(0xFFFF);
    assert_eq!("0xffff", r.dump());
    r.store(0xA88A);
    assert_eq!("0xa88a", r.dump());
}

#[test]
fn register_store_higher_and_lower_byte() {
    let mut r = Register::<u16>::new();
    r.store(0x1234);
    r.store_higher_byte(0xAB);
    assert_eq!(0xAB34, r.load());
    r.store_lower_byte(0xCD);
    assert_eq!(0xABCD, r.load());
}

#[test]
fn register_bit_fields_at_the_top() {
    let mut r = Register::<u16>::new();
    r.store_bits(12, 3, 0xFFFF);
    assert_eq!(0x7000, r.load());
    assert_eq!(7, r.load_bits(12, 3));
    assert_eq!(0, r.load_bit(15));
    r.set_bit(15);
    assert_eq!(0xF000, r.load());
    assert!(r.is_bit_set(15));
    let mut b = Register::<u8>::new();
    b.store_bits(1, 7, 0xFF);
    assert_eq!(0xFE, b.load());
    assert_eq!(0x7F, b.load_bits(1, 7));
    b.store_bit(0, 0xFF);
    assert_eq!(0xFF, b.load());
    b.store_bit(7, 0xFE);
    assert_eq!(0x7F, b.load());
}
