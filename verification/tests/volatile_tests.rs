use spin_lock::volatile::Volatile;

#[test]
fn volatile_write_then_read_round_trips() {
    let mut cell = Volatile::new(0u8);
    for value in 0u8..=255u8 {
        cell.write(value);
        assert_eq!(cell.read(), value);
    }
}

#[test]
fn volatile_read_without_write_returns_the_initial_value() {
    let cell = Volatile::new(0xA5u16);
    assert_eq!(cell.read(), 0xA5);
    assert_eq!(cell.read(), 0xA5);
}

#[test]
fn volatile_last_write_wins() {
    let mut cell = Volatile::new(1u32);
    cell.write(2);
    cell.write(3);
    assert_eq!(cell.read(), 3);
}

#[test]
fn volatile_is_bitwise_copyable() {
    let cell = Volatile::new(7i32);
    let copy = cell;
    assert_eq!(cell, copy);
    assert_eq!(copy.read(), 7);
}
