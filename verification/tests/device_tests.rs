use machine::joypad::{Joypad, Key};
use machine::mmu::not_usable::NotUsableHigh;
use machine::mmu::ram::RAM;
use machine::mmu::rom::{fit, ROM};
use machine::timer::{Select, Timer, TimerControl};
use machine::util::{
    bit_11_overflow, bit_3_overflow, bit_4_borrow, get_nth_bit, join, lsb, msb, nth_bit_to, pack_bits, set_nth_bit,
    swap_nibbles, toggle_nth_bit, unset_nth_bit, Addr,
};

#[test]
fn addresses_wrap() {
    assert_eq!(Addr::new(), Addr(0));
    assert_eq!(Addr::from(0x1234).value(), 0x1234);
    assert_eq!(Addr(0xffff).wrapping_add(Addr(2)), Addr(1));
    assert_eq!(Addr(1).wrapping_sub(Addr(2)), Addr(0xffff));
    assert_eq!(Addr(0xfffe).offset(3), Addr(1));
    assert_eq!(Addr(0x0001).offset_back(3), Addr(0xfffe));
    assert_eq!(Addr(0x0100).offset_signed(0x7f), Addr(0x017f));
    assert_eq!(Addr(0x0100).offset_signed(0x80), Addr(0x0080));
    assert_eq!(Addr(0x0000).offset_signed(0xff), Addr(0xffff));
    assert_eq!(Addr(0xffff).offset_signed(0x01), Addr(0x0000));
    assert!(Addr(1).lt(Addr(2)) && !Addr(2).lt(Addr(2)) && Addr(2).le(Addr(2)) && !Addr(3).le(Addr(2)));
    assert!(Addr(5) == Addr(5) && Addr(5) != Addr(6));
}

#[test]
fn bit_helpers() {
    assert!(get_nth_bit(0x80, 7) && !get_nth_bit(0x7f, 7) && get_nth_bit(0x01, 0));
    assert_eq!(set_nth_bit(0x00, 3), 0x08);
    assert_eq!(set_nth_bit(0xff, 3), 0xff);
    assert_eq!(unset_nth_bit(0xff, 0), 0xfe);
    assert_eq!(unset_nth_bit(0x00, 7), 0x00);
    assert_eq!(toggle_nth_bit(0x0f, 7), 0x8f);
    assert_eq!(toggle_nth_bit(0x8f, 7), 0x0f);
    assert_eq!(nth_bit_to(0x00, 5, true), 0x20);
    assert_eq!(nth_bit_to(0xff, 5, false), 0xdf);
    assert_eq!(swap_nibbles(0xa5), 0x5a);
    assert_eq!(swap_nibbles(0x0f), 0xf0);
    assert_eq!(pack_bits(true, false, true, false, false, true, false, true), 0xa5);
    assert_eq!((msb(0xabcd), lsb(0xabcd)), (0xab, 0xcd));
    assert_eq!(join(0xab, 0xcd), 0xabcd);
    for v in 0..=255u8 {
        for n in 0..8u8 {
            assert!(get_nth_bit(set_nth_bit(v, n), n));
            assert!(!get_nth_bit(unset_nth_bit(v, n), n));
            assert_eq!(get_nth_bit(toggle_nth_bit(v, n), n), !get_nth_bit(v, n));
        }
        assert_eq!(swap_nibbles(swap_nibbles(v)), v);
    }
}

#[test]
fn half_carries() {
    assert!(bit_3_overflow(0x0f, 0x01) && !bit_3_overflow(0x0e, 0x01) && bit_3_overflow(0xff, 0xff));
    assert!(!bit_3_overflow(0xf0, 0xf0));
    assert!(bit_4_borrow(0x10, 0x01) && !bit_4_borrow(0x11, 0x01) && !bit_4_borrow(0x0f, 0xff));
    assert!(bit_11_overflow(0x0fff, 0x0001) && !bit_11_overflow(0x0ffe, 0x0001) && !bit_11_overflow(0xf000, 0xf000));
}

#[test]
fn timer_control_bits() {
    let tc = TimerControl::from(0xfd);
    assert!(tc.enable);
    assert_eq!(tc.select, Select::One);
    assert_eq!(u8::from(tc), 0x05);
    assert_eq!(u8::from(TimerControl::from(0x03)), 0x03);
    assert_eq!(Select::Zero.bit(), 9);
    assert_eq!(Select::One.bit(), 3);
    assert_eq!(Select::Two.bit(), 5);
    assert_eq!(Select::Three.bit(), 7);
}

#[test]
fn timer_counts_falling_edges() {
    for (tac, period) in [(0x04u8, 1024u64), (0x05, 16), (0x06, 64), (0x07, 256)] {
        let mut t = Timer::default();
        t.write_control(tac);
        t.tick(period - 1);
        assert_eq!(t.read_counter(), 0);
        t.tick(1);
        assert_eq!(t.read_counter(), 1);
        t.tick(10 * period);
        assert_eq!(t.read_counter(), 11);
        assert!(!t.interrupt);
    }
    // A timer that is switched off does not count.
    let mut t = Timer::default();
    t.write_control(0x01);
    t.tick(1000);
    assert_eq!(t.read_counter(), 0);
    assert_eq!(t.read_divider(), 3);
}

#[test]
fn timer_overflows_to_modulo() {
    let mut t = Timer::default();
    t.write_modulo(0xa0);
    t.write_counter(0xfe);
    t.write_control(0x05);
    t.tick(16);
    assert_eq!(t.read_counter(), 0xff);
    assert!(!t.interrupt);
    t.tick(16);
    assert_eq!(t.read_counter(), 0xa0);
    assert!(t.interrupt);
    assert_eq!(t.read_modulo(), 0xa0);
    assert_eq!(t.read_control(), 0x05);
}

#[test]
fn divider_is_the_high_byte_and_resets_on_write() {
    let mut t = Timer::default();
    t.tick(255);
    assert_eq!(t.read_divider(), 0);
    t.tick(1);
    assert_eq!(t.read_divider(), 1);
    t.tick(0xff00);
    assert_eq!(t.read_divider(), 0);
    // A write while the watched bit is high makes a falling edge.
    let mut t = Timer::default();
    t.write_control(0x05);
    t.tick(8);
    assert_eq!(t.read_counter(), 0);
    t.write_divider(0x77);
    assert_eq!(t.read_divider(), 0);
    assert_eq!(t.read_counter(), 1);
    // Switching the timer off while the bit is high does so too.
    let mut t = Timer::default();
    t.write_control(0x05);
    t.tick(8);
    t.write_control(0x01);
    assert_eq!(t.read_counter(), 1);
}

#[test]
fn joypad_register() {
    let mut j = Joypad::default();
    assert_eq!(j.read(), 0xff);
    j.set(Key::Down);
    assert!(j.is_pressed(Key::Down));
    assert_eq!(j.read(), 0xff);
    assert!(!j.interrupt);
    j.write_reg(0x20);
    assert!(j.is_dir() && !j.is_button());
    assert_eq!(j.read(), 0xe7);
    j.set(Key::Left);
    assert_eq!(j.read(), 0xe5);
    assert!(j.interrupt);
    j.interrupt = false;
    j.set(Key::Left);
    assert!(!j.interrupt);
    j.set(Key::ButtonA);
    assert_eq!(j.read(), 0xe5);
    assert!(!j.interrupt);
    j.write_reg(0x10);
    assert_eq!(j.read(), 0xde);
    j.write_reg(0x00);
    assert_eq!(j.read(), 0xc4);
    j.release(Key::Left);
    assert_eq!(j.read(), 0xc6);
    j.reset_all();
    assert_eq!(j.read(), 0xcf);
    for (key, line) in [
        (Key::Right, 0x01u8),
        (Key::Left, 0x02),
        (Key::Up, 0x04),
        (Key::Down, 0x08),
        (Key::ButtonA, 0x01),
        (Key::ButtonB, 0x02),
        (Key::Select, 0x04),
        (Key::Start, 0x08),
    ] {
        let mut j = Joypad::default();
        j.write_reg(0x00);
        j.set(key);
        assert_eq!(j.read(), 0xcf & !line);
    }
}

#[test]
fn rom_and_ram_blocks() {
    assert_eq!(fit(vec![1, 2, 3], 5), vec![1, 2, 3, 0, 0]);
    assert_eq!(fit(vec![1, 2, 3], 2), vec![1, 2]);
    let mut rom = ROM::new(vec![9, 8, 7]);
    assert_eq!(rom.readu8(Addr(1)), 8);
    assert_eq!(rom.readu8(Addr(0xff)), 0);
    assert_eq!(rom.readu16(Addr(1)), 0x0708);
    rom.writeu8(Addr(1), 0x55);
    assert_eq!(rom.readu8(Addr(1)), 8);
    let mut ram = RAM::new(0x10, 0xc000);
    assert_eq!(ram.len(), 0x10);
    ram.writeu8(Addr(0xc00f), 0x42);
    assert_eq!(ram.readu8(Addr(0xc00f)), 0x42);
    assert_eq!(ram.get(0x0f), 0x42);
    assert_eq!(ram.readu8(Addr(0xc000)), 0);
    ram.writeu16(Addr(0xc004), 0x1234);
    assert_eq!(ram.readu8(Addr(0xc004)), 0x34);
    assert_eq!(ram.readu16(Addr(0xc004)), 0x1234);
    ram.copy_from_slice(&vec![7u8; 0x10]);
    assert_eq!(ram.readu8(Addr(0xc003)), 7);
    let mut nu = NotUsableHigh;
    nu.writeu8(Addr(0xfea0), 1);
    nu.writeu16(Addr(0xfea0), 1);
    assert_eq!(nu.readu8(Addr(0xfea0)), 0xff);
    assert_eq!(nu.readu16(Addr(0xfea0)), 0xffff);
}
