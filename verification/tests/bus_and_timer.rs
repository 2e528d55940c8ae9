use gameboy_emulator::bus::Bus;
use gameboy_emulator::lcd::{LcdStatusRegister, Mode};
use gameboy_emulator::ppu::{ColorIds, SpriteAttributeFlag};
use gameboy_emulator::timer::Timer;

#[test]
fn interrupt_flag_reads_back_with_upper_bits_set() {
    let mut bus = Bus::new();
    for b in [0x00u8, 0x01, 0x1F, 0x41, 0xAB, 0xFF] {
        bus.write(0xFF0F, b);
        assert_eq!(bus.read(0xFF0F), b | 0xE0);
    }
}

#[test]
fn div_write_resets_to_zero() {
    let mut bus = Bus::new();
    bus.memory.io_ram[4] = 0x7C;
    assert_eq!(bus.read(0xFF04), 0x7C);
    bus.write(0xFF04, 0xAB);
    assert_eq!(bus.read(0xFF04), 0x00);
    bus.write(0xFF04, 0xFF);
    assert_eq!(bus.read(0xFF04), 0x00);
}

#[test]
fn joypad_low_nibble_follows_selection_and_buttons() {
    let mut bus = Bus::new();
    // Both groups deselected: the low nibble reads as 0xF.
    bus.write(0xFF00, 0x30);
    assert_eq!(bus.read(0xFF00) & 0x0F, 0x0F);
    // Directional group selected, nothing held: still 0xF (active low).
    bus.write(0xFF00, 0x20);
    assert_eq!(bus.read(0xFF00) & 0x0F, 0x0F);
    // Hold "right": its bit reads 0.
    bus.io.direction_buttons = 0x01;
    assert_eq!(bus.read(0xFF00) & 0x0F, 0x0E);
    // Action group selected instead: "right" no longer shows.
    bus.write(0xFF00, 0x10);
    assert_eq!(bus.read(0xFF00) & 0x0F, 0x0F);
    bus.io.action_buttons = 0x08;
    assert_eq!(bus.read(0xFF00) & 0x0F, 0x07);
    // The low nibble of a write never lands in the register.
    bus.write(0xFF00, 0x3A);
    assert_eq!(bus.read(0xFF00) & 0xF0, 0x30);
}

#[test]
fn echo_region_reads_zero() {
    let mut bus = Bus::new();
    bus.write(0xC123, 0x55);
    assert_eq!(bus.read(0xC123), 0x55);
    assert_eq!(bus.read(0xE123), 0x00);
    assert_eq!(bus.read(0xE000), 0x00);
    assert_eq!(bus.read(0xFDFF), 0x00);
    // Writes to the echo region are ignored.
    bus.write(0xE200, 0x77);
    assert_eq!(bus.read(0xC200), 0x00);
}

#[test]
fn unusable_region_reads_zero() {
    let mut bus = Bus::new();
    bus.write(0xFEA0, 0x12);
    assert_eq!(bus.read(0xFEA0), 0x00);
    assert_eq!(bus.read(0xFEFF), 0x00);
}

#[test]
fn plain_ram_round_trips() {
    let mut bus = Bus::new();
    bus.write(0x8000, 0x11);
    bus.write(0xA000, 0x22);
    bus.write(0xC000, 0x33);
    bus.write(0xFE00, 0x44);
    bus.write(0xFF80, 0x55);
    bus.write(0xFFFF, 0x1F);
    assert_eq!(bus.read(0x8000), 0x11);
    assert_eq!(bus.read(0xA000), 0x22);
    assert_eq!(bus.read(0xC000), 0x33);
    assert_eq!(bus.read(0xFE00), 0x44);
    assert_eq!(bus.read(0xFF80), 0x55);
    assert_eq!(bus.read(0xFFFF), 0x1F);
}

#[test]
fn serial_control_logs_debug_byte() {
    let mut bus = Bus::new();
    bus.write(0xFF01, b'P');
    bus.write(0xFF02, 0x81);
    bus.write(0xFF01, b'!');
    bus.write(0xFF02, 0x81);
    // A write of anything but 0x81 logs nothing.
    bus.write(0xFF01, b'x');
    bus.write(0xFF02, 0x80);
    assert_eq!(bus.blargg_debug_output, vec![b'P', b'!']);
}

#[test]
fn dma_copies_160_bytes_into_oam() {
    let mut bus = Bus::new();
    for i in 0..160u16 {
        bus.write(0xC000 + i, (i as u8).wrapping_mul(3).wrapping_add(7));
    }
    bus.write(0xFF46, 0xC0);
    assert!(bus.dma_transfer_requested);
    for i in 0..160u16 {
        assert_eq!(bus.read(0xFE00 + i), (i as u8).wrapping_mul(3).wrapping_add(7));
    }
    // The DMA register itself stores the written value.
    assert_eq!(bus.read(0xFF46), 0xC0);
}

#[test]
fn divider_increments_every_64_machine_cycles() {
    let mut bus = Bus::new();
    let mut timer = Timer { counter_delta: 0, divider_delta: 0 };
    // TAC disabled: only DIV moves.
    bus.write(0xFF07, 0x00);
    for _ in 0..16 {
        timer.step(&mut bus, 4);
    }
    assert_eq!(bus.read(0xFF04), 1);
    for _ in 0..32 {
        timer.step(&mut bus, 4);
    }
    assert_eq!(bus.read(0xFF04), 3);
}

#[test]
fn tima_overflow_reloads_and_raises_timer_interrupt() {
    let mut bus = Bus::new();
    let mut timer = Timer { counter_delta: 0, divider_delta: 0 };
    // Enabled, fastest rate: one increment every 4 machine cycles.
    bus.write(0xFF07, 0x05);
    bus.write(0xFF05, 0xFF);
    bus.write(0xFF06, 0xAB);
    bus.write(0xFF0F, 0x00);
    timer.step(&mut bus, 4);
    assert_eq!(bus.read(0xFF05), 0xAB);
    assert_eq!(bus.read(0xFF0F) & 0x04, 0x04);
    // The next period increments normally and raises nothing new.
    bus.write(0xFF0F, 0x00);
    timer.step(&mut bus, 4);
    assert_eq!(bus.read(0xFF05), 0xAC);
    assert_eq!(bus.read(0xFF0F) & 0x04, 0x00);
}

#[test]
fn disabled_counter_resets_its_accumulator() {
    let mut bus = Bus::new();
    let mut timer = Timer { counter_delta: 100, divider_delta: 0 };
    bus.write(0xFF07, 0x00);
    timer.step(&mut bus, 1);
    assert_eq!(timer.counter_delta, 0);
}

#[test]
fn clock_frequency_follows_tac() {
    let mut bus = Bus::new();
    let mut timer = Timer { counter_delta: 0, divider_delta: 0 };
    for (bits, freq) in [(0u8, 4096i64), (1, 262144), (2, 65536), (3, 16384)] {
        bus.write(0xFF07, bits);
        assert_eq!(timer.get_clock_frequency(&mut bus), freq);
    }
    bus.write(0xFF07, 0x04);
    assert!(timer.counter_is_running(&mut bus));
    bus.write(0xFF07, 0x03);
    assert!(!timer.counter_is_running(&mut bus));
}

#[test]
fn palette_and_sprite_attribute_accessors_split_bits() {
    let ids = ColorIds::new(0b11_10_01_00);
    assert_eq!(ids.id_0(), 0);
    assert_eq!(ids.id_1(), 1);
    assert_eq!(ids.id_2(), 2);
    assert_eq!(ids.id_3(), 3);
    let flags = SpriteAttributeFlag(0b1010_0101);
    assert_eq!(flags._gbc(), 0x5);
    assert!(!flags.dmg_palette());
    assert!(flags.x_flip());
    assert!(!flags.y_flip());
    assert!(flags.priority());
}

#[test]
fn lcd_status_register_round_trips_its_fields() {
    let mut stat = LcdStatusRegister(0);
    stat.set_mode(Mode::SearchingOam);
    stat.set_h_blank_interrupt(true);
    stat.set_lcy_ly_equality(true);
    assert!(matches!(stat.mode(), Mode::SearchingOam));
    assert!(stat.h_blank_interrupt());
    assert!(!stat.v_blank_interrupt());
    assert!(!stat.oam_interrupt());
    assert!(stat.lcy_ly_equality());
    assert!(!stat.lcy_ly_equality_read_only());
    stat.set_lcy_ly_equality_read_only(true);
    assert!(stat.lcy_ly_equality_read_only());
    stat.set_mode(Mode::VBlank);
    assert!(matches!(stat.mode(), Mode::VBlank));
    assert_eq!(stat.0 & 0x03, 0x01);
}
