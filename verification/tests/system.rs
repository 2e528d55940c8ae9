use gameboy_emulator::bus::Bus;
use gameboy_emulator::cpu::Cpu;
use gameboy_emulator::helpers::{extract_bits_5_4, extract_bits_5_4_3, extract_rightmost_3_bits};
use gameboy_emulator::opcode_tables::{
    opcode_length, opcode_m_cycles_branch, opcode_m_cycles_no_branch,
};
use gameboy_emulator::ppu::{get_tile_data, ppu_fill_background_tile_map_1, ppu_fill_oam_map, ppu_fill_tiles, Palette, Ppu, TileFetchMode};
use gameboy_emulator::registers::{Register, Registers};
use gameboy_emulator::timer::Timer;
use gameboy_emulator::GameBoy;

fn fresh_gameboy() -> GameBoy {
    GameBoy {
        cpu: Cpu {
            registers: Registers {
                BC: Register(0),
                DE: Register(0),
                HL: Register(0),
                AF: Register(0),
                PC: Register(0),
                SP: Register(0),
            },
            ime: false,
            is_halted: false,
        },
        ppu: Ppu::new(),
        timer: Timer { counter_delta: 0, divider_delta: 0 },
        bus: Bus::new(),
        current_cycle: 0,
    }
}

#[test]
fn startup_values_match_the_post_boot_snapshot() {
    let mut gb = fresh_gameboy();
    gb.configure_startup_values();
    assert_eq!(gb.cpu.registers.AF.as_u16(), 0x01B0);
    assert_eq!(gb.cpu.registers.BC.as_u16(), 0x0013);
    assert_eq!(gb.cpu.registers.DE.as_u16(), 0x00D8);
    assert_eq!(gb.cpu.registers.HL.as_u16(), 0x014D);
    assert_eq!(gb.cpu.registers.SP.as_u16(), 0xFFFE);
    assert_eq!(gb.cpu.registers.PC.as_u16(), 0x0100);
    assert_eq!(gb.bus.read(0xFF44), 0x91);
    assert_eq!(gb.bus.read(0xFF40), 0x91);
    assert_eq!(gb.bus.read(0xFF41), 0x81);
    assert_eq!(gb.bus.read(0xFF46), 0xFF);
    assert_eq!(gb.bus.read(0xFF00) & 0xF0, 0xC0);
    assert_eq!(gb.bus.read(0xFF04), 0x18);
    assert_eq!(gb.bus.read(0xFF07), 0xF8);
    assert_eq!(gb.bus.read(0xFF0F), 0xE1);
    assert_eq!(gb.bus.read(0xFFFF), 0x00);
}

#[test]
fn cpu_step_fetches_decodes_and_advances() {
    let mut gb = fresh_gameboy();
    // LD A,0x42 ; ADD A,A ; HALT
    let mut rom = vec![0u8; 0x8000];
    rom[0x100] = 0x3E;
    rom[0x101] = 0x42;
    rom[0x102] = 0x87;
    rom[0x103] = 0x76;
    gb.install_rom(&rom);
    gb.cpu.registers.PC = Register(0x0100);
    let cycles = gb.cpu.step(&mut gb.bus);
    assert_eq!(cycles, 2);
    assert_eq!(gb.cpu.registers.AF.high(), 0x42);
    assert_eq!(gb.cpu.registers.PC.as_u16(), 0x0102);
    let cycles = gb.cpu.step(&mut gb.bus);
    assert_eq!(cycles, 1);
    assert_eq!(gb.cpu.registers.AF.high(), 0x84);
    gb.cpu.step(&mut gb.bus);
    assert!(gb.cpu.is_halted);
    // Halted: one idle cycle, nothing moves.
    let pc = gb.cpu.registers.PC;
    assert_eq!(gb.cpu.step(&mut gb.bus), 1);
    assert_eq!(gb.cpu.registers.PC, pc);
}

#[test]
fn branch_cycles_differ_between_taken_and_not_taken() {
    let mut gb = fresh_gameboy();
    // JR NZ,+2 with Z clear (taken), then with Z set (not taken).
    let mut rom = vec![0u8; 0x8000];
    rom[0x100] = 0x20;
    rom[0x101] = 0x02;
    rom[0x104] = 0x20;
    rom[0x105] = 0x02;
    gb.install_rom(&rom);
    gb.cpu.registers.PC = Register(0x0100);
    assert_eq!(gb.cpu.step(&mut gb.bus), 3);
    assert_eq!(gb.cpu.registers.PC.as_u16(), 0x0104);
    gb.cpu.registers.AF.set_low(0x80);  // Z set
    assert_eq!(gb.cpu.step(&mut gb.bus), 2);
    assert_eq!(gb.cpu.registers.PC.as_u16(), 0x0106);
}

#[test]
fn debug_serial_protocol_captures_program_output() {
    let mut gb = fresh_gameboy();
    // LD A,'O' ; LDH (0x01),A ; LD A,0x81 ; LDH (0x02),A ;
    // LD A,'K' ; LDH (0x01),A ; LD A,0x81 ; LDH (0x02),A ; HALT
    let program: [u8; 17] = [
        0x3E, b'O', 0xE0, 0x01, 0x3E, 0x81, 0xE0, 0x02, 0x3E, b'K', 0xE0, 0x01, 0x3E, 0x81, 0xE0,
        0x02, 0x76,
    ];
    let mut rom = vec![0u8; 0x8000];
    rom[0x100..0x100 + program.len()].copy_from_slice(&program);
    gb.install_rom(&rom);
    gb.configure_startup_values();
    for _ in 0..64 {
        gb.step();
        if gb.cpu.is_halted {
            break;
        }
    }
    assert_eq!(gb.bus.blargg_debug_output, vec![b'O', b'K']);
}

#[test]
fn lcd_off_parks_the_ppu() {
    let mut bus = Bus::new();
    let mut ppu = Ppu::new();
    bus.write(0xFF40, 0x00);
    bus.write(0xFF44, 0x90);
    ppu.cycles = 500;
    ppu.step(&mut bus);
    assert_eq!(bus.read(0xFF44), 0x00);
    // Mode is HBlank, the HBlank source bit is on, LY = LYC holds.
    assert_eq!(bus.read(0xFF41) & 0x03, 0x00);
    assert_eq!(bus.read(0xFF41) & 0x08, 0x08);
    assert_eq!(bus.read(0xFF41) & 0x44, 0x44);
    // The LCD interrupt was raised.
    assert_eq!(bus.read(0xFF0F) & 0x02, 0x02);
    assert_eq!(ppu.cycles, 500);
}

#[test]
fn line_end_advances_ly_and_vblank_raises_interrupt() {
    let mut bus = Bus::new();
    let mut ppu = Ppu::new();
    bus.write(0xFF40, 0x80);
    bus.write(0xFF44, 144);
    bus.write(0xFF0F, 0x00);
    ppu.cycles = 456 * 4;
    ppu.step(&mut bus);
    assert_eq!(bus.read(0xFF44), 145);
    assert_eq!(bus.read(0xFF41) & 0x03, 0x01);
    assert_eq!(bus.read(0xFF0F) & 0x01, 0x01);
    assert_eq!(ppu.cycles, 456 * 10 / 4);
    // The later blank lines do not raise VBlank again.
    bus.write(0xFF0F, 0x00);
    ppu.cycles = 456 * 4;
    ppu.step(&mut bus);
    assert_eq!(bus.read(0xFF44), 146);
    assert_eq!(bus.read(0xFF41) & 0x03, 0x01);
    assert_eq!(bus.read(0xFF0F) & 0x01, 0x00);
    assert_eq!(bus.read(0xFF0F) & 0x02, 0x02);
    // Past line 153 LY wraps to zero.
    let mut bus = Bus::new();
    bus.write(0xFF40, 0x80);
    bus.write(0xFF44, 153);
    ppu.cycles = 456 * 4;
    ppu.step(&mut bus);
    assert_eq!(bus.read(0xFF44), 0);
}

#[test]
fn tile_decoder_maps_planes_through_the_palette() {
    let mut bus = Bus::new();
    // Identity palette: id 0..3 map to shades 0..3.
    bus.write(0xFF47, 0xE4);
    // One tile at 0x8000: row 0 has pixel ids 2,0,0,0,0,0,0,1.
    bus.write(0x8000, 0x01);  // low plane: leftmost bit 7
    bus.write(0x8001, 0x80);  // high plane
    let tile = get_tile_data(&bus, 0, TileFetchMode::Unsigned8000, Palette::Bgp);
    assert_eq!(tile.len(), 256);
    // Pixel (0,0): id 2, dark gray.
    assert_eq!(&tile[0..4], &[80, 80, 80, 255]);
    // Pixel (7,0): id 1, light gray.
    assert_eq!(&tile[7 * 4..7 * 4 + 4], &[200, 200, 200, 255]);
    // Pixel (1,0): id 0, white.
    assert_eq!(&tile[4..8], &[255, 255, 255, 255]);
    // An empty row is all white under this palette.
    assert_eq!(&tile[32..36], &[255, 255, 255, 255]);
}

#[test]
fn signed_tile_fetch_reaches_below_0x9000() {
    let mut bus = Bus::new();
    bus.write(0xFF47, 0xE4);
    // Tile 0x80 under the signed method lives at 0x8800.
    bus.write(0x8800, 0xFF);
    bus.write(0x8801, 0x00);
    let tile = get_tile_data(&bus, 0x80, TileFetchMode::Signed8800, Palette::Bgp);
    // Row 0 is all id 1: light gray.
    assert_eq!(&tile[0..4], &[200, 200, 200, 255]);
}

#[test]
fn opcode_tables_give_known_lengths_and_cycles() {
    assert_eq!(opcode_length(0x00), 1);
    assert_eq!(opcode_length(0x3E), 2);
    assert_eq!(opcode_length(0xC3), 3);
    assert_eq!(opcode_length(0xCB), 1);
    assert_eq!(opcode_m_cycles_no_branch(0x00), 1);
    assert_eq!(opcode_m_cycles_no_branch(0x76), 1);
    assert_eq!(opcode_m_cycles_no_branch(0x86), 2);
    assert_eq!(opcode_m_cycles_no_branch(0xC3), 4);
    assert_eq!(opcode_m_cycles_no_branch(0xCD), 6);
    assert_eq!(opcode_m_cycles_no_branch(0x20), 2);
    assert_eq!(opcode_m_cycles_branch(0x20), 3);
    assert_eq!(opcode_m_cycles_no_branch(0xC0), 2);
    assert_eq!(opcode_m_cycles_branch(0xC0), 5);
    assert_eq!(opcode_m_cycles_no_branch(0xC4), 3);
    assert_eq!(opcode_m_cycles_branch(0xC4), 6);
}

#[test]
fn opcode_field_helpers_extract_bits() {
    assert_eq!(extract_rightmost_3_bits(0x7E), 6);
    assert_eq!(extract_bits_5_4_3(0x7E), 7);
    assert_eq!(extract_bits_5_4(0x31), 3);
}

#[test]
fn blank_rom_runs_a_million_steps() {
    let mut gb = fresh_gameboy();
    let rom = vec![0u8; 0x8000];
    gb.install_rom(&rom);
    gb.configure_startup_values();
    let mut ly_seen = [false; 154];
    let mut timer_interrupt_seen = false;
    for _ in 0..1_000_000 {
        gb.step();
        let ly = gb.bus.read(0xFF44);
        if (ly as usize) < ly_seen.len() {
            ly_seen[ly as usize] = true;
        }
        if gb.bus.read(0xFF0F) & 0x04 != 0 {
            timer_interrupt_seen = true;
        }
    }
    // LY cycled through every scanline, many times over.
    for line in 0..154 {
        assert!(ly_seen[line]);
    }
    // TAC keeps the counter disabled, so no Timer interrupt ever rose.
    assert!(!timer_interrupt_seen);
}

#[test]
fn scanline_render_draws_background_and_sprites() {
    let mut bus = Bus::new();
    let mut ppu = Ppu::new();
    // Display on, unsigned tile data; identity background palette.
    bus.write(0xFF40, 0x90);
    bus.write(0xFF47, 0xE4);
    // Tile 1: every row solid color id 3 (black).
    for row in 0..8u16 {
        bus.write(0x8010 + 2 * row, 0xFF);
        bus.write(0x8011 + 2 * row, 0xFF);
    }
    // The whole first map row shows tile 1.
    for col in 0..32u16 {
        bus.write(0x9800 + col, 0x01);
    }
    // One sprite: at screen (0, 0), tile 2, palette OBP0.
    for row in 0..8u16 {
        bus.write(0x8020 + 2 * row, 0xFF);  // color id 1 everywhere
        bus.write(0x8021 + 2 * row, 0x00);
    }
    bus.write(0xFF48, 0xE4);
    bus.write(0xFE00, 16);  // stored Y: line 0
    bus.write(0xFE01, 8);  // stored X: column 0
    bus.write(0xFE02, 0x02);
    bus.write(0xFE03, 0x00);
    // Drive one line end from LY 153 so line 0 is drawn.
    bus.write(0xFF44, 153);
    ppu.cycles = 456 * 4;
    ppu.step(&mut bus);
    assert_eq!(bus.read(0xFF44), 0);
    // Columns 0..8 of line 0 carry the sprite (light gray), the rest of
    // the line the black background tile.
    assert_eq!(&ppu.screen.data[0..4], &[200, 200, 200, 255]);
    assert_eq!(&ppu.screen.data[7 * 4..7 * 4 + 4], &[200, 200, 200, 255]);
    assert_eq!(&ppu.screen.data[8 * 4..8 * 4 + 4], &[0, 0, 0, 255]);
    assert_eq!(&ppu.screen.data[159 * 4..159 * 4 + 4], &[0, 0, 0, 255]);
}

#[test]
fn sprite_priority_and_transparency_follow_the_hardware_rule() {
    let mut bus = Bus::new();
    let mut ppu = Ppu::new();
    bus.write(0xFF40, 0x90);
    bus.write(0xFF47, 0xE4);
    bus.write(0xFF48, 0xE4);
    // Background tile 1: solid color id 3.
    for row in 0..8u16 {
        bus.write(0x8010 + 2 * row, 0xFF);
        bus.write(0x8011 + 2 * row, 0xFF);
    }
    for col in 0..32u16 {
        bus.write(0x9800 + col, 0x01);
    }
    // Sprite tile 2: color id 1 everywhere.
    for row in 0..8u16 {
        bus.write(0x8020 + 2 * row, 0xFF);
        bus.write(0x8021 + 2 * row, 0x00);
    }
    // The sprite sits behind the background (priority set), which is
    // not color 0 here, so it must not show.
    bus.write(0xFE00, 16);
    bus.write(0xFE01, 8);
    bus.write(0xFE02, 0x02);
    bus.write(0xFE03, 0x80);
    bus.write(0xFF44, 153);
    ppu.cycles = 456 * 4;
    ppu.step(&mut bus);
    assert_eq!(&ppu.screen.data[0..4], &[0, 0, 0, 255]);
    // A transparent sprite (all color 0) never draws either.
    let mut bus2 = Bus::new();
    bus2.write(0xFF40, 0x90);
    bus2.write(0xFF47, 0xE4);
    bus2.write(0xFF48, 0xE4);
    for col in 0..32u16 {
        bus2.write(0x9800 + col, 0x01);
    }
    for row in 0..8u16 {
        bus2.write(0x8010 + 2 * row, 0xFF);
        bus2.write(0x8011 + 2 * row, 0xFF);
    }
    bus2.write(0xFE00, 16);
    bus2.write(0xFE01, 8);
    bus2.write(0xFE02, 0x03);  // tile 3 is all zeroes: transparent
    bus2.write(0xFE03, 0x00);
    bus2.write(0xFF44, 153);
    let mut ppu2 = Ppu::new();
    ppu2.cycles = 456 * 4;
    ppu2.step(&mut bus2);
    assert_eq!(&ppu2.screen.data[0..4], &[0, 0, 0, 255]);
}

#[test]
fn viewing_layers_redraw_without_disturbing_the_screen() {
    let mut bus = Bus::new();
    let mut ppu = Ppu::new();
    bus.write(0xFF47, 0xE4);
    bus.write(0x8000, 0xFF);
    bus.write(0x8001, 0xFF);
    ppu_fill_tiles(&mut bus, &mut ppu);
    ppu_fill_background_tile_map_1(&mut bus, &mut ppu);
    ppu_fill_oam_map(&mut bus, &mut ppu);
    // Tile 0's first pixel, black, landed in the tile viewer.
    assert_eq!(&ppu.tiles.data[0..4], &[0, 0, 0, 255]);
    assert_eq!(ppu.tiles.data.len(), 128 * 288 * 4);
    assert_eq!(ppu.background_tile_map_1.data.len(), 256 * 256 * 4);
    assert_eq!(ppu.oam_map.data.len(), 64 * 64 * 4);
    // The framebuffer itself was not touched.
    assert!(ppu.screen.data.iter().all(|&b| b == 0));
}

#[test]
fn flag_register_low_nibble_stays_zero() {
    let mut gb = fresh_gameboy();
    let rom = vec![0u8; 0x8000];
    gb.install_rom(&rom);
    gb.configure_startup_values();
    for _ in 0..10_000 {
        gb.step();
        assert_eq!(gb.cpu.registers.AF.low() & 0x0F, 0);
    }
}
