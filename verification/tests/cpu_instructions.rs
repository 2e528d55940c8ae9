use gameboy_emulator::bus::Bus;
use gameboy_emulator::cpu::Cpu;
use gameboy_emulator::interrupt_controller::{interrupt_controller_handle_interrupts, interrupt_vector_address, InterruptType};
use gameboy_emulator::registers::{Register, Registers};

fn fresh_cpu() -> Cpu {
    Cpu {
        registers: Registers {
            BC: Register(0),
            DE: Register(0),
            HL: Register(0),
            AF: Register(0),
            PC: Register(0),
            SP: Register(0),
        },
        ime: false,
        is_halted: false,
    }
}

fn flags(cpu: &Cpu) -> (bool, bool, bool, bool) {
    let f = cpu.registers.AF.low();
    (f & 0x80 != 0, f & 0x40 != 0, f & 0x20 != 0, f & 0x10 != 0)
}

#[test]
fn add_3a_plus_c6_sets_zhc() {
    let bus = Bus::new();
    let mut cpu = fresh_cpu();
    cpu.registers.AF.set_high(0x3A);
    cpu.registers.BC.set_high(0xC6);
    // ADD A,B
    cpu.add_8_bit(&bus, 0x80, false);
    assert_eq!(cpu.registers.AF.high(), 0x00);
    let (z, n, h, c) = flags(&cpu);
    assert!(z);
    assert!(!n);
    assert!(h);
    assert!(c);
}

#[test]
fn sub_3e_minus_3e_sets_zn_only() {
    let bus = Bus::new();
    let mut cpu = fresh_cpu();
    cpu.registers.AF.set_high(0x3E);
    cpu.registers.BC.set_high(0x3E);
    // SUB A,B
    cpu.sub_8_bit(&bus, 0x90, false);
    assert_eq!(cpu.registers.AF.high(), 0x00);
    let (z, n, h, c) = flags(&cpu);
    assert!(z);
    assert!(n);
    assert!(!h);
    assert!(!c);
}

#[test]
fn daa_after_bcd_add_produces_0x83() {
    let bus = Bus::new();
    let mut cpu = fresh_cpu();
    cpu.registers.AF.set_high(0x45);
    cpu.registers.BC.set_high(0x38);
    cpu.add_8_bit(&bus, 0x80, false);
    assert_eq!(cpu.registers.AF.high(), 0x7D);
    cpu.daa(0x27);
    assert_eq!(cpu.registers.AF.high(), 0x83);
    let (_, n, _, _) = flags(&cpu);
    assert!(!n);
}

#[test]
fn rlca_on_0x85() {
    let mut cpu = fresh_cpu();
    cpu.registers.AF.set_high(0x85);
    cpu.rlca(0x07);
    assert_eq!(cpu.registers.AF.high(), 0x0B);
    let (z, _, _, c) = flags(&cpu);
    assert!(c);
    assert!(!z);
}

#[test]
fn push_pop_restores_register_pairs() {
    let mut bus = Bus::new();
    let mut cpu = fresh_cpu();
    cpu.registers.SP = Register(0xD000);
    cpu.registers.BC = Register(0x1234);
    cpu.registers.DE = Register(0xABCD);
    cpu.registers.HL = Register(0x00FF);
    // PUSH BC / POP BC.
    cpu.push(&mut bus, 0xC5);
    assert_eq!(cpu.registers.SP.as_u16(), 0xCFFE);
    cpu.registers.BC = Register(0);
    cpu.pop(&bus, 0xC1);
    assert_eq!(cpu.registers.BC.as_u16(), 0x1234);
    assert_eq!(cpu.registers.SP.as_u16(), 0xD000);
    // PUSH DE / POP DE.
    cpu.push(&mut bus, 0xD5);
    cpu.registers.DE = Register(0);
    cpu.pop(&bus, 0xD1);
    assert_eq!(cpu.registers.DE.as_u16(), 0xABCD);
    // PUSH HL / POP HL.
    cpu.push(&mut bus, 0xE5);
    cpu.registers.HL = Register(0);
    cpu.pop(&bus, 0xE1);
    assert_eq!(cpu.registers.HL.as_u16(), 0x00FF);
}

#[test]
fn pop_af_masks_low_nibble() {
    let mut bus = Bus::new();
    let mut cpu = fresh_cpu();
    cpu.registers.SP = Register(0xD000);
    cpu.registers.AF = Register(0x12FF);
    cpu.push(&mut bus, 0xF5);
    cpu.registers.AF = Register(0);
    cpu.pop(&bus, 0xF1);
    assert_eq!(cpu.registers.AF.as_u16(), 0x12F0);
    assert_eq!(cpu.registers.SP.as_u16(), 0xD000);
}

#[test]
fn call_then_ret_returns_and_restores_sp() {
    let mut bus = Bus::new();
    let mut cpu = fresh_cpu();
    cpu.registers.SP = Register(0xFFFE);
    cpu.registers.PC = Register(0x0103);
    cpu.call_address(&mut bus, 0xCD, 0x4000);
    assert_eq!(cpu.registers.PC.as_u16(), 0x4000);
    assert_eq!(cpu.registers.SP.as_u16(), 0xFFFC);
    cpu.ret(&bus, 0xC9);
    assert_eq!(cpu.registers.PC.as_u16(), 0x0103);
    assert_eq!(cpu.registers.SP.as_u16(), 0xFFFE);
}

#[test]
fn conditional_jump_follows_the_zero_flag() {
    let mut cpu = fresh_cpu();
    cpu.registers.PC = Register(0x0200);
    // JP NZ with Z clear: taken.
    cpu.jp_to_address_conditionally(0xC2, 0x1234);
    assert_eq!(cpu.registers.PC.as_u16(), 0x1234);
    // JP Z with Z clear: not taken.
    cpu.jp_to_address_conditionally(0xCA, 0x4567);
    assert_eq!(cpu.registers.PC.as_u16(), 0x1234);
}

#[test]
fn relative_jump_sign_extends() {
    let mut cpu = fresh_cpu();
    cpu.registers.PC = Register(0x0200);
    cpu.jr_to_relative_u8_address(0x18, 0x05);
    assert_eq!(cpu.registers.PC.as_u16(), 0x0205);
    cpu.jr_to_relative_u8_address(0x18, 0xFB);  // -5
    assert_eq!(cpu.registers.PC.as_u16(), 0x0200);
}

#[test]
fn inc_dec_touch_half_carry_but_not_carry() {
    let mut bus = Bus::new();
    let mut cpu = fresh_cpu();
    // Carry set beforehand must survive INC and DEC.
    cpu.registers.AF.set_low(0x10);
    cpu.registers.BC.set_high(0x0F);
    // INC B.
    cpu.inc_register_8_bit(&mut bus, 0x04);
    assert_eq!(cpu.registers.BC.high(), 0x10);
    let (z, n, h, c) = flags(&cpu);
    assert!(!z);
    assert!(!n);
    assert!(h);
    assert!(c);
    // DEC B back down.
    cpu.dec_register_8_bit(&mut bus, 0x05);
    assert_eq!(cpu.registers.BC.high(), 0x0F);
    let (z, n, h, c) = flags(&cpu);
    assert!(!z);
    assert!(n);
    assert!(h);
    assert!(c);
}

#[test]
fn logic_instructions_set_their_flag_patterns() {
    let bus = Bus::new();
    let mut cpu = fresh_cpu();
    cpu.registers.AF.set_high(0xF0);
    cpu.registers.BC.set_high(0x0F);
    // AND A,B: zero result, H set.
    cpu.and_8_bit(&bus, 0xA0);
    assert_eq!(cpu.registers.AF.high(), 0x00);
    let (z, n, h, c) = flags(&cpu);
    assert!(z && !n && h && !c);
    // OR A,B.
    cpu.registers.AF.set_high(0xF0);
    cpu.or_8_bit(&bus, 0xB0);
    assert_eq!(cpu.registers.AF.high(), 0xFF);
    let (z, n, h, c) = flags(&cpu);
    assert!(!z && !n && !h && !c);
    // XOR A,A clears A.
    cpu.xor_8_bit(&bus, 0xAF);
    assert_eq!(cpu.registers.AF.high(), 0x00);
    let (z, _, _, _) = flags(&cpu);
    assert!(z);
}

#[test]
fn cb_swap_and_bit_and_set_res() {
    let mut bus = Bus::new();
    let mut cpu = fresh_cpu();
    cpu.registers.BC.set_high(0xA5);
    // SWAP B (CB 0x30).
    cpu.swap(&mut bus, 0xCB, 0x30);
    assert_eq!(cpu.registers.BC.high(), 0x5A);
    // BIT 7,B (CB 0x78): bit 7 of 0x5A is 0, so Z is set.
    cpu.bit(&bus, 0xCB, 0x78);
    let (z, n, h, _) = flags(&cpu);
    assert!(z && !n && h);
    // SET 0,B (CB 0xC0) then RES 0,B (CB 0x80).
    cpu.set(&mut bus, 0xCB, 0xC0);
    assert_eq!(cpu.registers.BC.high(), 0x5B);
    cpu.res(&mut bus, 0xCB, 0x80);
    assert_eq!(cpu.registers.BC.high(), 0x5A);
}

#[test]
fn rotate_through_carry_round_trips() {
    let mut bus = Bus::new();
    let mut cpu = fresh_cpu();
    cpu.registers.DE.set_high(0x81);
    // RL D (CB 0x12) with carry clear: 0x81 -> 0x02, carry out 1.
    cpu.rl(&mut bus, 0xCB, 0x12);
    assert_eq!(cpu.registers.DE.high(), 0x02);
    let (_, _, _, c) = flags(&cpu);
    assert!(c);
    // RR D (CB 0x1A): 0x02 with carry 1 -> 0x81, carry out 0.
    cpu.rr(&mut bus, 0xCB, 0x1A);
    assert_eq!(cpu.registers.DE.high(), 0x81);
    let (_, _, _, c) = flags(&cpu);
    assert!(!c);
}

#[test]
fn add_sp_uses_low_byte_flags() {
    let mut cpu = fresh_cpu();
    cpu.registers.SP = Register(0x00FF);
    cpu.add_immediate_into_sp(0xE8, 0x01);
    assert_eq!(cpu.registers.SP.as_u16(), 0x0100);
    let (z, n, h, c) = flags(&cpu);
    assert!(!z && !n && h && c);
    // A negative displacement wraps.
    cpu.registers.SP = Register(0x0000);
    cpu.add_immediate_into_sp(0xE8, 0xFF);  // -1
    assert_eq!(cpu.registers.SP.as_u16(), 0xFFFF);
}

#[test]
fn interrupt_dispatch_vectors_and_clears() {
    let mut bus = Bus::new();
    let mut cpu = fresh_cpu();
    cpu.ime = true;
    cpu.is_halted = true;
    cpu.registers.SP = Register(0xD000);
    cpu.registers.PC = Register(0x1234);
    bus.write(0xFFFF, 0x05);  // VBlank and Timer enabled
    bus.write(0xFF0F, 0x04);  // Timer raised
    let cycles = interrupt_controller_handle_interrupts(&mut bus, &mut cpu);
    assert_eq!(cycles, 5);
    assert!(!cpu.is_halted);
    assert!(!cpu.ime);
    assert_eq!(cpu.registers.PC.as_u16(), 0x0050);
    assert_eq!(cpu.registers.SP.as_u16(), 0xCFFE);
    assert_eq!(bus.read(0xCFFF), 0x12);
    assert_eq!(bus.read(0xCFFE), 0x34);
    assert_eq!(bus.read(0xFF0F) & 0x04, 0x00);
}

#[test]
fn pending_interrupt_wakes_halted_cpu_without_ime() {
    let mut bus = Bus::new();
    let mut cpu = fresh_cpu();
    cpu.ime = false;
    cpu.is_halted = true;
    let pc = cpu.registers.PC;
    bus.write(0xFFFF, 0x01);
    bus.write(0xFF0F, 0x01);
    let cycles = interrupt_controller_handle_interrupts(&mut bus, &mut cpu);
    assert_eq!(cycles, 0);
    assert!(!cpu.is_halted);
    assert_eq!(cpu.registers.PC, pc);
}

#[test]
fn vblank_outranks_timer() {
    let mut bus = Bus::new();
    let mut cpu = fresh_cpu();
    cpu.ime = true;
    cpu.registers.SP = Register(0xD000);
    bus.write(0xFFFF, 0x1F);
    bus.write(0xFF0F, 0x05);  // VBlank and Timer both pending
    interrupt_controller_handle_interrupts(&mut bus, &mut cpu);
    assert_eq!(cpu.registers.PC.as_u16(), 0x0040);
    // Only the VBlank bit was cleared.
    assert_eq!(bus.read(0xFF0F) & 0x05, 0x04);
}

#[test]
fn interrupt_vectors_sit_eight_bytes_apart() {
    assert_eq!(interrupt_vector_address(InterruptType::VBlank), 0x40);
    assert_eq!(interrupt_vector_address(InterruptType::Lcd), 0x48);
    assert_eq!(interrupt_vector_address(InterruptType::Timer), 0x50);
    assert_eq!(interrupt_vector_address(InterruptType::Serial), 0x58);
    assert_eq!(interrupt_vector_address(InterruptType::Joypad), 0x60);
}
