use rfce::cpu::{StepError, CPU};
use rfce::fc::FC;
use rfce::mapper::Memory;

/// A 16 KiB NROM image with `program` at 0x8000, the reset vector pointing
/// there, and the NMI vector pointing at `nmi`.
fn image(program: &[u8], nmi: u16) -> Vec<u8> {
    let mut img = vec![0x4e, 0x45, 0x53, 0x1a, 1, 1, 0, 0, 0, 0, 0, 0, 0, 0, 0, 0];
    let mut prg = vec![0xeau8; 0x4000];
    prg[..program.len()].copy_from_slice(program);
    prg[0x3ffa] = (nmi & 0xff) as u8;
    prg[0x3ffb] = (nmi >> 8) as u8;
    prg[0x3ffc] = 0x00;
    prg[0x3ffd] = 0x80;
    img.extend_from_slice(&prg);
    img.extend_from_slice(&vec![0u8; 0x2000]);
    img
}

fn console(program: &[u8]) -> FC {
    FC::from_vec(image(program, 0x8000)).unwrap()
}

fn cpu(fc: &FC) -> &CPU {
    &fc.cpu
}

#[test]
fn reset_loads_reset_vector() {
    let mut img = image(&[], 0x8000);
    img[16 + 0x3ffc] = 0x34;
    img[16 + 0x3ffd] = 0x92;
    let mut fc = FC::from_vec(img).unwrap();
    assert_eq!(fc.cpu.pc(), 0x9234);
    fc.reset();
    assert_eq!(fc.cpu.pc(), 0x9234);
    assert_eq!(fc.cpu.cycles(), 7);
}

#[test]
fn hard_reset_without_image_fails() {
    let mut fc = FC::new();
    assert!(fc.reset_hard().is_err());
}

#[test]
fn load_immediate_zero_and_negative() {
    let mut fc = console(&[0xa9, 0x00, 0xa9, 0x80]);
    let before = cpu(&fc).cycles();
    fc.step().unwrap();
    assert_eq!(cpu(&fc).cycles() - before, 2);
    assert_eq!(fc.cpu.reg.a, 0);
    assert!(fc.cpu.reg.p.z);
    assert!(!fc.cpu.reg.p.n);
    fc.step().unwrap();
    assert_eq!(fc.cpu.reg.a, 0x80);
    assert!(fc.cpu.reg.p.n);
    assert!(!fc.cpu.reg.p.z);
}

#[test]
fn add_with_carry_overflow() {
    // CLC; LDA #$50; ADC #$50
    let mut fc = console(&[0x18, 0xa9, 0x50, 0x69, 0x50]);
    for _ in 0..3 {
        fc.step().unwrap();
    }
    assert_eq!(fc.cpu.reg.a, 0xa0);
    assert!(!fc.cpu.reg.p.c);
    assert!(fc.cpu.reg.p.v);
    assert!(fc.cpu.reg.p.n);
}

#[test]
fn add_with_carry_wraps_to_zero() {
    // CLC; LDA #$FF; ADC #$01
    let mut fc = console(&[0x18, 0xa9, 0xff, 0x69, 0x01]);
    for _ in 0..3 {
        fc.step().unwrap();
    }
    assert_eq!(fc.cpu.reg.a, 0x00);
    assert!(fc.cpu.reg.p.c);
    assert!(fc.cpu.reg.p.z);
}

#[test]
fn subtract_with_borrow() {
    // SEC; LDA #$50; SBC #$10
    let mut fc = console(&[0x38, 0xa9, 0x50, 0xe9, 0x10]);
    for _ in 0..3 {
        fc.step().unwrap();
    }
    assert_eq!(fc.cpu.reg.a, 0x40);
    assert!(fc.cpu.reg.p.c);
}

#[test]
fn compare_equal_sets_carry_and_zero() {
    // LDA #$10; CMP #$10
    let mut fc = console(&[0xa9, 0x10, 0xc9, 0x10]);
    fc.step().unwrap();
    fc.step().unwrap();
    assert!(fc.cpu.reg.p.c);
    assert!(fc.cpu.reg.p.z);
    assert!(!fc.cpu.reg.p.n);
}

#[test]
fn store_and_load_zero_page() {
    // LDA #$42; STA $10; LDX $10
    let mut fc = console(&[0xa9, 0x42, 0x85, 0x10, 0xa6, 0x10]);
    let c0 = fc.cpu.cycles();
    fc.step().unwrap();
    fc.step().unwrap();
    assert_eq!(fc.cpu.cycles() - c0, 5);
    fc.step().unwrap();
    assert_eq!(fc.cpu.reg.x, 0x42);
    assert_eq!(fc.read_byte(0x0010), 0x42);
    assert_eq!(fc.read_byte(0x0810), 0x42);
}

#[test]
fn shifts_and_rotates() {
    // SEC; LDA #$81; ROR A; LSR A; ASL A; ROL A
    let mut fc = console(&[0x38, 0xa9, 0x81, 0x6a, 0x4a, 0x0a, 0x2a]);
    fc.step().unwrap();
    fc.step().unwrap();
    fc.step().unwrap();
    assert_eq!(fc.cpu.reg.a, 0xc0);
    assert!(fc.cpu.reg.p.c);
    fc.step().unwrap();
    assert_eq!(fc.cpu.reg.a, 0x60);
    assert!(!fc.cpu.reg.p.c);
    fc.step().unwrap();
    assert_eq!(fc.cpu.reg.a, 0xc0);
    fc.step().unwrap();
    assert_eq!(fc.cpu.reg.a, 0x80);
    assert!(fc.cpu.reg.p.c);
}

#[test]
fn subroutine_call_and_return() {
    // JSR $8005; NOP; NOP; (at $8005) LDA #$07; RTS
    let mut fc = console(&[0x20, 0x05, 0x80, 0xea, 0xea, 0xa9, 0x07, 0x60]);
    let c0 = fc.cpu.cycles();
    fc.step().unwrap();
    assert_eq!(fc.cpu.pc(), 0x8005);
    assert_eq!(fc.cpu.cycles() - c0, 6);
    fc.step().unwrap();
    let c1 = fc.cpu.cycles();
    fc.step().unwrap();
    assert_eq!(fc.cpu.cycles() - c1, 6);
    assert_eq!(fc.cpu.pc(), 0x8003);
    assert_eq!(fc.cpu.reg.a, 7);
}

#[test]
fn branch_taken_and_not_taken() {
    // LDA #$00; BEQ +2; NOP; NOP; BNE -2
    let mut fc = console(&[0xa9, 0x00, 0xf0, 0x02, 0xea, 0xea, 0xd0, 0xfe]);
    fc.step().unwrap();
    let c0 = fc.cpu.cycles();
    fc.step().unwrap();
    assert_eq!(fc.cpu.pc(), 0x8006);
    assert_eq!(fc.cpu.cycles() - c0, 3);
    let c1 = fc.cpu.cycles();
    fc.step().unwrap();
    assert_eq!(fc.cpu.pc(), 0x8008);
    assert_eq!(fc.cpu.cycles() - c1, 2);
}

#[test]
fn illegal_opcode_is_reported() {
    let mut fc = console(&[0x02]);
    assert_eq!(fc.step(), Err(StepError::IllegalOpcode { opcode: 0x02, addr: 0x8000 }));
}

#[test]
fn illegal_opcode_can_be_skipped() {
    let mut fc = console(&[0x02, 0xa9, 0x05]);
    fc.cpu.illegal_policy = rfce::cpu::IllegalOpcodePolicy::Skip;
    fc.step().unwrap();
    fc.step().unwrap();
    assert_eq!(fc.cpu.reg.a, 5);
}

#[test]
fn oam_dma_copies_page_in_order() {
    // LDA #$02; STA $4014; NOP
    let mut fc = console(&[0xa9, 0x02, 0x8d, 0x14, 0x40, 0xea]);
    for i in 0..256usize {
        fc.cpu.mem.ram[0x200 + i] = (i as u8) ^ 0x5a;
    }
    fc.step().unwrap();
    fc.step().unwrap();
    let c0 = fc.cpu.cycles();
    fc.step().unwrap();
    assert_eq!(fc.cpu.cycles() - c0, 513 + 2);
    for i in 0..256usize {
        assert_eq!(fc.cpu.ppu.oam[i], (i as u8) ^ 0x5a);
    }
}

#[test]
fn nmi_once_per_vblank() {
    // LDA #$80; STA $2000; JMP $8005   handler at $8010: INC $10; RTI
    let mut prog = vec![0xa9, 0x80, 0x8d, 0x00, 0x20, 0x4c, 0x05, 0x80];
    prog.resize(0x10, 0xea);
    prog.extend_from_slice(&[0xe6, 0x10, 0x40]);
    let mut fc = FC::from_vec(image(&prog, 0x8010)).unwrap();
    let start = fc.cpu.ppu.frames();
    let mut jumps = 0;
    while fc.cpu.ppu.frames() < start + 2 {
        fc.step().unwrap();
        if fc.cpu.pc() == 0x8010 {
            jumps += 1;
        }
    }
    assert_eq!(jumps, 2);
    assert_eq!(fc.read_byte(0x10), 2);
}

#[test]
fn frame_completes_after_run() {
    let mut fc = console(&[0x4c, 0x00, 0x80]);
    fc.run_until_render_done().unwrap();
    assert_eq!(fc.cpu.ppu.scanlines(), 240);
    assert_eq!(fc.get_frame().len(), 256 * 240 * 3);
}

#[test]
fn cartridge_reads_mirror_sixteen_kib() {
    let fc = console(&[0xa9, 0x33]);
    assert_eq!(fc.read_byte(0x8001), 0x33);
    assert_eq!(fc.read_byte(0xc001), 0x33);
    assert_eq!(fc.cpu.mem.read(0x4000), 0xff);
}

#[test]
fn step_refuses_when_clock_is_exhausted() {
    let mut fc = console(&[0xea]);
    fc.cpu.cycles = rfce::cpu::CYCLE_LIMIT;
    assert_eq!(fc.step(), Err(StepError::ClockExhausted));
}

#[test]
fn trainer_images_are_refused() {
    let mut img = image(&[], 0x8000);
    img[6] = 0x04;
    assert!(matches!(FC::from_vec(img), Err(rfce::cart::LoadError::Trainer)));
}

#[test]
fn truncated_nrom_image_is_refused() {
    let mut img = image(&[], 0x8000);
    img.truncate(16 + 0x100);
    assert!(matches!(FC::from_vec(img), Err(rfce::cart::LoadError::Truncated)));
}

#[test]
fn unknown_mapper_falls_back_to_flat_storage() {
    let mut img = vec![0x4e, 0x45, 0x53, 0x1a, 1, 0, 0x10, 0, 0, 0, 0, 0, 0, 0, 0, 0];
    img.extend_from_slice(&[0xab, 0xcd]);
    let mut fc = FC::from_vec(img).unwrap();
    assert_eq!(fc.read_byte(0x4020), 0xab);
    assert_eq!(fc.read_byte(0x4021), 0xcd);
    fc.cpu.mem.write(0x4022, 0x77);
    assert_eq!(fc.read_byte(0x4022), 0x77);
}

#[test]
fn nrom_program_ram_takes_writes() {
    let mut img = image(&[], 0x8000);
    img[7] = 0x08;
    img[10] = 0x07;
    let mut fc = FC::from_vec(img).unwrap();
    fc.cpu.mem.write(0x6001, 0x99);
    assert_eq!(fc.read_byte(0x6001), 0x99);
    fc.cpu.mem.write(0x8001, 0x99);
    assert_eq!(fc.read_byte(0x8001), 0xea);
}

#[test]
fn stack_push_and_pull() {
    // LDA #$3c; PHA; LDA #$00; PLA
    let mut fc = console(&[0xa9, 0x3c, 0x48, 0xa9, 0x00, 0x68]);
    fc.step().unwrap();
    let sp = fc.cpu.reg.sp;
    fc.step().unwrap();
    assert_eq!(fc.read_byte(0x100 + sp as u16), 0x3c);
    assert_eq!(fc.cpu.reg.sp, sp.wrapping_sub(1));
    fc.step().unwrap();
    fc.step().unwrap();
    assert_eq!(fc.cpu.reg.a, 0x3c);
    assert_eq!(fc.cpu.reg.sp, sp);
}

#[test]
fn video_peek_outside_space_is_refused() {
    let fc = console(&[0xea]);
    assert_eq!(fc.read_video_byte(0x4000), Err(rfce::cpu::PeekError::OutsideVideoSpace));
    assert!(fc.read_video_byte(0x3f00).is_ok());
}

#[test]
fn hard_reset_clears_work_ram() {
    let mut fc = console(&[0xa9, 0x42, 0x85, 0x10]);
    fc.step().unwrap();
    fc.step().unwrap();
    assert_eq!(fc.read_byte(0x10), 0x42);
    fc.reset_hard().unwrap();
    assert_eq!(fc.read_byte(0x10), 0);
    assert_eq!(fc.cpu.pc(), 0x8000);
    assert_eq!(fc.cpu.cycles(), 7);
}

#[test]
fn each_cycle_moves_video_three_dots() {
    let mut fc = console(&[0xa9, 0x00]);
    let dots = |f: &FC| f.cpu.ppu.frames() * 89342 + f.cpu.ppu.scanlines() as u64 * 341 + f.cpu.ppu.cycles() as u64;
    let (d0, c0) = (dots(&fc), fc.cpu.cycles());
    fc.step().unwrap();
    assert_eq!(fc.cpu.cycles() - c0, 2);
    assert_eq!(dots(&fc) - d0, 6);
}
