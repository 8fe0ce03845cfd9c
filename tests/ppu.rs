use rfce::mem::MemMap;
use rfce::ppu::PPU;

fn write_port(ppu: &mut PPU, mem: &mut MemMap, addr: u16, val: u8) {
    ppu.write_mmio(addr, val, mem);
}

#[test]
fn palette_background_is_shared() {
    let mut mem = MemMap::empty();
    let mut ppu = PPU::new();
    write_port(&mut ppu, &mut mem, 0x2006, 0x3f);
    write_port(&mut ppu, &mut mem, 0x2006, 0x00);
    write_port(&mut ppu, &mut mem, 0x2007, 0x21);
    assert_eq!(ppu.read_addr(0x3f10, &mem), 0x21);
    assert_eq!(ppu.read_addr(0x3f00, &mem), 0x21);

    write_port(&mut ppu, &mut mem, 0x2006, 0x3f);
    write_port(&mut ppu, &mut mem, 0x2006, 0x14);
    write_port(&mut ppu, &mut mem, 0x2007, 0x0c);
    assert_eq!(ppu.read_addr(0x3f04, &mem), 0x0c);

    write_port(&mut ppu, &mut mem, 0x2006, 0x3f);
    write_port(&mut ppu, &mut mem, 0x2006, 0x01);
    write_port(&mut ppu, &mut mem, 0x2007, 0x15);
    assert_eq!(ppu.read_addr(0x3f11, &mem), 0x00);
}

#[test]
fn frame_period_in_dots() {
    let mem = MemMap::empty();
    let mut ppu = PPU::new();
    // 3 frames of 341 x 262 dots are 89342 ticks of 3 dots.
    for _ in 0..89342u32 {
        ppu.cycle(&mem);
    }
    assert_eq!(ppu.frames(), 3);
    assert_eq!(ppu.scanlines(), 0);
    assert_eq!(ppu.cycles(), 0);
}

#[test]
fn scanline_wraps_after_341_dots() {
    let mem = MemMap::empty();
    let mut ppu = PPU::new();
    for _ in 0..114 {
        ppu.cycle(&mem);
    }
    assert_eq!(ppu.scanlines(), 1);
    assert_eq!(ppu.cycles(), 1);
}

#[test]
fn vblank_set_and_cleared_by_status_read() {
    let mem = MemMap::empty();
    let mut ppu = PPU::new();
    while ppu.scanlines() != 241 || ppu.cycles() < 2 {
        ppu.cycle(&mem);
    }
    assert!(ppu.is_vblank());
    let status = ppu.read_mmio(0x2002, &mem);
    assert_eq!(status & 0x80, 0x80);
    assert!(!ppu.is_vblank());
}

#[test]
fn data_port_reads_are_buffered() {
    let mut mem = MemMap::empty();
    let mut ppu = PPU::new();
    write_port(&mut ppu, &mut mem, 0x2006, 0x3f);
    write_port(&mut ppu, &mut mem, 0x2006, 0x02);
    write_port(&mut ppu, &mut mem, 0x2007, 0x2a);
    write_port(&mut ppu, &mut mem, 0x2006, 0x3f);
    write_port(&mut ppu, &mut mem, 0x2006, 0x02);
    // The palette region answers at once.
    assert_eq!(ppu.read_mmio(0x2007, &mem), 0x2a);
    assert_eq!(ppu.reg.v, 0x3f03);
}

#[test]
fn control_increment_of_32() {
    let mut mem = MemMap::empty();
    let mut ppu = PPU::new();
    write_port(&mut ppu, &mut mem, 0x2000, 0x04);
    write_port(&mut ppu, &mut mem, 0x2006, 0x20);
    write_port(&mut ppu, &mut mem, 0x2006, 0x00);
    write_port(&mut ppu, &mut mem, 0x2007, 0x01);
    assert_eq!(ppu.reg.v, 0x2020);
    assert_eq!(ppu.read_mmio_no_sideeffect(0x2000), 0x04);
}

#[test]
fn nametable_image_of_blank_cartridge() {
    let mem = MemMap::empty();
    let mut ppu = PPU::new();
    let mut m = MemMap::empty();
    // Palette entry 3 of palette 0 holds color 0x30 (white).
    ppu.write_mmio(0x2006, 0x3f, &mut m);
    ppu.write_mmio(0x2006, 0x03, &mut m);
    ppu.write_mmio(0x2007, 0x30, &mut m);
    let img = ppu.generate_nametables_image(&mem);
    assert_eq!(img.len(), 512 * 480 * 3);
    // The flat cartridge answers 0xFF for pattern and attribute reads, so
    // every pixel has value 3 in palette 3 (entry 15, still 0: color 0x66 gray).
    assert_eq!(&img[0..3], &[0x66, 0x66, 0x66]);
    assert_eq!(ppu.nametable_color_at(&mem, 0, 0), 0);
}
