use rfce::cart::{LoadError, MapperType, NESFile, NESFileHeader};

fn header(bytes: [u8; 12]) -> NESFileHeader {
    NESFileHeader::from_slice(&bytes)
}

#[test]
fn ines_sizes_and_flags() {
    let h = header([2, 1, 0b0000_0011, 0, 0, 0, 0, 0, 0, 0, 0, 0]);
    assert!(!h.is_nes20_format());
    assert_eq!(h.prg_rom_size(), 0x8000);
    assert_eq!(h.chr_rom_size(), 0x2000);
    assert!(h.nametable_layout());
    assert!(h.battery());
    assert!(!h.trainer());
    assert_eq!(h.mapper_number(), 0);
    assert_eq!(h.prg_ram_size(), 0);
}

#[test]
fn nes20_mapper_and_ram_sizes() {
    let h = header([1, 1, 0x10, 0x28, 0x31, 0, 0x07, 0x09, 0x01, 0, 0x02, 0x05]);
    assert!(h.is_nes20_format());
    assert_eq!(h.mapper_number(), 0x121);
    assert_eq!(h.submapper_number(), 3);
    assert_eq!(h.prg_ram_size(), 64 << 7);
    assert_eq!(h.chr_ram_size(), 64 << 9);
    assert_eq!(h.cpu_ppu_timing_mode(), 1);
    assert_eq!(h.misc_roms_count(), 2);
    assert_eq!(h.default_expansion_device(), 5);
}

#[test]
fn nes20_exponent_multiplier_size() {
    // E = 5, M = 1: 2^5 * 3
    let h = header([(5 << 2) | 1, 0, 0, 0x08, 0, 0x0f, 0, 0, 0, 0, 0, 0]);
    assert_eq!(h.prg_rom_size(), 96);
}

#[test]
fn console_type_extended() {
    let h = header([0, 0, 0, 0x0b, 0, 0, 0, 0, 0, 0x02, 0, 0]);
    assert_eq!(h.console_type(), (2 << 2) | 3);
}

#[test]
fn from_vec_rejects_bad_images() {
    assert!(matches!(NESFile::from_vec(vec![0x4e, 0x45, 0x53]), Err(LoadError::Truncated)));
    let mut bad = vec![0u8; 16];
    bad[0] = b'X';
    assert!(matches!(NESFile::from_vec(bad), Err(LoadError::BadIdentifier)));
}

#[test]
fn from_vec_splits_header_and_data() {
    let mut img = vec![0x4e, 0x45, 0x53, 0x1a, 1, 0, 0x20, 0, 0, 0, 0, 0, 0, 0, 0, 0];
    img.extend_from_slice(&[7, 8, 9]);
    let f = NESFile::from_vec(img).unwrap();
    assert_eq!(f.data, vec![7, 8, 9]);
    assert_eq!(f.mapper_type(), MapperType::UNKNOWN(2));
}
