use riscv::system_interface::{MMIODevice, RamDevice};

#[test]
fn ram_test_read() {
    let mut ram = RamDevice::new();
    ram.write_word(0x0000_0000, 0xDEAD_BEEF).unwrap();
    ram.write_word(0x0000_0004, 0xC0DE_CAFE).unwrap();
    assert_eq!(ram.read_word(0x0000_0000), Ok(0xDEAD_BEEF));
    assert_eq!(ram.read_word(0x0000_0004), Ok(0xC0DE_CAFE));
    assert_eq!(ram.read_word(0x0000_0008), Ok(0xFFFF_FFFF));
    assert_eq!(ram.read_half_word(0x0000_0000), Ok(0xDEAD));
    assert_eq!(ram.read_half_word(0x0000_0002), Ok(0xBEEF));
    assert_eq!(ram.read_half_word(0x0000_0004), Ok(0xC0DE));
    assert_eq!(ram.read_half_word(0x0000_0006), Ok(0xCAFE));
    assert_eq!(ram.read_half_word(0x0000_0008), Ok(0xFFFF));
    assert_eq!(ram.read_byte(0x0000_0000), Ok(0xDE));
    assert_eq!(ram.read_byte(0x0000_0001), Ok(0xAD));
    assert_eq!(ram.read_byte(0x0000_0002), Ok(0xBE));
    assert_eq!(ram.read_byte(0x0000_0003), Ok(0xEF));
    assert_eq!(ram.read_byte(0x0000_0004), Ok(0xC0));
    assert_eq!(ram.read_byte(0x0000_0005), Ok(0xDE));
    assert_eq!(ram.read_byte(0x0000_0006), Ok(0xCA));
    assert_eq!(ram.read_byte(0x0000_0007), Ok(0xFE));
    assert_eq!(ram.read_byte(0x0000_0008), Ok(0xFF));
}

#[test]
fn ram_test_write() {
    let mut ram = RamDevice::new();
    ram.write_word(0x0000_0000, 0xDEAD_BEEF).unwrap();
    ram.write_word(0x0000_0004, 0xC0DE_CAFE).unwrap();
    assert_eq!(ram.read_word(0x0000_0000), Ok(0xDEAD_BEEF));
    assert_eq!(ram.read_word(0x0000_0004), Ok(0xC0DE_CAFE));
    assert_eq!(ram.read_word(0x0000_0008), Ok(0xFFFF_FFFF));

    ram.write_half_word(0x0000_0000, 0xABAD).unwrap();
    ram.write_half_word(0x0000_0006, 0x1DEA).unwrap();
    assert_eq!(ram.read_word(0x0000_0000), Ok(0xABAD_BEEF));
    assert_eq!(ram.read_word(0x0000_0004), Ok(0xC0DE_1DEA));

    ram.write_byte(0x0000_0000, 0xAA).unwrap();
    ram.write_byte(0x0000_0003, 0xBB).unwrap();
    ram.write_byte(0x0000_0007, 0xCC).unwrap();
    assert_eq!(ram.read_word(0x0000_0000), Ok(0xAAAD_BEBB));
    assert_eq!(ram.read_word(0x0000_0004), Ok(0xC0DE_1DCC));
}

#[test]
fn ram_test_write_wrap_around() {
    let mut ram = RamDevice::new();
    ram.write_word(0x1000_0000, 0xDEAD_BEEF).unwrap();
    ram.write_word(0x1000_0004, 0xC0DE_CAFE).unwrap();
    assert_eq!(ram.read_word(0x0000_0000), Ok(0xDEAD_BEEF));
    assert_eq!(ram.read_word(0x0000_0004), Ok(0xC0DE_CAFE));
    assert_eq!(ram.read_word(0x0000_0008), Ok(0xFFFF_FFFF));

    ram.write_half_word(0x1000_0000, 0xABAD).unwrap();
    ram.write_half_word(0x1000_0006, 0x1DEA).unwrap();
    assert_eq!(ram.read_word(0x0000_0000), Ok(0xABAD_BEEF));
    assert_eq!(ram.read_word(0x0000_0004), Ok(0xC0DE_1DEA));

    ram.write_byte(0x1000_0000, 0xAA).unwrap();
    ram.write_byte(0x1000_0003, 0xBB).unwrap();
    ram.write_byte(0x1000_0007, 0xCC).unwrap();
    assert_eq!(ram.read_word(0x0000_0000), Ok(0xAAAD_BEBB));
    assert_eq!(ram.read_word(0x0000_0004), Ok(0xC0DE_1DCC));
}

#[test]
fn ram_test_read_wrap_around() {
    let mut ram = RamDevice::new();
    ram.write_word(0x0000_0000, 0xDEAD_BEEF).unwrap();
    ram.write_word(0x0000_0004, 0xC0DE_CAFE).unwrap();
    assert_eq!(ram.read_word(0x1000_0000), Ok(0xDEAD_BEEF));
    assert_eq!(ram.read_word(0x1000_0004), Ok(0xC0DE_CAFE));
    assert_eq!(ram.read_word(0x1000_0008), Ok(0xFFFF_FFFF));
    assert_eq!(ram.read_word(0x4000_0000), Ok(0xDEAD_BEEF));
    assert_eq!(ram.read_word(0x4000_0004), Ok(0xC0DE_CAFE));
    assert_eq!(ram.read_word(0x4000_0008), Ok(0xFFFF_FFFF));
    assert_eq!(ram.read_half_word(0x1000_0000), Ok(0xDEAD));
    assert_eq!(ram.read_half_word(0x1000_0002), Ok(0xBEEF));
    assert_eq!(ram.read_half_word(0x1000_0004), Ok(0xC0DE));
    assert_eq!(ram.read_half_word(0x1000_0006), Ok(0xCAFE));
    assert_eq!(ram.read_half_word(0x1000_0008), Ok(0xFFFF));
    assert_eq!(ram.read_half_word(0x4000_0000), Ok(0xDEAD));
    assert_eq!(ram.read_half_word(0x4000_0002), Ok(0xBEEF));
    assert_eq!(ram.read_half_word(0x4000_0004), Ok(0xC0DE));
    assert_eq!(ram.read_half_word(0x4000_0006), Ok(0xCAFE));
    assert_eq!(ram.read_half_word(0x4000_0008), Ok(0xFFFF));
    assert_eq!(ram.read_byte(0x1000_0000), Ok(0xDE));
    assert_eq!(ram.read_byte(0x1000_0001), Ok(0xAD));
    assert_eq!(ram.read_byte(0x1000_0002), Ok(0xBE));
    assert_eq!(ram.read_byte(0x1000_0003), Ok(0xEF));
    assert_eq!(ram.read_byte(0x1000_0004), Ok(0xC0));
    assert_eq!(ram.read_byte(0x1000_0005), Ok(0xDE));
    assert_eq!(ram.read_byte(0x1000_0006), Ok(0xCA));
    assert_eq!(ram.read_byte(0x1000_0007), Ok(0xFE));
    assert_eq!(ram.read_byte(0x1000_0008), Ok(0xFF));
    assert_eq!(ram.read_byte(0x4000_0000), Ok(0xDE));
    assert_eq!(ram.read_byte(0x4000_0001), Ok(0xAD));
    assert_eq!(ram.read_byte(0x4000_0002), Ok(0xBE));
    assert_eq!(ram.read_byte(0x4000_0003), Ok(0xEF));
    assert_eq!(ram.read_byte(0x4000_0004), Ok(0xC0));
    assert_eq!(ram.read_byte(0x4000_0005), Ok(0xDE));
    assert_eq!(ram.read_byte(0x4000_0006), Ok(0xCA));
    assert_eq!(ram.read_byte(0x4000_0007), Ok(0xFE));
    assert_eq!(ram.read_byte(0x4000_0008), Ok(0xFF));
}
