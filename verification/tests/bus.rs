use emulator::machine::bus::{Bus, FLASH_ROM_SIZE, HIGH_RAM_SIZE, LOW_RAM_SIZE};

fn blank() -> Bus {
    Bus::new(vec![0u8; FLASH_ROM_SIZE])
}

#[test]
fn array_sizes() {
    assert_eq!(LOW_RAM_SIZE, 512 * 1024);
    assert_eq!(FLASH_ROM_SIZE, 512 * 1024);
    assert_eq!(HIGH_RAM_SIZE, 2048 * 1024);
}

#[test]
fn readable_regions() {
    assert!(Bus::can_read(0x00, 0x0000));
    assert!(Bus::can_read(0x00, 0x7EFF));
    assert!(!Bus::can_read(0x00, 0x7F00));
    assert!(!Bus::can_read(0x0F, 0x7FFF));
    assert!(Bus::can_read(0x00, 0x8000));
    assert!(Bus::can_read(0x0F, 0xFFFF));
    assert!(!Bus::can_read(0x10, 0x0000));
    assert!(!Bus::can_read(0x1F, 0xFFFF));
    assert!(Bus::can_read(0x20, 0x0000));
    assert!(Bus::can_read(0x3F, 0xFFFF));
    assert!(!Bus::can_read(0x40, 0x0000));
    assert!(!Bus::can_read(0xFF, 0xFFFF));
}

#[test]
fn writable_regions() {
    assert!(Bus::can_write(0x00, 0x0000));
    assert!(Bus::can_write(0x0F, 0x7EFF));
    assert!(!Bus::can_write(0x00, 0x7F00));
    assert!(!Bus::can_write(0x00, 0x8000));
    assert!(!Bus::can_write(0x0F, 0xFFFF));
    assert!(!Bus::can_write(0x10, 0x1234));
    assert!(Bus::can_write(0x20, 0x0000));
    assert!(Bus::can_write(0x3F, 0xFFFF));
    assert!(!Bus::can_write(0x40, 0x0000));
}

#[test]
fn flash_is_read_from_the_image() {
    let mut image = vec![0u8; FLASH_ROM_SIZE];
    image[0] = 0x11;
    image[0x7FFF] = 0x22;
    image[0x8000] = 0x33;
    image[0x0F * 0x8000 + 0x7FFF] = 0x44;
    let mut bus = Bus::new(image);
    assert_eq!(bus.read(0x00, 0x8000), 0x11);
    assert_eq!(bus.read(0x00, 0xFFFF), 0x22);
    assert_eq!(bus.read(0x01, 0x8000), 0x33);
    assert_eq!(bus.read(0x0F, 0xFFFF), 0x44);
}

#[test]
fn ram_starts_at_zero() {
    let mut bus = blank();
    assert_eq!(bus.read(0x00, 0x0000), 0);
    assert_eq!(bus.read(0x0F, 0x7EFF), 0);
    assert_eq!(bus.read(0x20, 0x0000), 0);
    assert_eq!(bus.read(0x3F, 0xFFFF), 0);
}

#[test]
fn low_ram_keeps_what_is_written() {
    let mut bus = blank();
    bus.write(0x00, 0x0100, 0xAA);
    bus.write(0x01, 0x0100, 0xBB);
    bus.write(0x0F, 0x7EFF, 0xCC);
    assert_eq!(bus.read(0x00, 0x0100), 0xAA);
    assert_eq!(bus.read(0x01, 0x0100), 0xBB);
    assert_eq!(bus.read(0x0F, 0x7EFF), 0xCC);
    assert_eq!(bus.read(0x00, 0x0101), 0x00);
}

#[test]
fn high_ram_banks_are_half_a_bank_apart() {
    let mut bus = blank();
    bus.write(0x20, 0x8000, 0x5A);
    assert_eq!(bus.read(0x20, 0x8000), 0x5A);
    assert_eq!(bus.read(0x21, 0x0000), 0x5A);
    bus.write(0x3F, 0xFFFF, 0xA5);
    assert_eq!(bus.read(0x3F, 0xFFFF), 0xA5);
}

#[test]
fn every_access_is_counted() {
    let mut bus = blank();
    assert_eq!(bus.cycles(), 0);
    bus.read(0x00, 0x8000);
    assert_eq!(bus.cycles(), 1);
    bus.write(0x00, 0x0000, 1);
    assert_eq!(bus.cycles(), 2);
    bus.read(0x20, 0x0000);
    assert_eq!(bus.cycles(), 3);
}
