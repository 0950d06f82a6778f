use rb_core::{Joypad, MemBus};

fn rom() -> Vec<u8> {
    (0..0x8000usize).map(|i| (i % 251) as u8).collect()
}

#[test]
fn rom_banks_read_back_and_ignore_writes() {
    let mut bus = MemBus::new(None, rom());
    assert_eq!(bus.read_byte(0x0000), 0);
    assert_eq!(bus.read_byte(0x1234), (0x1234 % 251) as u8);
    assert_eq!(bus.read_byte(0x7FFF), (0x7FFF % 251) as u8);
    bus.write_byte(0x1234, 0xAA);
    assert_eq!(bus.read_byte(0x1234), (0x1234 % 251) as u8);
}

#[test]
fn boot_rom_overlay_until_unmapped() {
    let boot = vec![0x31u8; 256];
    let mut bus = MemBus::new(Some(boot), rom());
    assert_eq!(bus.read_byte(0x0005), 0x31);
    assert_eq!(bus.read_byte(0x0100), (0x0100 % 251) as u8);
    bus.write_byte(0xFF50, 0x01);
    assert!(bus.bootrom.is_none());
    assert_eq!(bus.read_byte(0x0005), 5);
}

#[test]
fn echo_ram_mirrors_work_ram() {
    let mut bus = MemBus::new(None, rom());
    bus.write_byte(0xC123, 0x5A);
    assert_eq!(bus.read_byte(0xE123), 0x5A);
    bus.write_byte(0xFDFF, 0x77);
    assert_eq!(bus.read_byte(0xDDFF), 0x77);
}

#[test]
fn unused_region_reads_zero() {
    let mut bus = MemBus::new(None, rom());
    bus.write_byte(0xFEA0, 0x12);
    assert_eq!(bus.read_byte(0xFEA0), 0);
    assert_eq!(bus.read_byte(0xFEFF), 0);
}

#[test]
fn external_and_high_ram() {
    let mut bus = MemBus::new(None, rom());
    bus.write_byte(0xA000, 1);
    bus.write_byte(0xFF80, 2);
    bus.write_byte(0xFFFE, 3);
    assert_eq!(bus.read_byte(0xA000), 1);
    assert_eq!(bus.read_byte(0xFF80), 2);
    assert_eq!(bus.read_byte(0xFFFE), 3);
}

#[test]
fn vram_write_reaches_tile_cache() {
    let mut bus = MemBus::new(None, rom());
    bus.write_byte(0x8000, 0x3C);
    bus.write_byte(0x8001, 0x7E);
    assert_eq!(bus.read_byte(0x8001), 0x7E);
    assert_eq!(bus.gpu.tile_pixel_value(0, 0, 1), 2);
}

#[test]
fn dma_copies_into_oam() {
    let mut bus = MemBus::new(None, rom());
    for i in 0..160u16 {
        bus.write_byte(0xC000 + i, (i as u8).wrapping_mul(3));
    }
    bus.write_byte(0xFF46, 0xC0);
    for i in 0..160u16 {
        assert_eq!(bus.read_byte(0xFE00 + i), (i as u8).wrapping_mul(3));
    }
    assert_eq!(bus.gpu.object_data[0].y, 0 - 16);
    assert_eq!(bus.gpu.object_data[0].x, 3 - 8);
}

#[test]
fn interrupt_registers() {
    let mut bus = MemBus::new(None, rom());
    bus.write_byte(0xFFFF, 0x1F);
    bus.write_byte(0xFF0F, 0x03);
    assert_eq!(bus.read_byte(0xFFFF), 0x1F);
    assert_eq!(bus.read_byte(0xFF0F), 0xE3);
    assert!(bus.has_interrupt());
    bus.write_byte(0xFFFF, 0x00);
    assert!(!bus.has_interrupt());
}

#[test]
fn unmapped_port_reads_ff() {
    let mut bus = MemBus::new(None, rom());
    bus.write_byte(0xFF01, 0x12);
    assert_eq!(bus.read_byte(0xFF01), 0xFF);
    assert_eq!(bus.read_byte(0xFF7F), 0xFF);
}

#[test]
fn display_ports() {
    let mut bus = MemBus::new(None, rom());
    bus.write_byte(0xFF42, 7);
    bus.write_byte(0xFF43, 9);
    bus.write_byte(0xFF45, 100);
    bus.write_byte(0xFF4A, 3);
    bus.write_byte(0xFF4B, 4);
    bus.write_byte(0xFF47, 0x1B);
    assert_eq!(bus.read_byte(0xFF42), 7);
    assert_eq!(bus.read_byte(0xFF43), 9);
    assert_eq!(bus.read_byte(0xFF45), 100);
    assert_eq!(bus.read_byte(0xFF4A), 3);
    assert_eq!(bus.read_byte(0xFF4B), 4);
    assert_eq!(bus.read_byte(0xFF47), 0x1B);
    bus.write_byte(0xFF44, 50);
    assert_eq!(bus.read_byte(0xFF44), 0);
}

#[test]
fn bus_step_latches_vblank() {
    let mut bus = MemBus::new(None, rom());
    bus.write_byte(0xFF40, 0x91);
    let mut n = 0;
    while !bus.interrupt_flag.vblank {
        bus.step(4);
        n += 4;
    }
    assert_eq!(bus.gpu.line, 144);
    // From dot 252 of line 0 to the start of line 144 at 144 * 456.
    assert_eq!(n, 144 * 456 - 252);
}

#[test]
fn joypad_port() {
    let mut bus = MemBus::new(None, rom());
    bus.joypad.set_buttons(0b0001);
    bus.joypad.set_directions(0b1000);
    bus.write_byte(0xFF00, 0x10);
    assert_eq!(bus.read_byte(0xFF00), 0xDE);
    bus.write_byte(0xFF00, 0x20);
    assert_eq!(bus.read_byte(0xFF00), 0xE7);
    bus.write_byte(0xFF00, 0x30);
    assert_eq!(bus.read_byte(0xFF00), 0xFF);
    let j = Joypad::new();
    assert_eq!(j.read(), 0xFF);
}
