use gb_emulator::joypad::{bit, Button};
use gb_emulator::memory::{Bus, Mmu};

#[test]
fn oam_dma_copies_160_bytes_from_wram() {
    let mut mmu = Mmu::new();
    for i in 0..0xA0u16 {
        mmu.write(0xC000 + i, (i as u8).wrapping_add(0x42));
    }
    mmu.write(0xFF46, 0xC0);
    for i in 0..0xA0u16 {
        assert_eq!(mmu.read(0xFE00 + i), (i as u8).wrapping_add(0x42));
    }
}

#[test]
fn oam_dma_readback_returns_last_source() {
    let mut mmu = Mmu::new();
    mmu.write(0xFF46, 0xC0);
    assert_eq!(mmu.read(0xFF46), 0xC0);
    mmu.write(0xFF46, 0x80);
    assert_eq!(mmu.read(0xFF46), 0x80);
}

#[test]
fn oam_dma_works_from_rom() {
    let mut rom = vec![0u8; 0x8000];
    for i in 0..0xA0u16 {
        rom[0x0500 + i as usize] = i as u8 ^ 0x55;
    }
    let mut mmu = Mmu::new();
    mmu.load_rom(&rom);
    mmu.write(0xFF46, 0x05);
    for i in 0..0xA0u16 {
        assert_eq!(mmu.read(0xFE00 + i), (i as u8) ^ 0x55);
    }
}

#[test]
fn joypad_routed_through_ff00() {
    let mut mmu = Mmu::new();
    // Select d-pad.
    mmu.write(0xFF00, 0xEF);
    // Reading FF00 with nothing pressed: top bits 1, select retained, low nibble 0xF.
    assert_eq!(mmu.read(0xFF00) & 0x0F, 0x0F);

    // Press Right via the joypad directly, then read again.
    mmu.joypad.set_state(bit(Button::Right));
    assert_eq!(mmu.read(0xFF00) & 0x01, 0);
}
