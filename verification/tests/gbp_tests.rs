//! Palette lookups and pixel application.

use fegabo::gbp::{Pallet, GBP};

#[test]
fn apply() {
    let pallet = GBP { bgp: 0, obp0: 0b00011011, obp1: 0b00000000 };
    let mut buffer: Vec<u8> = vec![0, 0, 0];
    pallet.apply(Pallet::OBP0, 2, &mut buffer);
    assert_eq!(buffer[0], 170);
    assert_eq!(buffer[1], 170);
    assert_eq!(buffer[2], 170);
    pallet.apply(Pallet::OBP1, 1, &mut buffer);
    assert_eq!(buffer[0], 255);
    assert_eq!(buffer[1], 255);
    assert_eq!(buffer[2], 255);
}

#[test]
fn shade_maps_all_four_levels() {
    let pallet = GBP { bgp: 0b11100100, obp0: 0, obp1: 0 };
    assert_eq!(pallet.shade(Pallet::BGP, 0), 255);
    assert_eq!(pallet.shade(Pallet::BGP, 1), 170);
    assert_eq!(pallet.shade(Pallet::BGP, 2), 85);
    assert_eq!(pallet.shade(Pallet::BGP, 3), 0);
}

#[test]
fn palette_registers_read_back() {
    let mut pallet = GBP::new();
    assert!(pallet.write(0xFF47, 0xE4));
    assert!(pallet.write(0xFF48, 0x1B));
    assert!(!pallet.write(0xFF46, 0x00));
    assert_eq!(pallet.read(0xFF47), Some(0xE4));
    assert_eq!(pallet.read(0xFF48), Some(0x1B));
    assert_eq!(pallet.read(0xFF49), Some(0x00));
    assert_eq!(pallet.read(0xFF46), None);
}
