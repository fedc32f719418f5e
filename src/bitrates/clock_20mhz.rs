//! Bit timing register values for a 20 MHz oscillator, as CNF3, CNF2, CNF1
use vstd::prelude::*;

verus! {

pub const CNF_1000K_BPS: [u8; 3] = [0x82, 0xD9, 0x00];

pub const CNF_500K_BPS: [u8; 3] = [0x87, 0xFA, 0x00];

pub const CNF_250K_BPS: [u8; 3] = [0x86, 0xFB, 0x41];

pub const CNF_200K_BPS: [u8; 3] = [0x87, 0xFF, 0x01];

pub const CNF_125K_BPS: [u8; 3] = [0x87, 0xFA, 0x03];

pub const CNF_100K_BPS: [u8; 3] = [0x87, 0xFA, 0x04];

pub const CNF_83K3_BPS: [u8; 3] = [0x87, 0xFE, 0x04];

pub const CNF_80K_BPS: [u8; 3] = [0x87, 0xFF, 0x04];

pub const CNF_50K_BPS: [u8; 3] = [0x87, 0xFA, 0x09];

pub const CNF_40K_BPS: [u8; 3] = [0x87, 0xFF, 0x09];

pub const CNF_33K3_BPS: [u8; 3] = [0x87, 0xFF, 0x0B];

} // verus!
