//! Bit timing register values for a 8 MHz oscillator, as CNF3, CNF2, CNF1
use vstd::prelude::*;

verus! {

pub const CNF_500K_BPS: [u8; 3] = [0x82, 0x90, 0x00];

pub const CNF_250K_BPS: [u8; 3] = [0x85, 0xB1, 0x00];

pub const CNF_200K_BPS: [u8; 3] = [0x86, 0xB4, 0x00];

pub const CNF_125K_BPS: [u8; 3] = [0x85, 0xB1, 0x01];

pub const CNF_100K_BPS: [u8; 3] = [0x86, 0xB4, 0x01];

pub const CNF_80K_BPS: [u8; 3] = [0x87, 0xBF, 0x01];

pub const CNF_50K_BPS: [u8; 3] = [0x86, 0xB4, 0x03];

pub const CNF_40K_BPS: [u8; 3] = [0x87, 0xBF, 0x03];

pub const CNF_33K3_BPS: [u8; 3] = [0x85, 0xE2, 0x47];

pub const CNF_31K25_BPS: [u8; 3] = [0x84, 0xA4, 0x07];

pub const CNF_20K_BPS: [u8; 3] = [0x87, 0xBF, 0x07];

pub const CNF_10K_BPS: [u8; 3] = [0x87, 0xBF, 0x0F];

pub const CNF_5K_BPS: [u8; 3] = [0x87, 0xBF, 0x1F];

} // verus!
