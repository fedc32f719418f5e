//! Bit timing register values for a 16 MHz oscillator, as CNF3, CNF2, CNF1
use vstd::prelude::*;

verus! {

pub const CNF_1000K_BPS: [u8; 3] = [0x82, 0xD0, 0x00];

pub const CNF_500K_BPS: [u8; 3] = [0x86, 0xF0, 0x00];

pub const CNF_250K_BPS: [u8; 3] = [0x85, 0xF1, 0x41];

pub const CNF_200K_BPS: [u8; 3] = [0x87, 0xFA, 0x01];

pub const CNF_125K_BPS: [u8; 3] = [0x86, 0xF0, 0x03];

pub const CNF_100K_BPS: [u8; 3] = [0x87, 0xFA, 0x03];

pub const CNF_80K_BPS: [u8; 3] = [0x87, 0xFF, 0x03];

pub const CNF_83K3_BPS: [u8; 3] = [0x07, 0xBE, 0x03];

pub const CNF_50K_BPS: [u8; 3] = [0x87, 0xFA, 0x07];

pub const CNF_40K_BPS: [u8; 3] = [0x87, 0xFF, 0x07];

pub const CNF_33K3_BPS: [u8; 3] = [0x85, 0xF1, 0x4E];

pub const CNF_20K_BPS: [u8; 3] = [0x87, 0xFF, 0x0F];

pub const CNF_10K_BPS: [u8; 3] = [0x87, 0xFF, 0x1F];

pub const CNF_5K_BPS: [u8; 3] = [0x87, 0xFF, 0x3F];

} // verus!
