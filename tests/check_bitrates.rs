use mcp25xx::bitrates::{clock_16mhz, clock_20mhz, clock_8mhz};
use mcp25xx::registers::CNF;

const CNF8: [[u8; 3]; 13] = [
    clock_8mhz::CNF_500K_BPS,
    clock_8mhz::CNF_250K_BPS,
    clock_8mhz::CNF_200K_BPS,
    clock_8mhz::CNF_125K_BPS,
    clock_8mhz::CNF_100K_BPS,
    clock_8mhz::CNF_80K_BPS,
    clock_8mhz::CNF_50K_BPS,
    clock_8mhz::CNF_40K_BPS,
    clock_8mhz::CNF_33K3_BPS,
    clock_8mhz::CNF_31K25_BPS,
    clock_8mhz::CNF_20K_BPS,
    clock_8mhz::CNF_10K_BPS,
    clock_8mhz::CNF_5K_BPS,
];
const CNF16: [[u8; 3]; 14] = [
    clock_16mhz::CNF_1000K_BPS,
    clock_16mhz::CNF_500K_BPS,
    clock_16mhz::CNF_250K_BPS,
    clock_16mhz::CNF_200K_BPS,
    clock_16mhz::CNF_125K_BPS,
    clock_16mhz::CNF_100K_BPS,
    clock_16mhz::CNF_80K_BPS,
    clock_16mhz::CNF_83K3_BPS,
    clock_16mhz::CNF_50K_BPS,
    clock_16mhz::CNF_40K_BPS,
    clock_16mhz::CNF_33K3_BPS,
    clock_16mhz::CNF_20K_BPS,
    clock_16mhz::CNF_10K_BPS,
    clock_16mhz::CNF_5K_BPS,
];
const CNF20: [[u8; 3]; 11] = [
    clock_20mhz::CNF_1000K_BPS,
    clock_20mhz::CNF_500K_BPS,
    clock_20mhz::CNF_250K_BPS,
    clock_20mhz::CNF_200K_BPS,
    clock_20mhz::CNF_125K_BPS,
    clock_20mhz::CNF_100K_BPS,
    clock_20mhz::CNF_83K3_BPS,
    clock_20mhz::CNF_80K_BPS,
    clock_20mhz::CNF_50K_BPS,
    clock_20mhz::CNF_40K_BPS,
    clock_20mhz::CNF_33K3_BPS,
];

#[test]
fn test_print_bitrate() {
    for cnf in CNF8 {
        println!("{:?}", CNF::from_bytes(cnf));
    }
    for cnf in CNF16 {
        println!("{:?}", CNF::from_bytes(cnf));
    }
    for cnf in CNF20 {
        println!("{:?}", CNF::from_bytes(cnf));
    }
}

fn check_bitrate(f: usize, bytes: [u8; 3]) {
    let cnf = CNF::from_bytes(bytes);
    let tq = 2.0 * (cnf.cnf1.brp() as f64 + 1.0) / f as f64;
    let prseg = cnf.cnf2.prseg() as usize + 1;
    let phseg1 = cnf.cnf2.phseg1() as usize + 1;
    let phseg2 = cnf.cnf3.phseg2() as usize + 1;
    let sjw = cnf.cnf1.sjw() as usize + 1;
    let tq_num = 1 + prseg + phseg1 + phseg2;

    assert!(phseg1 >= sjw);
    assert!(phseg2 >= sjw);
    println!("{}", 1.0 / (tq_num as f64 * tq));
}

#[test]
fn test_bitrates() {
    for cnf in CNF8 {
        check_bitrate(8_000_000, cnf);
    }
    for cnf in CNF16 {
        check_bitrate(16_000_000, cnf);
    }
    for cnf in CNF20 {
        check_bitrate(20_000_000, cnf);
    }
}

#[test]
fn cnf_bytes_round_trip() {
    let cnf = CNF::from_bytes(clock_8mhz::CNF_500K_BPS);
    assert_eq!(cnf.into_bytes(), [0x82, 0x90, 0x00]);
    assert_eq!(cnf.cnf3.phseg2(), 2);
    assert_eq!(cnf.cnf2.btlmode(), true);
    assert_eq!(cnf.cnf2.phseg1(), 2);
    assert_eq!(cnf.cnf1.brp(), 0);
}
