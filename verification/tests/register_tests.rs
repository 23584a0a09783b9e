use game_boyish::register::{get_bit, get_high, get_low, set_bit, set_high, set_low, Registers};
use game_boyish::util::opcode_dict_util::NopreOperands;

#[test]
fn set_low_high_test() {
    let mut zero = 0b0000_0000_0000_0000;
    set_low(&mut zero, 0b0000_0001);
    assert_eq!(zero, 0b0000_0000_0000_0001);
    set_low(&mut zero, 0b0000_1000);
    assert_eq!(zero, 0b0000_0000_0000_1000);
    set_low(&mut zero, 0b1111_1111);
    assert_eq!(zero, 0b0000_0000_1111_1111);
    set_high(&mut zero, 0b1111_1111);
    assert_eq!(zero, 0b1111_1111_1111_1111);
    set_high(&mut zero, 0b1101_1111);
    assert_eq!(zero, 0b1101_1111_1111_1111);
    set_low(&mut zero, 0b0000_1000);
    assert_eq!(zero, 0b1101_1111_0000_1000);
}

#[test]
fn get_bit_test() {
    let bytes = 0b0110_0000_1010_1001;
    assert!(get_bit(&bytes, 0));
    assert!(!get_bit(&bytes, 1));
    assert!(!get_bit(&bytes, 2));
    assert!(get_bit(&bytes, 3));
    assert!(!get_bit(&bytes, 4));
    assert!(get_bit(&bytes, 5));
    assert!(!get_bit(&bytes, 6));
    assert!(get_bit(&bytes, 7));
}

#[test]
fn high_low_test() {
    let reg = Registers {
        af: 0b0000_0011_1010_0101,
        bc: 0x1128,
        de: 0x1223,
        hl: 0x3142,
        sp: 0x5125,
        pc: 0x1682,
    };
    assert_eq!(0b0000_0011, reg.get_a());
    assert_eq!(0x11, reg.get_b());
    assert_eq!(0x12, reg.get_d());
    assert_eq!(0x31, reg.get_h());
    assert_eq!(0x28, reg.get_c());
    assert_eq!(0x23, reg.get_e());
    assert_eq!(0x42, reg.get_l());
}

#[test]
fn set_bit_test() {
    let mut a = 0b0000_0011_1010_0101u16;
    set_bit(&mut a, 1, true);
    assert_eq!(0b0000_0011_1010_0111, a);
    set_bit(&mut a, 7, true);
    assert_eq!(0b0000_0011_1010_0111, a);
    set_bit(&mut a, 1, false);
    assert_eq!(0b0000_0011_1010_0101, a);
    set_bit(&mut a, 1, true);
    assert_eq!(0b0000_0011_1010_0111, a);
}

#[test]
fn flag_test() {
    //flag : bit 7,6,5,4 = z,n,h,c
    let mut reg = Registers {
        af: 0b0000_0011_1010_0101,
        bc: 0x1128,
        de: 0x1223,
        hl: 0x3142,
        sp: 0x5125,
        pc: 0x1682,
    };
    assert_eq!(reg.flag_z(), true);
    assert_eq!(reg.flag_n(), false);
    assert_eq!(reg.flag_h(), true);
    assert_eq!(reg.flag_c(), false);
    reg.set_flag_z(false);
    reg.set_flag_n(false);
    reg.set_flag_h(true);
    reg.set_flag_c(true);
    assert_eq!(reg.flag_z(), false);
    assert_eq!(reg.flag_n(), false);
    assert_eq!(reg.flag_h(), true);
    assert_eq!(reg.flag_c(), true);
    reg.set_flags(true, true, true, false);
    assert_eq!(reg.flag_z(), true);
    assert_eq!(reg.flag_n(), true);
    assert_eq!(reg.flag_h(), true);
    assert_eq!(reg.flag_c(), false);
}

#[test]
fn setters_touch_one_register() {
    let mut reg = Registers::new();
    reg.set_a(0x12);
    reg.set_b(0x34);
    reg.set_c(0x56);
    reg.set_d(0x78);
    reg.set_e(0x9A);
    reg.set_h(0xBC);
    reg.set_l(0xDE);
    assert_eq!(reg, Registers { af: 0x1200, bc: 0x3456, de: 0x789A, hl: 0xBCDE, sp: 0, pc: 0 });
    assert_eq!(reg.get_f(), 0);
    reg.set_flags(true, false, true, false);
    assert_eq!(reg.af, 0x12A0);
    assert_eq!(reg.get(&NopreOperands::E), 0x9A);
    assert_eq!(reg.get(&NopreOperands::SP), 0);
    reg.set_byte_reg(&NopreOperands::H, 0x01);
    assert_eq!(reg.hl, 0x01DE);
    reg.set_byte_reg(&NopreOperands::n8, 0x55);
    assert_eq!(reg, Registers { af: 0x12A0, bc: 0x3456, de: 0x789A, hl: 0x01DE, sp: 0, pc: 0 });
    // the low four bits of the flag register stay zero
    reg.set_pair(&NopreOperands::AF, 0xFFFF);
    assert_eq!(reg.af, 0xFFF0);
    assert_eq!(reg.af & 0x000F, 0);
    reg.set_pair(&NopreOperands::SP, 0xFFFE);
    assert_eq!(reg.get_pair(&NopreOperands::SP), 0xFFFE);
    assert_eq!(reg.get_pair(&NopreOperands::BC), 0x3456);
    assert_eq!(get_low(&0xABCD), 0xCD);
    assert_eq!(get_high(&0xABCD), 0xAB);
}

#[test]
fn pairs_wrap() {
    let mut reg = Registers::new();
    reg.hl = 0xFFFF;
    reg.hl_plus();
    assert_eq!(reg.hl, 0);
    reg.hl_minus();
    assert_eq!(reg.hl, 0xFFFF);
    reg.pc = 0xFFFF;
    assert_eq!(reg.get_pc_next(), 0);
    let doctor = Registers::new_doctor();
    assert_eq!(doctor.get_a(), 0x01);
    assert_eq!(doctor.get_f(), 0xB0);
    assert_eq!(doctor.sp, 0xFFFE);
    assert_eq!(doctor.pc, 0x0100);
}
