use gbemu::registers::Registers;

#[test]
fn write_af_clears_low_nibble_of_f() {
    for v in 0u32..=0xFFFF {
        let mut r = Registers::new();
        r.write_af(v as u16);
        assert_eq!(r.f & 0x0F, 0);
        assert_eq!(r.a, (v >> 8) as u8);
        assert_eq!(r.f, (v & 0xF0) as u8);
    }
}

#[test]
fn af_reads_a_high_and_f_low() {
    let mut r = Registers::new();
    r.write_af(0x12F7);
    assert_eq!(r.af(), 0x12F0);
}

#[test]
fn pairs_round_trip() {
    for v in [0x0000u16, 0x00FF, 0xFF00, 0x1234, 0xBEEF, 0xFFFF] {
        let mut r = Registers::new();
        r.write_bc(v);
        assert_eq!(r.bc(), v);
        r.write_de(v);
        assert_eq!(r.de(), v);
        r.write_hl(v);
        assert_eq!(r.hl(), v);
        r.write_af(v & 0xFFF0);
        assert_eq!(r.af(), v & 0xFFF0);
    }
}

#[test]
fn de_reads_d_high_and_e_low() {
    let mut r = Registers::new();
    r.d = 0x12;
    r.e = 0x34;
    assert_eq!(r.de(), 0x1234);
    r.write_de(0xABCD);
    assert_eq!((r.d, r.e), (0xAB, 0xCD));
}

#[test]
fn pair_writes_leave_other_registers() {
    let mut r = Registers::new();
    r.a = 1;
    r.write_bc(0x1234);
    assert_eq!((r.b, r.c), (0x12, 0x34));
    assert_eq!((r.a, r.d, r.e, r.h, r.l, r.sp, r.pc), (1, 0, 0, 0, 0, 0, 0));
}

#[test]
fn flags_set_and_clear_their_own_bit() {
    let mut r = Registers::new();
    r.write_zf(true);
    assert_eq!(r.f, 0x80);
    assert!(r.zf() && !r.nf() && !r.hf() && !r.cf());
    r.write_nf(true);
    assert_eq!(r.f, 0xC0);
    assert!(r.nf());
    r.write_hf(true);
    assert_eq!(r.f, 0xE0);
    assert!(r.hf());
    r.write_cf(true);
    assert_eq!(r.f, 0xF0);
    assert!(r.cf());
    r.write_zf(false);
    assert_eq!(r.f, 0x70);
    assert!(!r.zf());
    r.write_hf(false);
    assert_eq!(r.f, 0x50);
    r.write_nf(false);
    assert_eq!(r.f, 0x10);
    r.write_cf(false);
    assert_eq!(r.f, 0x00);
}
