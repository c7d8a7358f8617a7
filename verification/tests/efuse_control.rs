use bouffalo_hal::efuse::EfuseControl;

#[test]
fn prot_code_cyc_written_into_top_byte() {
    let c = EfuseControl(0xFFFF_FFFF).set_prot_code_cyc(0x12);
    assert_eq!(c.0, 0x12FF_FFFF);
    assert_eq!(c.prot_code_cyc(), 0x12);
    let c = EfuseControl(0).set_prot_code_cyc(0xFF);
    assert_eq!(c.0, 0xFF00_0000);
    assert_eq!(c.prot_code_cyc(), 0xFF);
    assert_eq!(EfuseControl(0xA5C3_0000).prot_code_cyc(), 0xA5);
}

#[test]
fn if_0_int_set_keeps_lowest_bit_only() {
    assert_eq!(EfuseControl(0).set_if_0_int_set(1).0, 0x0040_0000);
    assert_eq!(EfuseControl(0).set_if_0_int_set(3).0, 0x0040_0000);
    assert_eq!(EfuseControl(0).set_if_0_int_set(2).0, 0);
    assert_eq!(EfuseControl(0xFFFF_FFFF).set_if_0_int_set(0).0, 0xFFBF_FFFF);
    assert_eq!(EfuseControl(0x0040_0000).if_0_int_set(), 1);
    assert_eq!(EfuseControl(0xFFBF_FFFF).if_0_int_set(), 0);
}

#[test]
fn if_0_int_clr_keeps_lowest_bit_only() {
    assert_eq!(EfuseControl(0).set_if_0_int_clr(1).0, 0x0020_0000);
    assert_eq!(EfuseControl(0).set_if_0_int_clr(0xFF).0, 0x0020_0000);
    assert_eq!(EfuseControl(0).set_if_0_int_clr(0xFE).0, 0);
    assert_eq!(EfuseControl(0xFFFF_FFFF).set_if_0_int_clr(0).0, 0xFFDF_FFFF);
}

#[test]
fn if_0_int_occurs_reads_bit_20() {
    assert!(EfuseControl(0x0010_0000).if_0_int_occurs());
    assert!(!EfuseControl(0).if_0_int_occurs());
    assert!(!EfuseControl(0xFFEF_FFFF).if_0_int_occurs());
}

#[test]
fn cyc_modify_lock_keeps_lowest_bit_only() {
    assert_eq!(EfuseControl(0).set_cyc_modify_lock(1).0, 0x0008_0000);
    assert_eq!(EfuseControl(0xFFFF_FFFF).set_cyc_modify_lock(0).0, 0xFFF7_FFFF);
    let c = EfuseControl(0).set_cyc_modify_lock(2);
    assert_eq!(c.0, 0);
    assert_eq!(c.cyc_modify_lock(), 0);
    assert!(!c.if_0_int_occurs());
    let c = EfuseControl(0).set_cyc_modify_lock(0xFF);
    assert_eq!(c.0, 0x0008_0000);
    assert_eq!(c.cyc_modify_lock(), 1);
    assert_eq!(EfuseControl(0x0008_0000).cyc_modify_lock(), 1);
    assert_eq!(EfuseControl(0xFFF7_FFFF).cyc_modify_lock(), 0);
}

#[test]
fn auto_read_switch() {
    assert_eq!(EfuseControl(0).enable_auto_read().0, 0x0004_0000);
    assert_eq!(EfuseControl(0xFFFF_FFFF).disable_auto_read().0, 0xFFFB_FFFF);
    assert!(EfuseControl(0).enable_auto_read().is_auto_read_enabled());
    assert!(!EfuseControl(0xFFFF_FFFF).disable_auto_read().is_auto_read_enabled());
    assert!(!EfuseControl(0).is_auto_read_enabled());
}

#[test]
fn pclk_force_on_switch() {
    assert_eq!(EfuseControl(0).enable_pclk_force_on().0, 0x0002_0000);
    assert_eq!(EfuseControl(0xFFFF_FFFF).disable_pclk_force_on().0, 0xFFFD_FFFF);
    assert!(EfuseControl(0).enable_pclk_force_on().is_pclk_force_on_enabled());
    assert!(!EfuseControl(0xFFFF_FFFF).disable_pclk_force_on().is_pclk_force_on_enabled());
}

#[test]
fn write_keeps_other_fields() {
    let c = EfuseControl(0x5A5A_5A5A);
    let d = c.set_prot_code_cyc(0x01);
    assert_eq!(d.if_0_int_set(), c.if_0_int_set());
    assert_eq!(d.if_0_int_occurs(), c.if_0_int_occurs());
    assert_eq!(d.cyc_modify_lock(), c.cyc_modify_lock());
    assert_eq!(d.is_auto_read_enabled(), c.is_auto_read_enabled());
    assert_eq!(d.is_pclk_force_on_enabled(), c.is_pclk_force_on_enabled());
    let e = c.enable_auto_read();
    assert_eq!(e.prot_code_cyc(), c.prot_code_cyc());
    assert_eq!(e.0 & !0x0004_0000, c.0 & !0x0004_0000);
}

#[test]
fn last_write_wins() {
    let c = EfuseControl(0x1234_5678);
    assert_eq!(c.set_prot_code_cyc(7).set_prot_code_cyc(9), c.set_prot_code_cyc(9));
    assert_eq!(c.set_if_0_int_set(1).set_if_0_int_set(0), c.set_if_0_int_set(0));
    assert_eq!(c.set_cyc_modify_lock(1).set_cyc_modify_lock(0), c.set_cyc_modify_lock(0));
    assert_eq!(c.enable_auto_read().disable_auto_read(), c.disable_auto_read());
    assert_eq!(c.disable_pclk_force_on().enable_pclk_force_on(), c.enable_pclk_force_on());
    assert_eq!(c.set_cyc_modify_lock(0xFF).set_cyc_modify_lock(0), c.set_cyc_modify_lock(0));
}

#[test]
fn write_back_read_value_changes_nothing() {
    let c = EfuseControl(0xDEAD_BEEF);
    assert_eq!(c.set_prot_code_cyc(c.prot_code_cyc()), c);
    assert_eq!(c.set_if_0_int_set(c.if_0_int_set()), c);
    assert_eq!(c.set_cyc_modify_lock(c.cyc_modify_lock()), c);
    let d = EfuseControl(0x0006_0000);
    assert_eq!(d.enable_auto_read(), d);
    assert_eq!(d.enable_pclk_force_on(), d);
}

#[test]
fn writes_to_different_fields_commute() {
    let c = EfuseControl(0x0F0F_0F0F);
    assert_eq!(
        c.set_prot_code_cyc(0x33).enable_auto_read(),
        c.enable_auto_read().set_prot_code_cyc(0x33)
    );
    assert_eq!(
        c.set_if_0_int_set(1).set_if_0_int_clr(1),
        c.set_if_0_int_clr(1).set_if_0_int_set(1)
    );
    assert_eq!(
        c.set_cyc_modify_lock(1).set_prot_code_cyc(0),
        c.set_prot_code_cyc(0).set_cyc_modify_lock(1)
    );
    assert_eq!(
        c.disable_pclk_force_on().set_cyc_modify_lock(0x7F),
        c.set_cyc_modify_lock(0x7F).disable_pclk_force_on()
    );
    assert_eq!(
        c.set_cyc_modify_lock(3).set_if_0_int_set(0),
        c.set_if_0_int_set(0).set_cyc_modify_lock(3)
    );
}
