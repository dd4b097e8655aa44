use tifflin_modules::video_vga::crtc::CrtcRegs;

#[test]
fn crtc_plain_registers() {
    let mut c = CrtcRegs::from_values([0u8; 0x20]);
    c.set_h_total(0x5F);
    c.set_h_disp_end(0x4F);
    c.set_h_blank_start(0x50);
    let v = c.values();
    assert_eq!(v[0], 0x5F);
    assert_eq!(v[1], 0x4F);
    assert_eq!(v[2], 0x50);
}

#[test]
fn crtc_split_horizontal_fields() {
    let mut c = CrtcRegs::from_values([0xFFu8; 0x20]);
    c.set_h_blank_len(0x02);
    assert_eq!(c.values()[3], 0xE2);
    assert_eq!(c.values()[5], 0x7F);
    c.set_h_blank_len(0x22);
    assert_eq!(c.values()[5], 0xFF);
    c.set_h_sync_start(0x154);
    assert_eq!(c.values()[4], 0x54);
    assert_eq!(c.values()[0x1A], 0xFF);
    c.set_h_sync_start(0x054);
    assert_eq!(c.values()[0x1A], 0xEF);
    c.set_h_sync_end(0x00);
    assert_eq!(c.values()[5], 0xE0);
    c.set_h_sync_end(0x15);
    assert_eq!(c.values()[5], 0xF5);
}

#[test]
fn crtc_split_vertical_fields() {
    let mut c = CrtcRegs::from_values([0u8; 0x20]);
    c.set_v_total(0x20D);
    assert_eq!(c.values()[6], 0x0D);
    assert_eq!(c.values()[7], 0x20);
    c.set_v_disp_end(0x1DF);
    assert_eq!(c.values()[0x12], 0xDF);
    assert_eq!(c.values()[7], 0x22);
    c.set_v_sync_start(0x3EA);
    assert_eq!(c.values()[0x10], 0xEA);
    assert_eq!(c.values()[7], 0xA6);
    c.set_v_blank_start(0x1E7);
    assert_eq!(c.values()[0x15], 0xE7);
    assert_eq!(c.values()[7], 0xAE);
    assert_eq!(c.values()[9], 0x00);
    c.set_line_compare(0x3FE);
    assert_eq!(c.values()[0x18], 0xFE);
    assert_eq!(c.values()[7], 0xBE);
    assert_eq!(c.values()[9], 0x40);
    c.set_v_blank_end(0x306);
    assert_eq!(c.values()[0x16], 0x06);
    assert_eq!(c.values()[0x1A], 0xC0);
    c.set_v_sync_end(0xC);
    assert_eq!(c.values()[0x11], 0x0C);
}

#[test]
fn crtc_offset_pan_and_start() {
    let mut c = CrtcRegs::from_values([0u8; 0x20]);
    c.set_offset(0x150);
    assert_eq!(c.values()[0x13], 0x50);
    assert_eq!(c.values()[0x1B], 0x10);
    c.set_byte_pan(0x7);
    assert_eq!(c.values()[8], 0x60);
    c.set_screen_start(0x1234);
    assert_eq!(c.values()[0xC], 0x12);
    assert_eq!(c.values()[0xD], 0x34);
}
