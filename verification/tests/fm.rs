use synth_core::chip::ParamValue;
use synth_core::fm::RegWrite;
use synth_core::ym2151::Ym2151Regs;
use synth_core::ym2612::Ym2612Regs;
use synth_core::ym3812::{opl2_op_offsets, Ym3812Regs};
use synth_core::ymf262::Ymf262Regs;

fn w(port: u8, addr: u8, data: u8) -> RegWrite {
    RegWrite { port, addr, data }
}

fn val(b: u8) -> ParamValue {
    ParamValue { byte: b, word: b as u16, on: b != 0 }
}

#[test]
fn ym2612_init_loads_channel_zero_then_keys_off() {
    let r = Ym2612Regs::new();
    let writes = r.init_writes();
    assert_eq!(writes.len(), 2 + 4 * 6 + 6);
    assert_eq!(writes[0], w(0, 0xB0, 0));
    assert_eq!(writes[1], w(0, 0xB4, 0xC0));
    assert_eq!(writes[2], w(0, 0x30, 0x01)); // DT 0, MUL 1
    assert_eq!(writes[3], w(0, 0x40, 40));
    assert_eq!(writes[4], w(0, 0x50, 31));
    assert_eq!(writes[7], w(0, 0x80, 0x07)); // SL 0, RR 7
    // the carrier (operator 4) sits at register offset 12
    assert_eq!(writes[2 + 18 + 1], w(0, 0x4C, 0));
    let key_offs: Vec<u8> = writes[26..].iter().map(|x| x.data).collect();
    assert!(writes[26..].iter().all(|x| x.addr == 0x28));
    assert_eq!(key_offs, vec![0, 1, 2, 4, 5, 6]);
}

#[test]
fn ym2612_params_clamp_and_write() {
    let mut r = Ym2612Regs::new();
    assert_eq!(r.set_param(0, val(9)), vec![w(0, 0xB0, 7)]);
    assert_eq!(r.get_param(0), 7);
    assert_eq!(r.set_param(1, val(5)), vec![w(0, 0xB0, (5 << 3) | 7)]);
    assert_eq!(r.get_param(1), 5);
    r.set_param(300, val(200)); // operator 3 total level, capped at 127
    assert_eq!(r.get_param(300), 127);
    assert_eq!(r.get_param(9999), 0);
}

#[test]
fn ym2612_voice_on_second_bank() {
    let mut r = Ym2612Regs::new();
    let writes = r.voice_on(4, 60, 100, 0x284, 4);
    assert_eq!(writes.len(), 2 + 24 + 4);
    // voice 4 is channel 1 of port 1
    assert_eq!(writes[0], w(1, 0xA5, (4 << 3) | 0x02));
    assert_eq!(writes[1], w(1, 0xA1, 0x84));
    assert_eq!(writes[26], w(1, 0xB1, 0));
    assert_eq!(writes[27], w(1, 0xB5, 0xC0));
    // carrier level: the smaller of 127 - velocity and the patch level (0)
    assert_eq!(writes[28], w(1, 0x4D, 0));
    assert_eq!(writes[29], w(0, 0x28, 0xF4));
    assert_eq!(r.active_notes[4], Some(60));
    assert_eq!(r.voice_off(4), vec![w(0, 0x28, 4)]);
    assert_eq!(r.active_notes[4], None);
    assert_eq!(r.voice_on(6, 60, 100, 0x284, 4), vec![]);
}

#[test]
fn ym2612_velocity_limits_carrier_level() {
    let mut r = Ym2612Regs::new();
    r.set_param(400, val(100)); // carrier total level 100
    let writes = r.voice_on(0, 60, 120, 0x284, 4);
    assert_eq!(writes[28], w(0, 0x4C, 7)); // 127 - 120
    let writes = r.voice_on(0, 60, 10, 0x284, 4);
    assert_eq!(writes[28], w(0, 0x4C, 100)); // the patch level is lower
}

#[test]
fn ym2151_voice_on_loads_patch_and_keys_all_operators() {
    let mut r = Ym2151Regs::new();
    let writes = r.voice_on(3, 69, 127, 0x4A, 0);
    assert_eq!(writes.len(), 4 * 6 + 1 + 4);
    assert_eq!(writes[24], w(0, 0x23, 0xC0));
    assert_eq!(writes[25], w(0, 0x2B, 0x4A));
    assert_eq!(writes[26], w(0, 0x33, 0));
    assert_eq!(writes[27], w(0, 0x60 + 3 + 24, 0));
    assert_eq!(writes[28], w(0, 0x08, 0x78 | 3));
    assert_eq!(r.voice_off(3), vec![w(0, 0x08, 3)]);
    assert_eq!(r.voice_on(8, 69, 127, 0x4A, 0), vec![]);
}

#[test]
fn ym2151_init_loads_channel_zero() {
    let r = Ym2151Regs::new();
    let writes = r.init_writes();
    assert_eq!(writes, r.channel_writes(0));
    assert_eq!(writes.len(), 25);
    assert_eq!(writes[24], w(0, 0x20, 0xC0));
}

#[test]
fn opl2_operator_offsets() {
    assert_eq!(opl2_op_offsets(0), [0, 3]);
    assert_eq!(opl2_op_offsets(2), [2, 5]);
    assert_eq!(opl2_op_offsets(3), [8, 11]);
    assert_eq!(opl2_op_offsets(5), [10, 13]);
    assert_eq!(opl2_op_offsets(6), [16, 19]);
    assert_eq!(opl2_op_offsets(8), [18, 21]);
}

#[test]
fn ym3812_voice_on_sets_key_bit_last() {
    let mut r = Ym3812Regs::new();
    let writes = r.voice_on(4, 60, 0x244, 4);
    assert_eq!(writes.len(), 2 * 4 + 1 + 3);
    assert_eq!(writes[0], w(0, 0x20 + 9, 1));
    assert_eq!(writes[8], w(0, 0xC4, 0));
    assert_eq!(writes[9], w(0, 0xB4, (4 << 2) | 2));
    assert_eq!(writes[10], w(0, 0xA4, 0x44));
    assert_eq!(writes[11], w(0, 0xB4, 0x20 | (4 << 2) | 2));
    assert_eq!(r.voice_on(9, 60, 0x244, 4), vec![]);
}

#[test]
fn ymf262_second_port_channels() {
    let mut r = Ymf262Regs::new();
    let init = r.init_writes();
    assert_eq!(init[0], w(1, 0x05, 0x01)); // OPL3 mode first
    let writes = r.voice_on(10, 60, 0x244, 4);
    assert!(writes.iter().all(|x| x.port == 1));
    assert_eq!(r.voice_on(18, 60, 0x244, 4), vec![]);
}
