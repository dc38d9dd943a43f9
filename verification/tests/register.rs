//! Tests of the register value types and their byte codecs.

use culvert::{
    CedCount, CedCounters, FfeLevels, FrlConfig, FrlRate, LtpReq, ProtocolError,
    ScramblerStatus, StatusFlags, TmdsConfig, UpdateFlags,
};

#[test]
fn ced_count_masks_validity_bit() {
    // The high byte's bit 7 (validity) must not bleed into the value.
    assert_eq!(CedCount::new(0xFFFF).value(), 0x7FFF);
    assert_eq!(CedCount::new(0x8000).value(), 0x0000);
}

#[test]
fn ced_count_preserves_15_bit_value() {
    assert_eq!(CedCount::new(0x0000).value(), 0x0000);
    assert_eq!(CedCount::new(0x0001).value(), 0x0001);
    assert_eq!(CedCount::new(0x7FFF).value(), 0x7FFF);
}

fn status_flags_all_false() -> StatusFlags {
    StatusFlags::new(
        false,
        false,
        false,
        false,
        false,
        false,
        false,
        false,
        LtpReq::NoRequest,
    )
}

#[test]
fn status_flags_new_field_order() {
    assert!(StatusFlags::new(true, false, false, false, false, false, false, false, LtpReq::NoRequest).clock_detected);
    assert!(StatusFlags::new(false, true, false, false, false, false, false, false, LtpReq::NoRequest).cable_connected);
    assert!(StatusFlags::new(false, false, true, false, false, false, false, false, LtpReq::NoRequest).ch0_locked);
    assert!(StatusFlags::new(false, false, false, true, false, false, false, false, LtpReq::NoRequest).ch1_locked);
    assert!(StatusFlags::new(false, false, false, false, true, false, false, false, LtpReq::NoRequest).ch2_locked);
    assert!(StatusFlags::new(false, false, false, false, false, true, false, false, LtpReq::NoRequest).ch3_locked);
    assert!(StatusFlags::new(false, false, false, false, false, false, true, false, LtpReq::NoRequest).flt_ready);
    assert!(StatusFlags::new(false, false, false, false, false, false, false, true, LtpReq::NoRequest).frl_start);
    assert_eq!(status_flags_all_false().ltp_req, LtpReq::NoRequest);
    assert_eq!(
        StatusFlags::new(false, false, false, false, false, false, false, false, LtpReq::Lfsr2).ltp_req,
        LtpReq::Lfsr2
    );
}

#[test]
fn ced_counters_new_field_order() {
    let a = CedCount::new(1);
    let b = CedCount::new(2);
    let c = CedCount::new(3);
    let d = CedCount::new(4);
    let counters = CedCounters::new(Some(a), Some(b), Some(c), Some(d));
    assert_eq!(counters.lane0.unwrap().value(), 1);
    assert_eq!(counters.lane1.unwrap().value(), 2);
    assert_eq!(counters.lane2.unwrap().value(), 3);
    assert_eq!(counters.lane3.unwrap().value(), 4);
}

#[test]
fn ced_counters_new_lane3_none() {
    let counters = CedCounters::new(
        Some(CedCount::new(0)),
        Some(CedCount::new(0)),
        Some(CedCount::new(0)),
        None,
    );
    assert!(counters.lane3.is_none());
}

#[test]
fn scrambler_status_new() {
    assert!(ScramblerStatus::new(true).scrambling_active);
    assert!(!ScramblerStatus::new(false).scrambling_active);
}

#[test]
fn update_flags_new_field_order() {
    // Verify each parameter maps to the correct named field.
    let f = UpdateFlags::new(true, false, false, false);
    assert!(f.status_update);
    assert!(!f.ced_update && !f.frl_update && !f.dsc_update);

    let f = UpdateFlags::new(false, true, false, false);
    assert!(f.ced_update);
    assert!(!f.status_update && !f.frl_update && !f.dsc_update);

    let f = UpdateFlags::new(false, false, true, false);
    assert!(f.frl_update);
    assert!(!f.status_update && !f.ced_update && !f.dsc_update);

    let f = UpdateFlags::new(false, false, false, true);
    assert!(f.dsc_update);
    assert!(!f.status_update && !f.ced_update && !f.frl_update);
}

// ── codecs ────────────────────────────────────────────────────────────────────

#[test]
fn ced_count_from_err_det_pairs() {
    assert_eq!(CedCount::from_err_det(0x34, 0x81).map(|c| c.value()), Some(0x0134));
    assert_eq!(CedCount::from_err_det(0xFF, 0xFF).map(|c| c.value()), Some(0x7FFF));
    assert_eq!(CedCount::from_err_det(0x00, 0x80).map(|c| c.value()), Some(0x0000));
    assert_eq!(CedCount::from_err_det(0xFF, 0x7F), None);
    assert_eq!(CedCount::from_err_det(0x00, 0x00), None);
}

#[test]
fn status_flags_from_registers_decodes_each_bit() {
    let f = StatusFlags::from_registers(0x55, 0x21).unwrap();
    assert_eq!(
        f,
        StatusFlags::new(true, false, true, false, true, false, true, true, LtpReq::Lfsr1)
    );
    let f = StatusFlags::from_registers(0x2A, 0x40).unwrap();
    assert_eq!(
        f,
        StatusFlags::new(false, true, false, true, false, true, false, false, LtpReq::Lfsr3)
    );
}

#[test]
fn status_flags_from_registers_unknown_ltp_req_keeps_nibble() {
    assert!(matches!(
        StatusFlags::from_registers(0x00, 0xF0),
        Err(ProtocolError::UnknownLtpReq(15))
    ));
    assert!(matches!(
        StatusFlags::from_registers(0x7F, 0x51),
        Err(ProtocolError::UnknownLtpReq(5))
    ));
}

#[test]
fn scrambler_status_from_byte_reads_bit0_only() {
    assert_eq!(ScramblerStatus::from_byte(0x01), ScramblerStatus::new(true));
    assert_eq!(ScramblerStatus::from_byte(0xFE), ScramblerStatus::new(false));
}

#[test]
fn tmds_config_to_byte_values() {
    let cfg = |s, r| TmdsConfig { scrambling_enable: s, high_tmds_clock_ratio: r };
    assert_eq!(cfg(false, false).to_byte(), 0x00);
    assert_eq!(cfg(true, false).to_byte(), 0x01);
    assert_eq!(cfg(false, true).to_byte(), 0x02);
    assert_eq!(cfg(true, true).to_byte(), 0x03);
}

#[test]
fn frl_config_to_byte_values() {
    let byte = FrlConfig {
        frl_rate: FrlRate::Rate10Gbps4Lanes,
        dsc_frl_max: true,
        ffe_levels: FfeLevels::Ffe5,
    }
    .to_byte();
    assert_eq!(byte, 0x05 | 0x10 | 0xA0);
    // Each field can be read back from its own bits.
    assert_eq!(byte & 0x0F, FrlRate::Rate10Gbps4Lanes.code());
    assert_eq!((byte >> 4) & 1, 1);
    assert_eq!(byte >> 5, FfeLevels::Ffe5.code());
}

#[test]
fn update_flags_clear_bytes_round_trip() {
    for s in [false, true] {
        for c in [false, true] {
            for f in [false, true] {
                for d in [false, true] {
                    let flags = UpdateFlags::new(s, c, f, d);
                    let (b0, b1) = flags.clear_bytes();
                    assert_eq!(UpdateFlags::from_registers(b0, b1), flags);
                }
            }
        }
    }
}

#[test]
fn update_flags_clear_after_read_keeps_defined_bits() {
    let read = UpdateFlags::from_registers(0xFF, 0xFF);
    assert_eq!(read.clear_bytes(), (0x07, 0x01));
    let read = UpdateFlags::from_registers(0xFA, 0xFE);
    assert_eq!(read.clear_bytes(), (0x02, 0x00));
}

#[test]
fn ltp_req_codes_round_trip() {
    for (req, code) in [
        (LtpReq::NoRequest, 0u8),
        (LtpReq::Lfsr0, 1),
        (LtpReq::Lfsr1, 2),
        (LtpReq::Lfsr2, 3),
        (LtpReq::Lfsr3, 4),
    ] {
        assert_eq!(req.code(), code);
        let f = StatusFlags::from_registers(0, code << 4).unwrap();
        assert_eq!(f.ltp_req, req);
    }
}

#[test]
fn ffe_levels_codes() {
    for (ffe, code) in [(FfeLevels::Ffe0, 0u8), (FfeLevels::Ffe1, 1), (FfeLevels::Ffe2, 2), (FfeLevels::Ffe3, 3), (FfeLevels::Ffe4, 4), (FfeLevels::Ffe5, 5), (FfeLevels::Ffe6, 6), (FfeLevels::Ffe7, 7)] {
        assert_eq!(ffe.code(), code);
    }
}

#[test]
fn status_flags_every_register_pair() {
    for flags0 in 0u8..=255 {
        for flags1 in 0u8..=255 {
            let nibble = flags1 >> 4;
            let bit = |b: u8, i: u8| (b >> i) & 1 == 1;
            match StatusFlags::from_registers(flags0, flags1) {
                Ok(f) => {
                    assert!(nibble <= 4);
                    assert_eq!(f.ltp_req.code(), nibble);
                    assert_eq!(
                        [f.clock_detected, f.cable_connected, f.ch0_locked, f.ch1_locked,
                         f.ch2_locked, f.ch3_locked, f.flt_ready],
                        [bit(flags0, 0), bit(flags0, 1), bit(flags0, 2), bit(flags0, 3),
                         bit(flags0, 4), bit(flags0, 5), bit(flags0, 6)]
                    );
                    assert_eq!(f.frl_start, bit(flags1, 0));
                }
                Err(ProtocolError::UnknownLtpReq(n)) => {
                    assert!(nibble > 4);
                    assert_eq!(n, nibble);
                }
                Err(other) => panic!("unexpected error {other:?}"),
            }
        }
    }
}

#[test]
fn ced_count_every_register_pair() {
    for low in 0u8..=255 {
        for high in 0u8..=255 {
            let lane = CedCount::from_err_det(low, high).map(|c| c.value());
            if high & 0x80 != 0 {
                assert_eq!(lane, Some((((high & 0x7F) as u16) << 8) | low as u16));
            } else {
                assert_eq!(lane, None);
            }
        }
    }
}
