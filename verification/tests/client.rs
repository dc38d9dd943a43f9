//! Register-access tests for each `Scdc` method group, against an in-memory
//! register array that can be told to fail after a number of operations.

use culvert::{
    FfeLevels, FrlConfig, FrlRate, LtpReq, ProtocolError, Scdc, ScdcBus, ScdcError,
    ScramblerStatus, StatusFlags, TmdsConfig, UpdateFlags,
};

struct TestTransport {
    regs: [u8; 256],
    ops_left: Option<usize>,
}

impl TestTransport {
    fn new() -> Self {
        Self { regs: [0u8; 256], ops_left: None }
    }

    fn failing_after(n: usize) -> Self {
        Self { regs: [0u8; 256], ops_left: Some(n) }
    }

    fn set(&mut self, addr: u8, val: u8) {
        self.regs[addr as usize] = val;
    }

    fn get(&self, addr: u8) -> u8 {
        self.regs[addr as usize]
    }

    fn tick(&mut self) -> Result<(), ()> {
        match self.ops_left {
            None => Ok(()),
            Some(0) => Err(()),
            Some(n) => {
                self.ops_left = Some(n - 1);
                Ok(())
            }
        }
    }
}

impl ScdcBus for TestTransport {
    type Error = ();

    fn read(&mut self, reg: u8) -> Result<u8, ()> {
        self.tick()?;
        Ok(self.regs[reg as usize])
    }

    fn write(&mut self, reg: u8, value: u8) -> Result<(), ()> {
        self.tick()?;
        self.regs[reg as usize] = value;
        Ok(())
    }
}

// ── version ───────────────────────────────────────────────────────────────────

#[test]
fn read_sink_version_returns_register_value() {
    let mut sim = TestTransport::new();
    sim.set(0x01, 0x01);
    assert_eq!(Scdc::new(sim).read_sink_version().unwrap(), 0x01);
}

#[test]
fn write_source_version_writes_register() {
    let mut scdc = Scdc::new(TestTransport::new());
    scdc.write_source_version(0x01).unwrap();
    assert_eq!(scdc.into_transport().get(0x02), 0x01);
}

#[test]
fn version_transport_error_propagates() {
    assert!(
        Scdc::new(TestTransport::failing_after(0))
            .read_sink_version()
            .is_err()
    );
    assert!(
        Scdc::new(TestTransport::failing_after(0))
            .write_source_version(1)
            .is_err()
    );
}

// ── scrambling ────────────────────────────────────────────────────────────────

#[test]
fn tmds_config_scrambling_only() {
    let mut scdc = Scdc::new(TestTransport::new());
    scdc.write_tmds_config(TmdsConfig {
        scrambling_enable: true,
        high_tmds_clock_ratio: false,
    })
    .unwrap();
    assert_eq!(scdc.into_transport().get(0x20), 0x01);
}

#[test]
fn tmds_config_clock_ratio_only() {
    let mut scdc = Scdc::new(TestTransport::new());
    scdc.write_tmds_config(TmdsConfig {
        scrambling_enable: false,
        high_tmds_clock_ratio: true,
    })
    .unwrap();
    assert_eq!(scdc.into_transport().get(0x20), 0x02);
}

#[test]
fn tmds_config_both_clear() {
    let mut scdc = Scdc::new(TestTransport::new());
    scdc.write_tmds_config(TmdsConfig {
        scrambling_enable: false,
        high_tmds_clock_ratio: false,
    })
    .unwrap();
    assert_eq!(scdc.into_transport().get(0x20), 0x00);
}

#[test]
fn scrambler_status_bit0_set() {
    let mut sim = TestTransport::new();
    sim.set(0x21, 0xFF); // all bits set; only bit 0 is defined
    assert_eq!(
        Scdc::new(sim).read_scrambler_status().unwrap(),
        ScramblerStatus::new(true)
    );
}

#[test]
fn scrambler_status_bit0_clear() {
    let mut sim = TestTransport::new();
    sim.set(0x21, 0xFE); // bit 0 clear, other bits set (reserved)
    assert_eq!(
        Scdc::new(sim).read_scrambler_status().unwrap(),
        ScramblerStatus::new(false)
    );
}

#[test]
fn scrambling_transport_error_propagates() {
    assert!(
        Scdc::new(TestTransport::failing_after(0))
            .write_tmds_config(TmdsConfig {
                scrambling_enable: false,
                high_tmds_clock_ratio: false
            })
            .is_err()
    );
    assert!(
        Scdc::new(TestTransport::failing_after(0))
            .read_scrambler_status()
            .is_err()
    );
}

// ── FRL ───────────────────────────────────────────────────────────────────────

#[test]
fn frl_config_rate_field() {
    let mut scdc = Scdc::new(TestTransport::new());
    scdc.write_frl_config(FrlConfig {
        frl_rate: FrlRate::Rate12Gbps4Lanes, // code 6
        dsc_frl_max: false,
        ffe_levels: FfeLevels::Ffe0,
    })
    .unwrap();
    assert_eq!(scdc.into_transport().get(0x30), 0x06);
}

#[test]
fn frl_config_dsc_frl_max_field() {
    let mut scdc = Scdc::new(TestTransport::new());
    scdc.write_frl_config(FrlConfig {
        frl_rate: FrlRate::NotSupported,
        dsc_frl_max: true,
        ffe_levels: FfeLevels::Ffe0,
    })
    .unwrap();
    assert_eq!(scdc.into_transport().get(0x30), 0x10);
}

#[test]
fn frl_config_ffe_levels_field() {
    let mut scdc = Scdc::new(TestTransport::new());
    scdc.write_frl_config(FrlConfig {
        frl_rate: FrlRate::NotSupported,
        dsc_frl_max: false,
        ffe_levels: FfeLevels::Ffe7, // 7 → bits[7:5] = 0b111 = 0xE0
    })
    .unwrap();
    assert_eq!(scdc.into_transport().get(0x30), 0xE0);
}

#[test]
fn status_flags_all_zero() {
    let mut scdc = Scdc::new(TestTransport::new());
    assert_eq!(
        scdc.read_status_flags().unwrap(),
        StatusFlags::new(
            false,
            false,
            false,
            false,
            false,
            false,
            false,
            false,
            LtpReq::NoRequest,
        )
    );
}

#[test]
fn status_flags_ltp_req_variants() {
    for (nibble, expected) in [
        (0u8, LtpReq::NoRequest),
        (1, LtpReq::Lfsr0),
        (2, LtpReq::Lfsr1),
        (3, LtpReq::Lfsr2),
        (4, LtpReq::Lfsr3),
    ] {
        let mut sim = TestTransport::new();
        sim.set(0x41, nibble << 4);
        assert_eq!(
            Scdc::new(sim).read_status_flags().unwrap().ltp_req,
            expected
        );
    }
}

#[test]
fn status_flags_unknown_ltp_req() {
    for nibble in 5u8..=15 {
        let mut sim = TestTransport::new();
        sim.set(0x41, nibble << 4);
        assert!(matches!(
            Scdc::new(sim).read_status_flags(),
            Err(ScdcError::Protocol(ProtocolError::UnknownLtpReq(n))) if n == nibble
        ));
    }
}

#[test]
fn status_flags_all_flags0_bits_set() {
    let mut sim = TestTransport::new();
    sim.set(0x40, 0x7F); // clock_detected | cable_connected | ch0–ch3_locked | flt_ready
    sim.set(0x41, 0x01); // frl_start
    let f = Scdc::new(sim).read_status_flags().unwrap();
    assert!(f.clock_detected && f.cable_connected);
    assert!(f.ch0_locked && f.ch1_locked && f.ch2_locked && f.ch3_locked);
    assert!(f.flt_ready && f.frl_start);
    assert_eq!(f.ltp_req, LtpReq::NoRequest);
}

#[test]
fn frl_transport_error_propagates() {
    assert!(
        Scdc::new(TestTransport::failing_after(0))
            .write_frl_config(FrlConfig {
                frl_rate: FrlRate::NotSupported,
                dsc_frl_max: false,
                ffe_levels: FfeLevels::Ffe0,
            })
            .is_err()
    );
    // First read of status flags fails.
    assert!(
        Scdc::new(TestTransport::failing_after(0))
            .read_status_flags()
            .is_err()
    );
    // Second read (Status_Flags_1) fails.
    assert!(
        Scdc::new(TestTransport::failing_after(1))
            .read_status_flags()
            .is_err()
    );
}

#[test]
fn frl_config_all_ffe_levels() {
    for (ffe, expected_bits) in [
        (FfeLevels::Ffe0, 0x00u8),
        (FfeLevels::Ffe1, 0x20),
        (FfeLevels::Ffe2, 0x40),
        (FfeLevels::Ffe3, 0x60),
        (FfeLevels::Ffe4, 0x80),
        (FfeLevels::Ffe5, 0xA0),
        (FfeLevels::Ffe6, 0xC0),
        (FfeLevels::Ffe7, 0xE0),
    ] {
        let mut scdc = Scdc::new(TestTransport::new());
        scdc.write_frl_config(FrlConfig {
            frl_rate: FrlRate::NotSupported,
            ffe_levels: ffe,
            dsc_frl_max: false,
        })
        .unwrap();
        assert_eq!(scdc.into_transport().get(0x30), expected_bits, "ffe={ffe:?}");
    }
}

#[test]
fn frl_config_rate_and_ffe_combined() {
    let mut scdc = Scdc::new(TestTransport::new());
    scdc.write_frl_config(FrlConfig {
        frl_rate: FrlRate::Rate12Gbps4Lanes,
        ffe_levels: FfeLevels::Ffe3,
        dsc_frl_max: false,
    })
    .unwrap();
    assert_eq!(scdc.into_transport().get(0x30), 0x06 | 0x60);
}

#[test]
fn frl_rate_codes() {
    assert_eq!(FrlRate::NotSupported.code(), 0);
    assert_eq!(FrlRate::Rate3Gbps3Lanes.code(), 1);
    assert_eq!(FrlRate::Rate6Gbps3Lanes.code(), 2);
    assert_eq!(FrlRate::Rate6Gbps4Lanes.code(), 3);
    assert_eq!(FrlRate::Rate8Gbps4Lanes.code(), 4);
    assert_eq!(FrlRate::Rate10Gbps4Lanes.code(), 5);
    assert_eq!(FrlRate::Rate12Gbps4Lanes.code(), 6);
    for code in 0u8..=6 {
        assert_eq!(FrlRate::from_code(code).map(|r| r.code()), Some(code));
    }
    assert_eq!(FrlRate::from_code(7), None);
    assert_eq!(FrlRate::from_code(0xFF), None);
}

#[test]
fn status_flags_reserved_bits_ignored() {
    let mut sim = TestTransport::new();
    sim.set(0x40, 0x80); // reserved bit 7 only
    sim.set(0x41, 0x0E); // reserved bits 1–3 only
    let f = Scdc::new(sim).read_status_flags().unwrap();
    assert_eq!(
        f,
        StatusFlags::new(false, false, false, false, false, false, false, false, LtpReq::NoRequest)
    );
}

// ── update flags ──────────────────────────────────────────────────────────────

#[test]
fn update_flags_each_bit() {
    for (u0, u1, expected) in [
        (0x01u8, 0x00u8, UpdateFlags::new(true, false, false, false)),
        (0x02, 0x00, UpdateFlags::new(false, true, false, false)),
        (0x04, 0x00, UpdateFlags::new(false, false, true, false)),
        (0x00, 0x01, UpdateFlags::new(false, false, false, true)),
        (0xF8, 0xFE, UpdateFlags::new(false, false, false, false)),
    ] {
        let mut sim = TestTransport::new();
        sim.set(0x10, u0);
        sim.set(0x11, u1);
        assert_eq!(Scdc::new(sim).read_update_flags().unwrap(), expected);
    }
}

#[test]
fn clear_update_flags_each_bit() {
    for (flags, e0, e1) in [
        (UpdateFlags::new(true, false, false, false), 0x01u8, 0x00u8),
        (UpdateFlags::new(false, true, false, false), 0x02, 0x00),
        (UpdateFlags::new(false, false, true, false), 0x04, 0x00),
        (UpdateFlags::new(false, false, false, true), 0x00, 0x01),
        (UpdateFlags::new(true, true, true, true), 0x07, 0x01),
    ] {
        let mut sim = TestTransport::new();
        sim.set(0x10, 0xAA);
        sim.set(0x11, 0xAA);
        let mut scdc = Scdc::new(sim);
        scdc.clear_update_flags(flags).unwrap();
        let t = scdc.into_transport();
        assert_eq!(t.get(0x10), e0);
        assert_eq!(t.get(0x11), e1);
    }
}

#[test]
fn clear_after_read_writes_back_set_bits() {
    let mut sim = TestTransport::new();
    sim.set(0x10, 0xFD); // status, frl and reserved bits
    sim.set(0x11, 0x03);
    let mut scdc = Scdc::new(sim);
    let flags = scdc.read_update_flags().unwrap();
    scdc.clear_update_flags(flags).unwrap();
    let t = scdc.into_transport();
    assert_eq!(t.get(0x10), 0xFD & 0x07);
    assert_eq!(t.get(0x11), 0x01);
}

#[test]
fn update_transport_error_propagates() {
    assert!(Scdc::new(TestTransport::failing_after(0)).read_update_flags().is_err());
    assert!(Scdc::new(TestTransport::failing_after(1)).read_update_flags().is_err());
    let flags = UpdateFlags::new(true, true, true, true);
    assert!(Scdc::new(TestTransport::failing_after(0)).clear_update_flags(flags).is_err());
    // The first write succeeds and the second fails.
    let mut scdc = Scdc::new(TestTransport::failing_after(1));
    assert!(matches!(scdc.clear_update_flags(flags), Err(ScdcError::Transport(()))));
    assert_eq!(scdc.into_transport().get(0x10), 0x07);
}

// ── CED ───────────────────────────────────────────────────────────────────────

#[test]
fn read_ced_lane0_valid() {
    let mut sim = TestTransport::new();
    sim.set(0x50, 0x23); // low byte
    sim.set(0x51, 0x81); // high byte: validity bit set, counter hi = 0x01
    let ced = Scdc::new(sim).read_ced().unwrap();
    assert_eq!(ced.lane0.map(|c| c.value()), Some(0x0123));
}

#[test]
fn read_ced_lane_invalid_when_validity_clear() {
    let mut sim = TestTransport::new();
    sim.set(0x50, 0xFF);
    sim.set(0x51, 0x7F); // validity bit clear
    let ced = Scdc::new(sim).read_ced().unwrap();
    assert_eq!(ced.lane0, None);
}

#[test]
fn read_ced_all_lanes_propagate() {
    let mut sim = TestTransport::new();
    for (base, val) in [(0x50u8, 1u8), (0x52, 2), (0x54, 3), (0x56, 4)] {
        sim.set(base, val);
        sim.set(base + 1, 0x80);
    }
    let ced = Scdc::new(sim).read_ced().unwrap();
    assert_eq!(ced.lane0.map(|c| c.value()), Some(1));
    assert_eq!(ced.lane1.map(|c| c.value()), Some(2));
    assert_eq!(ced.lane2.map(|c| c.value()), Some(3));
    assert_eq!(ced.lane3.map(|c| c.value()), Some(4));
}

#[test]
fn read_ced_transport_error() {
    for n in 0..8 {
        assert!(
            Scdc::new(TestTransport::failing_after(n)).read_ced().is_err(),
            "should fail when transport fails after {n} ops"
        );
    }
}

#[test]
fn read_ced_succeeds_after_eight_reads() {
    assert!(Scdc::new(TestTransport::failing_after(8)).read_ced().is_ok());
}
