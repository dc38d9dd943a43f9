//! Typed SCDC register map: bitfield structs, typed values and their byte layouts.
//!
//! Every register the client touches has a typed value here together with the
//! function that encodes it into, or decodes it from, the raw register byte(s).
//! The byte layouts are stated as spec functions; the executable codecs are
//! proved to follow them.
use vstd::prelude::*;

use crate::bits::{bit, flag, lemma_mask_tests_bit};
use crate::error::ProtocolError;

verus! {

/// FRL rate tier requested through `Config_0` bits\[3:0\].
///
/// The tiers are those of the HDMI Forum `Max_FRL_Rate` field; [`FrlRate::code`] gives
/// the 4-bit field value of each. Use [`FrlRate::NotSupported`] to clear FRL mode.
#[non_exhaustive]
#[derive(Debug, Clone, Copy, PartialEq, Eq, Structural)]
pub enum FrlRate {
    /// FRL not supported; TMDS only.
    NotSupported,
    /// Up to 3 Gbps/lane on 3 lanes.
    Rate3Gbps3Lanes,
    /// Up to 6 Gbps/lane on 3 lanes.
    Rate6Gbps3Lanes,
    /// Up to 6 Gbps/lane on 4 lanes.
    Rate6Gbps4Lanes,
    /// Up to 8 Gbps/lane on 4 lanes.
    Rate8Gbps4Lanes,
    /// Up to 10 Gbps/lane on 4 lanes.
    Rate10Gbps4Lanes,
    /// Up to 12 Gbps/lane on 4 lanes.
    Rate12Gbps4Lanes,
}

impl FrlRate {
    /// The `FRL_Rate` field value of this tier.
    pub open spec fn spec_code(self) -> u8 {
        match self {
            FrlRate::NotSupported => 0,
            FrlRate::Rate3Gbps3Lanes => 1,
            FrlRate::Rate6Gbps3Lanes => 2,
            FrlRate::Rate6Gbps4Lanes => 3,
            FrlRate::Rate8Gbps4Lanes => 4,
            FrlRate::Rate10Gbps4Lanes => 5,
            FrlRate::Rate12Gbps4Lanes => 6,
        }
    }

    /// The tier whose `FRL_Rate` field value is `code`; `None` for the values 7 to 255,
    /// which no tier has.
    pub fn from_code(code: u8) -> (r: Option<FrlRate>)
        ensures
            r matches Some(rate) ==> rate.spec_code() == code,
            r is None <==> code > 6,
    {
        match code {
            0 => Some(FrlRate::NotSupported),
            1 => Some(FrlRate::Rate3Gbps3Lanes),
            2 => Some(FrlRate::Rate6Gbps3Lanes),
            3 => Some(FrlRate::Rate6Gbps4Lanes),
            4 => Some(FrlRate::Rate8Gbps4Lanes),
            5 => Some(FrlRate::Rate10Gbps4Lanes),
            6 => Some(FrlRate::Rate12Gbps4Lanes),
            _ => None,
        }
    }

    /// Returns the `FRL_Rate` field value of this tier (0 for `NotSupported` up to 6).
    pub fn code(self) -> (r: u8)
        ensures
            r == self.spec_code(),
            r <= 6,
    {
        match self {
            FrlRate::NotSupported => 0,
            FrlRate::Rate3Gbps3Lanes => 1,
            FrlRate::Rate6Gbps3Lanes => 2,
            FrlRate::Rate6Gbps4Lanes => 3,
            FrlRate::Rate8Gbps4Lanes => 4,
            FrlRate::Rate10Gbps4Lanes => 5,
            FrlRate::Rate12Gbps4Lanes => 6,
        }
    }
}

/// Configuration written to `TMDS_Config` (0x20).
#[derive(Debug, Clone, Copy, PartialEq, Eq, Structural)]
pub struct TmdsConfig {
    /// Enable TMDS scrambling.
    pub scrambling_enable: bool,
    /// TMDS bit clock ratio: `false` = divide by 10, `true` = divide by 40.
    pub high_tmds_clock_ratio: bool,
}

impl TmdsConfig {
    /// The `TMDS_Config` byte: `Scrambling_Enable` in bit 0, `TMDS_Bit_Clock_Ratio` in bit 1,
    /// all other bits clear.
    pub open spec fn spec_byte(self) -> u8 {
        (flag(self.scrambling_enable) + 2 * flag(self.high_tmds_clock_ratio)) as u8
    }

    /// Encodes this configuration as the `TMDS_Config` register byte.
    pub fn to_byte(self) -> (r: u8)
        ensures
            r == self.spec_byte(),
    {
        let enable: u8 = if self.scrambling_enable { 1 } else { 0 };
        let ratio: u8 = if self.high_tmds_clock_ratio { 1 } else { 0 };
        assert(enable | (ratio << 1u8) == enable + 2 * ratio) by (bit_vector)
            requires
                enable <= 1,
                ratio <= 1,
        ;
        enable | (ratio << 1u8)
    }
}

/// Decoded content of `Scrambler_Status` (0x21).
#[non_exhaustive]
#[derive(Debug, Clone, Copy, PartialEq, Eq, Structural)]
pub struct ScramblerStatus {
    /// The sink confirms that TMDS scrambling is active.
    pub scrambling_active: bool,
}

impl ScramblerStatus {
    /// Constructs a `ScramblerStatus`.
    pub fn new(scrambling_active: bool) -> (r: Self)
        ensures
            r.scrambling_active == scrambling_active,
    {
        Self { scrambling_active }
    }

    /// The status a `Scrambler_Status` byte reports: bit 0 is `Scrambling_Status`;
    /// the other bits are reserved.
    pub open spec fn decoded(byte: u8) -> ScramblerStatus {
        ScramblerStatus { scrambling_active: bit(byte, 0) }
    }

    /// Decodes a `Scrambler_Status` register byte.
    pub fn from_byte(byte: u8) -> (r: Self)
        ensures
            r == Self::decoded(byte),
    {
        proof {
            lemma_mask_tests_bit(byte);
        }
        ScramblerStatus { scrambling_active: byte & 0x01 != 0 }
    }
}

/// FFE (Feed-Forward Equalization) level count written into `Config_0` bits\[7:5\].
#[derive(Debug, Clone, Copy, PartialEq, Eq, Structural)]
pub enum FfeLevels {
    /// No FFE levels.
    Ffe0,
    /// 1 FFE level.
    Ffe1,
    /// 2 FFE levels.
    Ffe2,
    /// 3 FFE levels.
    Ffe3,
    /// 4 FFE levels.
    Ffe4,
    /// 5 FFE levels.
    Ffe5,
    /// 6 FFE levels.
    Ffe6,
    /// 7 FFE levels.
    Ffe7,
}

impl FfeLevels {
    /// The number of FFE levels, which is also the `FFE_Levels` field value.
    pub open spec fn spec_code(self) -> u8 {
        match self {
            FfeLevels::Ffe0 => 0,
            FfeLevels::Ffe1 => 1,
            FfeLevels::Ffe2 => 2,
            FfeLevels::Ffe3 => 3,
            FfeLevels::Ffe4 => 4,
            FfeLevels::Ffe5 => 5,
            FfeLevels::Ffe6 => 6,
            FfeLevels::Ffe7 => 7,
        }
    }

    /// Returns the number of FFE levels (the `FFE_Levels` field value, 0 to 7).
    pub fn code(self) -> (r: u8)
        ensures
            r == self.spec_code(),
            r <= 7,
    {
        match self {
            FfeLevels::Ffe0 => 0,
            FfeLevels::Ffe1 => 1,
            FfeLevels::Ffe2 => 2,
            FfeLevels::Ffe3 => 3,
            FfeLevels::Ffe4 => 4,
            FfeLevels::Ffe5 => 5,
            FfeLevels::Ffe6 => 6,
            FfeLevels::Ffe7 => 7,
        }
    }
}

/// Configuration written to `Config_0` (0x30).
#[derive(Debug, Clone, Copy, PartialEq, Eq, Structural)]
pub struct FrlConfig {
    /// FRL rate to request. Use [`FrlRate::NotSupported`] to clear FRL mode.
    pub frl_rate: FrlRate,
    /// Request DSC at the maximum supported FRL rate (`DSC_FRL_Max`).
    pub dsc_frl_max: bool,
    /// Number of FFE levels to advertise to the sink.
    pub ffe_levels: FfeLevels,
}

impl FrlConfig {
    /// The `Config_0` byte: `FRL_Rate` in bits\[3:0\], `DSC_FRL_Max` in bit 4 and
    /// `FFE_Levels` in bits\[7:5\].
    pub open spec fn spec_byte(self) -> u8 {
        (self.frl_rate.spec_code() + 16 * flag(self.dsc_frl_max) + 32
            * self.ffe_levels.spec_code()) as u8
    }

    /// Encodes this configuration as the `Config_0` register byte.
    pub fn to_byte(self) -> (r: u8)
        ensures
            r == self.spec_byte(),
    {
        let rate = self.frl_rate.code();
        let dsc: u8 = if self.dsc_frl_max { 1 } else { 0 };
        let ffe = self.ffe_levels.code();
        assert(rate | (dsc << 4u8) | (ffe << 5u8) == rate + 16 * dsc + 32 * ffe) by (bit_vector)
            requires
                rate <= 6,
                dsc <= 1,
                ffe <= 7,
        ;
        rate | (dsc << 4u8) | (ffe << 5u8)
    }
}

/// Link Training Pattern requested by the sink via `Status_Flags_1` bits\[7:4\].
///
/// An undefined nibble value from the sink surfaces as
/// [`ProtocolError::UnknownLtpReq`](crate::ProtocolError::UnknownLtpReq).
#[non_exhaustive]
#[derive(Debug, Clone, Copy, PartialEq, Eq, Structural)]
pub enum LtpReq {
    /// No LTP requested; training is complete or not yet started.
    NoRequest,
    /// Request LFSR0 training pattern on all active lanes.
    Lfsr0,
    /// Request LFSR1 training pattern on all active lanes.
    Lfsr1,
    /// Request LFSR2 training pattern on all active lanes.
    Lfsr2,
    /// Request LFSR3 training pattern on all active lanes.
    Lfsr3,
}

impl LtpReq {
    /// The `LTP_Req` field value of this request.
    pub open spec fn spec_code(self) -> u8 {
        match self {
            LtpReq::NoRequest => 0,
            LtpReq::Lfsr0 => 1,
            LtpReq::Lfsr1 => 2,
            LtpReq::Lfsr2 => 3,
            LtpReq::Lfsr3 => 4,
        }
    }

    /// The request an `LTP_Req` field value stands for; `None` for the undefined values 5 to 15.
    pub open spec fn from_code(nibble: u8) -> Option<LtpReq> {
        if nibble == 0 {
            Some(LtpReq::NoRequest)
        } else if nibble == 1 {
            Some(LtpReq::Lfsr0)
        } else if nibble == 2 {
            Some(LtpReq::Lfsr1)
        } else if nibble == 3 {
            Some(LtpReq::Lfsr2)
        } else if nibble == 4 {
            Some(LtpReq::Lfsr3)
        } else {
            Option::None
        }
    }

    /// Returns the `LTP_Req` field value of this request (0 to 4).
    pub fn code(self) -> (r: u8)
        ensures
            r == self.spec_code(),
            r <= 4,
    {
        match self {
            LtpReq::NoRequest => 0,
            LtpReq::Lfsr0 => 1,
            LtpReq::Lfsr1 => 2,
            LtpReq::Lfsr2 => 3,
            LtpReq::Lfsr3 => 4,
        }
    }
}

/// Decoded content of `Status_Flags_0` (0x40) and `Status_Flags_1` (0x41).
#[non_exhaustive]
#[derive(Debug, Clone, Copy, PartialEq, Eq, Structural)]
pub struct StatusFlags {
    /// A TMDS or FRL clock signal is detected on the cable.
    pub clock_detected: bool,
    /// A cable is detected on the HDMI connector.
    pub cable_connected: bool,
    /// Lane 0 has achieved symbol lock.
    pub ch0_locked: bool,
    /// Lane 1 has achieved symbol lock.
    pub ch1_locked: bool,
    /// Lane 2 has achieved symbol lock.
    pub ch2_locked: bool,
    /// Lane 3 has achieved symbol lock (FRL 4-lane only).
    pub ch3_locked: bool,
    /// The sink is ready to begin FRL link training (`FLT_Ready`).
    pub flt_ready: bool,
    /// The sink signals that FRL training may begin (`FRL_Start`).
    pub frl_start: bool,
    /// The link training pattern currently requested by the sink.
    pub ltp_req: LtpReq,
}

impl StatusFlags {
    /// Constructs a `StatusFlags`.
    #[allow(clippy::too_many_arguments)]
    pub fn new(
        clock_detected: bool,
        cable_connected: bool,
        ch0_locked: bool,
        ch1_locked: bool,
        ch2_locked: bool,
        ch3_locked: bool,
        flt_ready: bool,
        frl_start: bool,
        ltp_req: LtpReq,
    ) -> (r: Self)
        ensures
            r.clock_detected == clock_detected,
            r.cable_connected == cable_connected,
            r.ch0_locked == ch0_locked,
            r.ch1_locked == ch1_locked,
            r.ch2_locked == ch2_locked,
            r.ch3_locked == ch3_locked,
            r.flt_ready == flt_ready,
            r.frl_start == frl_start,
            r.ltp_req == ltp_req,
    {
        Self {
            clock_detected,
            cable_connected,
            ch0_locked,
            ch1_locked,
            ch2_locked,
            ch3_locked,
            flt_ready,
            frl_start,
            ltp_req,
        }
    }

    /// What the register pair reports. `Status_Flags_0`: bit 0 `Clock_Detected`,
    /// bit 1 `Cable_Connected`, bits 2 to 5 `Ch0_Locked` to `Ch3_Locked`, bit 6 `FLT_Ready`.
    /// `Status_Flags_1`: bit 0 `FRL_Start`, bits\[7:4\] `LTP_Req`. An `LTP_Req` value
    /// outside 0 to 4 is a protocol violation that carries the raw nibble.
    pub open spec fn decoded(flags0: u8, flags1: u8) -> Result<StatusFlags, ProtocolError> {
        let nibble = flags1 >> 4u8;
        match LtpReq::from_code(nibble) {
            Some(ltp_req) => Ok(
                StatusFlags {
                    clock_detected: bit(flags0, 0),
                    cable_connected: bit(flags0, 1),
                    ch0_locked: bit(flags0, 2),
                    ch1_locked: bit(flags0, 3),
                    ch2_locked: bit(flags0, 4),
                    ch3_locked: bit(flags0, 5),
                    flt_ready: bit(flags0, 6),
                    frl_start: bit(flags1, 0),
                    ltp_req,
                },
            ),
            Option::None => Err(ProtocolError::UnknownLtpReq(nibble)),
        }
    }

    /// Decodes `Status_Flags_0` and `Status_Flags_1` into one `StatusFlags`.
    ///
    /// Fails with [`ProtocolError::UnknownLtpReq`] carrying the raw nibble exactly
    /// when `LTP_Req` (bits\[7:4\] of `flags1`) is above 4.
    pub fn from_registers(flags0: u8, flags1: u8) -> (r: Result<StatusFlags, ProtocolError>)
        ensures
            r == Self::decoded(flags0, flags1),
            r is Err <==> flags1 >> 4u8 > 4,
    {
        let nibble = (flags1 >> 4u8) & 0x0F;
        assert((flags1 >> 4u8) & 0x0Fu8 == flags1 >> 4u8) by (bit_vector);
        let ltp_req = match nibble {
            0 => LtpReq::NoRequest,
            1 => LtpReq::Lfsr0,
            2 => LtpReq::Lfsr1,
            3 => LtpReq::Lfsr2,
            4 => LtpReq::Lfsr3,
            raw => {
                return Err(ProtocolError::UnknownLtpReq(raw));
            },
        };
        proof {
            lemma_mask_tests_bit(flags0);
            lemma_mask_tests_bit(flags1);
        }
        Ok(
            StatusFlags {
                clock_detected: flags0 & 0x01 != 0,
                cable_connected: flags0 & 0x02 != 0,
                ch0_locked: flags0 & 0x04 != 0,
                ch1_locked: flags0 & 0x08 != 0,
                ch2_locked: flags0 & 0x10 != 0,
                ch3_locked: flags0 & 0x20 != 0,
                flt_ready: flags0 & 0x40 != 0,
                frl_start: flags1 & 0x01 != 0,
                ltp_req,
            },
        )
    }
}

/// Decoded content of `Update_0` (0x10) and `Update_1` (0x11).
///
/// Flags are set by the sink to notify the source of state changes. The source
/// reads and then clears them via [`Scdc::clear_update_flags`](crate::Scdc::clear_update_flags).
///
/// Because this type is both returned by `read_update_flags` and accepted by
/// `clear_update_flags`, use [`UpdateFlags::new`] to construct it.
#[non_exhaustive]
#[derive(Debug, Clone, Copy, PartialEq, Eq, Structural)]
pub struct UpdateFlags {
    /// FRL status has changed; re-read `Status_Flags`.
    pub frl_update: bool,
    /// CED counters have been updated; re-read `ERR_DET` registers.
    pub ced_update: bool,
    /// General status has changed.
    pub status_update: bool,
    /// DSC status has changed (`Update_1` bit 0).
    pub dsc_update: bool,
}

impl UpdateFlags {
    /// Constructs an `UpdateFlags` value.
    pub fn new(status_update: bool, ced_update: bool, frl_update: bool, dsc_update: bool) -> (r:
        Self)
        ensures
            r.status_update == status_update,
            r.ced_update == ced_update,
            r.frl_update == frl_update,
            r.dsc_update == dsc_update,
    {
        Self { status_update, ced_update, frl_update, dsc_update }
    }

    /// What the register pair reports. `Update_0`: bit 0 `Status_Update`, bit 1
    /// `CED_Update`, bit 2 `FRL_Update`. `Update_1`: bit 0 `DSC_Update`.
    /// All other bits are ignored.
    pub open spec fn decoded(update0: u8, update1: u8) -> UpdateFlags {
        UpdateFlags {
            status_update: bit(update0, 0),
            ced_update: bit(update0, 1),
            frl_update: bit(update0, 2),
            dsc_update: bit(update1, 0),
        }
    }

    /// The write-1-to-clear bytes for `Update_0` and `Update_1`: a 1 in the bit of
    /// every flag that is set, 0 everywhere else.
    pub open spec fn spec_clear_bytes(self) -> (u8, u8) {
        (
            (flag(self.status_update) + 2 * flag(self.ced_update) + 4 * flag(self.frl_update)) as u8,
            flag(self.dsc_update),
        )
    }

    /// Decodes `Update_0` and `Update_1` into one `UpdateFlags`.
    pub fn from_registers(update0: u8, update1: u8) -> (r: Self)
        ensures
            r == Self::decoded(update0, update1),
    {
        proof {
            lemma_mask_tests_bit(update0);
            lemma_mask_tests_bit(update1);
        }
        UpdateFlags {
            status_update: update0 & 0x01 != 0,
            ced_update: update0 & 0x02 != 0,
            frl_update: update0 & 0x04 != 0,
            dsc_update: update1 & 0x01 != 0,
        }
    }

    /// Encodes the flags to clear as the bytes written to `Update_0` and `Update_1`.
    pub fn clear_bytes(self) -> (r: (u8, u8))
        ensures
            r == self.spec_clear_bytes(),
    {
        let status: u8 = if self.status_update { 1 } else { 0 };
        let ced: u8 = if self.ced_update { 1 } else { 0 };
        let frl: u8 = if self.frl_update { 1 } else { 0 };
        let dsc: u8 = if self.dsc_update { 1 } else { 0 };
        assert(status | (ced << 1u8) | (frl << 2u8) == status + 2 * ced + 4 * frl) by (bit_vector)
            requires
                status <= 1,
                ced <= 1,
                frl <= 1,
        ;
        (status | (ced << 1u8) | (frl << 2u8), dsc)
    }
}

/// A 15-bit character error count decoded from an ERR_DET register pair.
///
/// The high byte's bit 7 is the validity flag consumed by [`CedCounters`];
/// the counter occupies bits\[14:0\]. Values are always ≤ `0x7FFF`.
#[derive(Debug, Clone, Copy, PartialEq, Eq)]
pub struct CedCount(u16);

impl View for CedCount {
    type V = u16;

    /// The count held.
    closed spec fn view(&self) -> u16 {
        self.0
    }
}

impl CedCount {
    #[verifier::type_invariant]
    spec fn fits_15_bits(self) -> bool {
        self.0 <= 0x7FFF
    }

    /// Constructs a `CedCount`, masking to 15 bits.
    pub fn new(raw: u16) -> (r: Self)
        ensures
            r@ == raw % 0x8000,
    {
        assert(raw & 0x7FFFu16 == raw % 0x8000u16) by (bit_vector);
        assert(raw & 0x7FFFu16 <= 0x7FFFu16) by (bit_vector);
        CedCount(raw & 0x7FFF)
    }

    /// Returns the character error count.
    pub fn value(self) -> (r: u16)
        ensures
            r == self@,
            r <= 0x7FFF,
    {
        proof {
            use_type_invariant(&self);
        }
        self.0
    }

    /// Decodes one `ERR_DET` low/high register pair: the count when the validity
    /// bit (bit 7 of `high`) is set, `None` otherwise.
    pub fn from_err_det(low: u8, high: u8) -> (r: Option<CedCount>)
        ensures
            count_of(r) == ced_lane(low, high),
    {
        proof {
            lemma_mask_tests_bit(high);
        }
        if high & 0x80 != 0 {
            let raw: u16 = ((high as u16) << 8u16) | (low as u16);
            assert((((high as u16) << 8u16) | (low as u16)) % 0x8000u16 == (high % 128) as u16
                * 256 + low) by (bit_vector);
            Some(CedCount::new(raw))
        } else {
            None
        }
    }
}

/// The count a lane holds, `None` when it holds none.
pub open spec fn count_of(lane: Option<CedCount>) -> Option<u16> {
    match lane {
        Some(c) => Some(c@),
        Option::None => Option::None,
    }
}

/// The count an `ERR_DET` low/high pair reports: `None` when the validity bit
/// (bit 7 of `high`) is clear, otherwise the 15-bit value whose upper 7 bits are
/// bits\[6:0\] of `high` and whose lower 8 bits are `low`.
pub open spec fn ced_lane(low: u8, high: u8) -> Option<u16> {
    if bit(high, 7) {
        Some(((high % 128) * 256 + low) as u16)
    } else {
        Option::None
    }
}

/// Per-lane character error counts decoded from `ERR_DET` registers (0x50–0x57).
///
/// A lane's counter is `None` when its validity bit is not set. `lane3` is only
/// populated in 4-lane FRL mode.
#[non_exhaustive]
#[derive(Debug, Clone, Copy, PartialEq, Eq)]
pub struct CedCounters {
    /// Character error count for lane 0, or `None` if the validity bit is not set.
    pub lane0: Option<CedCount>,
    /// Character error count for lane 1, or `None` if the validity bit is not set.
    pub lane1: Option<CedCount>,
    /// Character error count for lane 2, or `None` if the validity bit is not set.
    pub lane2: Option<CedCount>,
    /// Character error count for lane 3, or `None` if the validity bit is not set.
    /// Always `None` in TMDS mode or 3-lane FRL mode.
    pub lane3: Option<CedCount>,
}

impl CedCounters {
    /// Constructs a `CedCounters`.
    pub fn new(
        lane0: Option<CedCount>,
        lane1: Option<CedCount>,
        lane2: Option<CedCount>,
        lane3: Option<CedCount>,
    ) -> (r: Self)
        ensures
            r.lane0 == lane0,
            r.lane1 == lane1,
            r.lane2 == lane2,
            r.lane3 == lane3,
    {
        Self { lane0, lane1, lane2, lane3 }
    }

    /// These counters are what the eight `ERR_DET` bytes `regs` report, lane `i`
    /// coming from the pair `regs[2i]` (low) and `regs[2i + 1]` (high).
    pub open spec fn decodes(self, regs: Seq<u8>) -> bool {
        &&& regs.len() == 8
        &&& count_of(self.lane0) == ced_lane(regs[0], regs[1])
        &&& count_of(self.lane1) == ced_lane(regs[2], regs[3])
        &&& count_of(self.lane2) == ced_lane(regs[4], regs[5])
        &&& count_of(self.lane3) == ced_lane(regs[6], regs[7])
    }
}

} // verus!
