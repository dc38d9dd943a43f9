//! Properties of the register layouts that span more than one function.
use vstd::prelude::*;

use crate::bits::{bit, flag};
use crate::error::ProtocolError;
use crate::register::{
    ced_lane, CedCount, CedCounters, FfeLevels, FrlConfig, FrlRate, LtpReq, ScramblerStatus,
    StatusFlags, TmdsConfig, UpdateFlags,
};

verus! {

/// Clearing a set of update flags writes exactly the bits that reading reports for
/// them: decoding the write-1-to-clear bytes of `flags` gives `flags` back.
pub proof fn law_clear_targets_read_bits(flags: UpdateFlags)
    ensures
        UpdateFlags::decoded(flags.spec_clear_bytes().0, flags.spec_clear_bytes().1) == flags,
{
    let s = flag(flags.status_update);
    let c = flag(flags.ced_update);
    let f = flag(flags.frl_update);
    let d = flag(flags.dsc_update);
    assert(s <= 1 && c <= 1 && f <= 1 && d <= 1);
    let b0 = (s + 2 * c + 4 * f) as u8;
    assert(bit(b0, 0) == (s == 1) && bit(b0, 1) == (c == 1) && bit(b0, 2) == (f == 1))
        by (bit_vector)
        requires
            s <= 1,
            c <= 1,
            f <= 1,
            b0 == (s + 2 * c + 4 * f) as u8,
    ;
    assert(bit(d, 0) == (d == 1)) by (bit_vector)
        requires
            d <= 1,
    ;
}

/// Clearing the flags just read writes back, in each register, exactly the defined
/// flag bits that were set: `Update_0` bits\[2:0\] and `Update_1` bit 0.
pub proof fn law_clear_after_read(update0: u8, update1: u8)
    ensures
        UpdateFlags::decoded(update0, update1).spec_clear_bytes() == (update0 & 0x07u8, update1
            & 0x01u8),
{
    let f = UpdateFlags::decoded(update0, update1);
    assert((flag(bit(update0, 0)) + 2 * flag(bit(update0, 1)) + 4 * flag(bit(update0, 2))) as u8
        == update0 & 0x07u8) by (bit_vector);
    assert(flag(bit(update1, 0)) == update1 & 0x01u8) by (bit_vector);
}

/// Reserved bits never change the decoded status: only bits\[6:0\] of
/// `Status_Flags_0` and bits 0 and \[7:4\] of `Status_Flags_1` are read.
pub proof fn law_status_flags_ignore_reserved_bits(flags0: u8, flags1: u8)
    ensures
        StatusFlags::decoded(flags0, flags1) == StatusFlags::decoded(flags0 & 0x7Fu8, flags1
            & 0xF1u8),
{
    let m0 = flags0 & 0x7Fu8;
    let m1 = flags1 & 0xF1u8;
    assert(bit(m0, 0) == bit(flags0, 0) && bit(m0, 1) == bit(flags0, 1) && bit(m0, 2) == bit(
        flags0,
        2,
    ) && bit(m0, 3) == bit(flags0, 3) && bit(m0, 4) == bit(flags0, 4) && bit(m0, 5) == bit(
        flags0,
        5,
    ) && bit(m0, 6) == bit(flags0, 6)) by (bit_vector)
        requires
            m0 == flags0 & 0x7Fu8,
    ;
    assert(bit(m1, 0) == bit(flags1, 0) && m1 >> 4u8 == flags1 >> 4u8) by (bit_vector)
        requires
            m1 == flags1 & 0xF1u8,
    ;
}

/// Only bit 0 of `Scrambler_Status` is read; the reserved bits never change the result.
pub proof fn law_scrambler_status_ignores_reserved_bits(byte: u8)
    ensures
        ScramblerStatus::decoded(byte) == ScramblerStatus::decoded(byte & 0x01u8),
{
    assert(bit(byte & 0x01u8, 0) == bit(byte, 0)) by (bit_vector);
}

/// An `LTP_Req` decodes to a request exactly when it is at most 4, and decoding undoes
/// [`LtpReq::code`]: every request is recovered from its own field value.
pub proof fn law_ltp_req_code_round_trip(req: LtpReq, nibble: u8)
    ensures
        LtpReq::from_code(req.spec_code()) == Some(req),
        LtpReq::from_code(nibble) is Some <==> nibble <= 4,
        LtpReq::from_code(nibble) matches Some(r) ==> r.spec_code() == nibble,
{
}

/// The fields of `Config_0` occupy disjoint bits and each can be read back from the
/// byte: `FRL_Rate` from bits\[3:0\], `DSC_FRL_Max` from bit 4, `FFE_Levels` from bits\[7:5\].
pub proof fn law_frl_config_fields(config: FrlConfig)
    ensures
        config.spec_byte() & 0x0Fu8 == config.frl_rate.spec_code(),
        bit(config.spec_byte(), 4) == config.dsc_frl_max,
        config.spec_byte() >> 5u8 == config.ffe_levels.spec_code(),
{
    let rate = config.frl_rate.spec_code();
    let dsc = flag(config.dsc_frl_max);
    let ffe = config.ffe_levels.spec_code();
    let b = config.spec_byte();
    assert(b & 0x0Fu8 == rate && bit(b, 4) == (dsc == 1) && b >> 5u8 == ffe) by (bit_vector)
        requires
            rate <= 6,
            dsc <= 1,
            ffe <= 7,
            b == (rate + 16 * dsc + 32 * ffe) as u8,
    ;
}

/// Distinct FRL configurations are written as distinct `Config_0` bytes.
pub proof fn law_frl_config_encoding_injective(a: FrlConfig, b: FrlConfig)
    requires
        a.spec_byte() == b.spec_byte(),
    ensures
        a == b,
{
    law_frl_config_fields(a);
    law_frl_config_fields(b);
}

/// `TMDS_Config` carries `Scrambling_Enable` in bit 0 and `TMDS_Bit_Clock_Ratio` in bit 1,
/// leaves every other bit clear, and so tells distinct configurations apart.
pub proof fn law_tmds_config_fields(config: TmdsConfig, other: TmdsConfig)
    ensures
        bit(config.spec_byte(), 0) == config.scrambling_enable,
        bit(config.spec_byte(), 1) == config.high_tmds_clock_ratio,
        config.spec_byte() < 4,
        config.spec_byte() == other.spec_byte() ==> config == other,
{
    let e = flag(config.scrambling_enable);
    let r = flag(config.high_tmds_clock_ratio);
    let b = config.spec_byte();
    assert(bit(b, 0) == (e == 1) && bit(b, 1) == (r == 1) && b < 4) by (bit_vector)
        requires
            e <= 1,
            r <= 1,
            b == (e + 2 * r) as u8,
    ;
    let e2 = flag(other.scrambling_enable);
    let r2 = flag(other.high_tmds_clock_ratio);
    let b2 = other.spec_byte();
    assert(bit(b2, 0) == (e2 == 1) && bit(b2, 1) == (r2 == 1)) by (bit_vector)
        requires
            e2 <= 1,
            r2 <= 1,
            b2 == (e2 + 2 * r2) as u8,
    ;
}

/// An `ERR_DET` pair holds a count exactly when its validity bit is set; the count fits
/// in 15 bits, its low byte is the low register and its bits\[14:8\] are bits\[6:0\] of
/// the high register, so the validity bit never reaches the count.
pub proof fn law_ced_lane_layout(low: u8, high: u8)
    ensures
        ced_lane(low, high) is Some <==> high & 0x80u8 != 0,
        ced_lane(low, high) matches Some(v) ==> v <= 0x7FFF && v % 256 == low && v / 256 == high
            & 0x7Fu8,
{
    assert((high & 0x80u8 != 0) == bit(high, 7)) by (bit_vector);
    assert(high % 128 == high & 0x7Fu8) by (bit_vector);
}

} // verus!

verus! {

/// Each update flag is read from its own bit, whatever the other bits hold:
/// `Status_Update` is bit 0, `CED_Update` bit 1 and `FRL_Update` bit 2 of `Update_0`,
/// and `DSC_Update` is bit 0 of `Update_1`.
pub proof fn law_update_flags_bit_positions(update0: u8, update1: u8)
    ensures
        UpdateFlags::decoded(update0, update1).status_update == (update0 % 2 == 1),
        UpdateFlags::decoded(update0, update1).ced_update == ((update0 / 2) % 2 == 1),
        UpdateFlags::decoded(update0, update1).frl_update == ((update0 / 4) % 2 == 1),
        UpdateFlags::decoded(update0, update1).dsc_update == (update1 % 2 == 1),
{
    assert(bit(update0, 0) == (update0 % 2 == 1)) by (bit_vector);
    assert(bit(update0, 1) == ((update0 / 2) % 2 == 1)) by (bit_vector);
    assert(bit(update0, 2) == ((update0 / 4) % 2 == 1)) by (bit_vector);
    assert(bit(update1, 0) == (update1 % 2 == 1)) by (bit_vector);
}

/// The write-1-to-clear bytes hold a 1 for each flag to clear and nothing else: in
/// `Update_0`, 1 for `Status_Update`, 2 for `CED_Update` and 4 for `FRL_Update`; in
/// `Update_1`, 1 for `DSC_Update`.
pub proof fn law_clear_bytes_per_flag(flags: UpdateFlags)
    ensures
        flags.spec_clear_bytes().0 == (if flags.status_update { 1u8 } else { 0u8 }) + (
        if flags.ced_update {
            2u8
        } else {
            0u8
        }) + (if flags.frl_update { 4u8 } else { 0u8 }),
        flags.spec_clear_bytes().1 == (if flags.dsc_update { 1u8 } else { 0u8 }),
{
}

/// Each of the four CED lanes is decoded from its own register pair, lane `i` from
/// `regs[2i]` (low) and `regs[2i + 1]` (high): it holds a count exactly when bit 7 of the
/// high register is set, and the count is `(high - 128) * 256 + low`.
pub proof fn law_ced_counters_lanes(counters: CedCounters, regs: Seq<u8>)
    requires
        counters.decodes(regs),
    ensures
        lane_holds(counters.lane0, regs[0], regs[1]),
        lane_holds(counters.lane1, regs[2], regs[3]),
        lane_holds(counters.lane2, regs[4], regs[5]),
        lane_holds(counters.lane3, regs[6], regs[7]),
{
    law_ced_lane_layout(regs[0], regs[1]);
    law_ced_lane_layout(regs[2], regs[3]);
    law_ced_lane_layout(regs[4], regs[5]);
    law_ced_lane_layout(regs[6], regs[7]);
    assert(forall|h: u8| (h & 0x80u8 != 0) == (h >= 128)) by (bit_vector);
    assert(forall|h: u8| h >= 128 ==> (h & 0x7Fu8) == h - 128) by (bit_vector);
}

/// `lane` holds a count exactly when `high >= 128` (its validity bit), and then the
/// count is `(high - 128) * 256 + low`.
pub open spec fn lane_holds(lane: Option<CedCount>, low: u8, high: u8) -> bool {
    &&& lane is Some <==> high >= 128
    &&& lane matches Some(c) ==> c@ == (high - 128) * 256 + low
}

/// Each status flag is read from its own bit: `Status_Flags_0` bits 0 to 6 are
/// `Clock_Detected`, `Cable_Connected`, `Ch0_Locked` to `Ch3_Locked` and `FLT_Ready`;
/// bit 0 of `Status_Flags_1` is `FRL_Start`; its upper nibble `flags1 / 16` is the LTP
/// request: 0 none, 1 to 4 LFSR0 to LFSR3, anything else `UnknownLtpReq` of that nibble.
pub proof fn law_status_flags_bit_positions(flags0: u8, flags1: u8)
    ensures
        StatusFlags::decoded(flags0, flags1) matches Ok(s) ==> {
            &&& s.clock_detected == (flags0 % 2 == 1)
            &&& s.cable_connected == ((flags0 / 2) % 2 == 1)
            &&& s.ch0_locked == ((flags0 / 4) % 2 == 1)
            &&& s.ch1_locked == ((flags0 / 8) % 2 == 1)
            &&& s.ch2_locked == ((flags0 / 16) % 2 == 1)
            &&& s.ch3_locked == ((flags0 / 32) % 2 == 1)
            &&& s.flt_ready == ((flags0 / 64) % 2 == 1)
            &&& s.frl_start == (flags1 % 2 == 1)
        },
        flags1 / 16 == 0 ==> (StatusFlags::decoded(flags0, flags1) matches Ok(s) && s.ltp_req
            == LtpReq::NoRequest),
        flags1 / 16 == 1 ==> (StatusFlags::decoded(flags0, flags1) matches Ok(s) && s.ltp_req
            == LtpReq::Lfsr0),
        flags1 / 16 == 2 ==> (StatusFlags::decoded(flags0, flags1) matches Ok(s) && s.ltp_req
            == LtpReq::Lfsr1),
        flags1 / 16 == 3 ==> (StatusFlags::decoded(flags0, flags1) matches Ok(s) && s.ltp_req
            == LtpReq::Lfsr2),
        flags1 / 16 == 4 ==> (StatusFlags::decoded(flags0, flags1) matches Ok(s) && s.ltp_req
            == LtpReq::Lfsr3),
        flags1 / 16 > 4 ==> StatusFlags::decoded(flags0, flags1) == Err::<
            StatusFlags,
            ProtocolError,
        >(ProtocolError::UnknownLtpReq(flags1 / 16)),
{
    assert(bit(flags0, 0) == (flags0 % 2 == 1)) by (bit_vector);
    assert(bit(flags0, 1) == ((flags0 / 2) % 2 == 1)) by (bit_vector);
    assert(bit(flags0, 2) == ((flags0 / 4) % 2 == 1)) by (bit_vector);
    assert(bit(flags0, 3) == ((flags0 / 8) % 2 == 1)) by (bit_vector);
    assert(bit(flags0, 4) == ((flags0 / 16) % 2 == 1)) by (bit_vector);
    assert(bit(flags0, 5) == ((flags0 / 32) % 2 == 1)) by (bit_vector);
    assert(bit(flags0, 6) == ((flags0 / 64) % 2 == 1)) by (bit_vector);
    assert(bit(flags1, 0) == (flags1 % 2 == 1)) by (bit_vector);
    assert(flags1 >> 4u8 == flags1 / 16) by (bit_vector);
}

/// `Scrambling_Status` is bit 0 of `Scrambler_Status`.
pub proof fn law_scrambler_status_bit_position(byte: u8)
    ensures
        ScramblerStatus::decoded(byte).scrambling_active == (byte % 2 == 1),
{
    assert(bit(byte, 0) == (byte % 2 == 1)) by (bit_vector);
}

/// The `TMDS_Config` byte is 1 for `Scrambling_Enable` plus 2 for `TMDS_Bit_Clock_Ratio`.
pub proof fn law_tmds_config_byte_value(config: TmdsConfig)
    ensures
        config.spec_byte() == (if config.scrambling_enable { 1u8 } else { 0u8 }) + (
        if config.high_tmds_clock_ratio {
            2u8
        } else {
            0u8
        }),
{
}

/// The `Config_0` byte is the FRL tier number (0 for no FRL, 1 for 3 Gbps on 3 lanes up to 6
/// for 12 Gbps on 4 lanes), plus 16 for `DSC_FRL_Max`, plus 32 times the FFE level count.
pub proof fn law_frl_config_byte_value(config: FrlConfig)
    ensures
        config.spec_byte() == frl_tier_number(config.frl_rate) + (if config.dsc_frl_max {
            16u8
        } else {
            0u8
        }) + 32 * ffe_level_count(config.ffe_levels),
{
}

/// The tier's position in ascending bandwidth: 0 for no FRL, then 1 to 6.
pub open spec fn frl_tier_number(rate: FrlRate) -> u8 {
    match rate {
        FrlRate::NotSupported => 0,
        FrlRate::Rate3Gbps3Lanes => 1,
        FrlRate::Rate6Gbps3Lanes => 2,
        FrlRate::Rate6Gbps4Lanes => 3,
        FrlRate::Rate8Gbps4Lanes => 4,
        FrlRate::Rate10Gbps4Lanes => 5,
        FrlRate::Rate12Gbps4Lanes => 6,
    }
}

/// The number of FFE levels a variant names.
pub open spec fn ffe_level_count(levels: FfeLevels) -> u8 {
    match levels {
        FfeLevels::Ffe0 => 0,
        FfeLevels::Ffe1 => 1,
        FfeLevels::Ffe2 => 2,
        FfeLevels::Ffe3 => 3,
        FfeLevels::Ffe4 => 4,
        FfeLevels::Ffe5 => 5,
        FfeLevels::Ffe6 => 6,
        FfeLevels::Ffe7 => 7,
    }
}

} // verus!

verus! {

/// The SCDC register map (HDMI 2.1 §10.4) the client addresses, and the `ERR_DET`
/// registers `read_ced` reads: lane `i` low at 0x50 + 2i, high at 0x51 + 2i.
pub proof fn law_register_map()
    ensures
        crate::address::SINK_VERSION == 0x01,
        crate::address::SOURCE_VERSION == 0x02,
        crate::address::UPDATE_0 == 0x10,
        crate::address::UPDATE_1 == 0x11,
        crate::address::TMDS_CONFIG == 0x20,
        crate::address::SCRAMBLER_STATUS == 0x21,
        crate::address::CONFIG_0 == 0x30,
        crate::address::STATUS_FLAGS_0 == 0x40,
        crate::address::STATUS_FLAGS_1 == 0x41,
        crate::client::err_det_registers() == seq![0x50u8, 0x51, 0x52, 0x53, 0x54, 0x55, 0x56, 0x57],
{
    assert(crate::client::err_det_registers() =~= seq![0x50u8, 0x51, 0x52, 0x53, 0x54, 0x55, 0x56, 0x57]);
}

} // verus!
