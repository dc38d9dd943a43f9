//! SCDC register addresses (HDMI 2.1 §10.4).
use vstd::prelude::*;

verus! {

/// `Sink_Version`: SCDC protocol version supported by the sink (read).
pub const SINK_VERSION: u8 = 0x01;
/// `Source_Version`: SCDC protocol version the source intends to use (write).
pub const SOURCE_VERSION: u8 = 0x02;
/// `Update_0`: change notification flags (read, write-1-to-clear).
pub const UPDATE_0: u8 = 0x10;
/// `Update_1`: `DSC_Update` flag (read, write-1-to-clear).
pub const UPDATE_1: u8 = 0x11;
/// `TMDS_Config`: scrambling enable and bit clock ratio (write).
pub const TMDS_CONFIG: u8 = 0x20;
/// `Scrambler_Status`: sink acknowledgement that scrambling is active (read).
pub const SCRAMBLER_STATUS: u8 = 0x21;
/// `Config_0`: FRL rate, `DSC_FRL_Max` and FFE levels (write).
pub const CONFIG_0: u8 = 0x30;
/// `Status_Flags_0`: clock, cable, lane lock and `FLT_Ready` flags (read).
pub const STATUS_FLAGS_0: u8 = 0x40;
/// `Status_Flags_1`: `FRL_Start` and `LTP_Req` (read).
pub const STATUS_FLAGS_1: u8 = 0x41;
/// `ERR_DET_0_L`: first of the eight `ERR_DET` registers (lane 0 low byte); lane `i`
/// occupies `ERR_DET_0_L + 2i` (low) and `ERR_DET_0_L + 2i + 1` (high).
pub const ERR_DET_0_L: u8 = 0x50;

} // verus!
