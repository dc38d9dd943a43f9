//! Typed access to the HDMI 2.1 SCDC (Status and Control Data Channel) register map.
//!
//! The central type is [`Scdc`], a thin stateless client that wraps a transport
//! and exposes one typed method per register group. Sequencing of register
//! operations (rate selection, timeout handling, retry logic) belongs in the link
//! training layer above.

mod bits;
mod error;
mod laws;
mod register;

pub use bits::{bit, flag};
pub use error::{ProtocolError, ScdcError};
pub use register::{
    ced_lane, count_of, CedCount, CedCounters, FfeLevels, FrlConfig, FrlRate, LtpReq,
    ScramblerStatus, StatusFlags, TmdsConfig, UpdateFlags,
};

mod address;
mod client;

pub use address::{
    CONFIG_0, ERR_DET_0_L, SCRAMBLER_STATUS, SINK_VERSION, SOURCE_VERSION, STATUS_FLAGS_0,
    STATUS_FLAGS_1, TMDS_CONFIG, UPDATE_0, UPDATE_1,
};
pub use client::{
    access_answered, answered_since, err_det_registers, lemma_answered_since_append, read_answered, write_answered,
    extends, history_extends, read_values, reads_in_order, since, RegisterAccess, Scdc, ScdcBus,
};
pub use laws::{
    ffe_level_count, frl_tier_number, law_register_map, lane_holds, law_ced_counters_lanes,
    law_clear_bytes_per_flag, law_frl_config_byte_value, law_scrambler_status_bit_position,
    law_status_flags_bit_positions, law_tmds_config_byte_value, law_update_flags_bit_positions,
    law_ced_lane_layout, law_clear_after_read, law_clear_targets_read_bits,
    law_frl_config_encoding_injective, law_frl_config_fields, law_ltp_req_code_round_trip,
    law_scrambler_status_ignores_reserved_bits, law_status_flags_ignore_reserved_bits,
    law_tmds_config_fields,
};
