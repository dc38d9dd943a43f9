use vstd::prelude::*;

use crate::address::{SCRAMBLER_STATUS, TMDS_CONFIG};
use crate::error::ScdcError;
use crate::register::{ScramblerStatus, TmdsConfig};

use super::{answered_since, lemma_answered_since_append, history_extends, RegisterAccess, Scdc, ScdcBus};

verus! {

impl<T: ScdcBus> Scdc<T> {
    /// Writes scrambling configuration to `TMDS_Config` (0x20).
    ///
    /// Makes exactly one access: it writes `config.spec_byte()` (`Scrambling_Enable`
    /// in bit 0, `TMDS_Bit_Clock_Ratio` in bit 1) to `TMDS_Config`, and returns the
    /// transport's answer.
    pub fn write_tmds_config(&mut self, config: TmdsConfig) -> (r: Result<(), ScdcError<T::Error>>)
        ensures
            match r {
                Ok(()) => final(self)@ == old(self)@.push(
                    RegisterAccess::Write(TMDS_CONFIG, config.spec_byte(), Ok(())),
                ),
                Err(ScdcError::Transport(e)) => final(self)@ == old(self)@.push(
                    RegisterAccess::Write(TMDS_CONFIG, config.spec_byte(), Err(e)),
                ),
                Err(ScdcError::Protocol(_)) => false,
            },
            history_extends(old(self).transport_history(), final(self).transport_history()),
            answered_since(old(self)@.len() as int, final(self)@, final(self).transport_history()),
    {
        let byte = config.to_byte();
        self.write_register(TMDS_CONFIG, byte)
    }

    /// Reads scrambler acknowledgement from `Scrambler_Status` (0x21).
    ///
    /// Makes exactly one access, a read of `Scrambler_Status`; on success the status is
    /// the decoding of the byte read (`scrambling_active` is bit 0), otherwise the
    /// transport's error.
    pub fn read_scrambler_status(&mut self) -> (r: Result<ScramblerStatus, ScdcError<T::Error>>)
        ensures
            match r {
                Ok(s) => exists|b: u8|
                    final(self)@ == old(self)@.push(RegisterAccess::Read(SCRAMBLER_STATUS, Ok(b)))
                        && s == #[trigger] ScramblerStatus::decoded(b),
                Err(ScdcError::Transport(e)) => final(self)@ == old(self)@.push(
                    RegisterAccess::Read(SCRAMBLER_STATUS, Err(e)),
                ),
                Err(ScdcError::Protocol(_)) => false,
            },
            history_extends(old(self).transport_history(), final(self).transport_history()),
            answered_since(old(self)@.len() as int, final(self)@, final(self).transport_history()),
    {
        let byte = match self.read_register(SCRAMBLER_STATUS) {
            Ok(b) => b,
            Err(e) => {
                return Err(e);
            },
        };
        Ok(ScramblerStatus::from_byte(byte))
    }
}

} // verus!
