use vstd::prelude::*;

use crate::address::{CONFIG_0, STATUS_FLAGS_0, STATUS_FLAGS_1};
use crate::error::{ProtocolError, ScdcError};
use crate::register::{FrlConfig, StatusFlags};

use super::{answered_since, lemma_answered_since_append, 
    extends, history_extends, lemma_extends_push, lemma_extends_refl, read_values,
    reads_in_order, since, RegisterAccess, Scdc, ScdcBus,
};

verus! {

impl<T: ScdcBus> Scdc<T> {
    /// Writes FRL training configuration to `Config_0` (0x30).
    ///
    /// Makes exactly one access: it writes `config.spec_byte()` (`FRL_Rate` in
    /// bits\[3:0\], `DSC_FRL_Max` in bit 4, `FFE_Levels` in bits\[7:5\]) to `Config_0`,
    /// and returns the transport's answer.
    pub fn write_frl_config(&mut self, config: FrlConfig) -> (r: Result<(), ScdcError<T::Error>>)
        ensures
            match r {
                Ok(()) => final(self)@ == old(self)@.push(
                    RegisterAccess::Write(CONFIG_0, config.spec_byte(), Ok(())),
                ),
                Err(ScdcError::Transport(e)) => final(self)@ == old(self)@.push(
                    RegisterAccess::Write(CONFIG_0, config.spec_byte(), Err(e)),
                ),
                Err(ScdcError::Protocol(_)) => false,
            },
            history_extends(old(self).transport_history(), final(self).transport_history()),
            answered_since(old(self)@.len() as int, final(self)@, final(self).transport_history()),
    {
        let byte = config.to_byte();
        self.write_register(CONFIG_0, byte)
    }

    /// Reads FRL status from `Status_Flags_0` (0x40) and `Status_Flags_1` (0x41).
    ///
    /// Reads the two registers in that order, stopping if a read fails, in which case
    /// the result is that read's transport error. When both reads succeed the result is
    /// [`StatusFlags::decoded`] of the two bytes: the flags, or
    /// [`ProtocolError::UnknownLtpReq`] with the raw nibble when the sink reports an
    /// `LTP_Req` value above 4.
    pub fn read_status_flags(&mut self) -> (r: Result<StatusFlags, ScdcError<T::Error>>)
        ensures
            extends(old(self)@, final(self)@),
            history_extends(old(self).transport_history(), final(self).transport_history()),
            answered_since(old(self)@.len() as int, final(self)@, final(self).transport_history()),
            ({
                let t = since(old(self)@, final(self)@);
                let v = read_values(t);
                &&& reads_in_order(t, seq![STATUS_FLAGS_0, STATUS_FLAGS_1])
                &&& match r {
                    Ok(f) => t.last().read_ok() && StatusFlags::decoded(v[0], v[1]) == Ok::<
                        StatusFlags,
                        ProtocolError,
                    >(f),
                    Err(ScdcError::Protocol(p)) => t.last().read_ok() && StatusFlags::decoded(
                        v[0],
                        v[1],
                    ) == Err::<StatusFlags, ProtocolError>(p),
                    Err(ScdcError::Transport(e)) => t.last().read_error() == Some(e),
                }
            }),
    {
        let ghost start = self@;
        proof {
            lemma_extends_refl(start);
        }
        let ghost before = self@;
        let flags0 = match self.read_register(STATUS_FLAGS_0) {
            Ok(b) => b,
            Err(ScdcError::Transport(e)) => {
                proof {
                    lemma_extends_push(start, before, RegisterAccess::Read(STATUS_FLAGS_0, Err(e)));
                }
                assert(since(start, self@) =~= seq![RegisterAccess::Read(STATUS_FLAGS_0, Err(e))]);
                return Err(ScdcError::Transport(e));
            },
            Err(ScdcError::Protocol(p)) => {
                return Err(ScdcError::Protocol(p));
            },
        };
        proof {
            lemma_extends_push(start, before, RegisterAccess::Read(STATUS_FLAGS_0, Ok(flags0)));
        }
        let ghost before = self@;
        let ghost before_history = self.transport_history();
        proof {
            self.lemma_history_len();
        }
        let flags1 = match self.read_register(STATUS_FLAGS_1) {
            Ok(b) => b,
            Err(ScdcError::Transport(e)) => {
                proof {
                    lemma_extends_push(start, before, RegisterAccess::Read(STATUS_FLAGS_1, Err(e)));
                    lemma_answered_since_append(
                        start.len() as int,
                        before,
                        before_history,
                        self@,
                        self.transport_history(),
                    );
                }
                assert(since(start, self@) =~= seq![
                    RegisterAccess::Read(STATUS_FLAGS_0, Ok(flags0)),
                    RegisterAccess::Read(STATUS_FLAGS_1, Err(e)),
                ]);
                return Err(ScdcError::Transport(e));
            },
            Err(ScdcError::Protocol(p)) => {
                return Err(ScdcError::Protocol(p));
            },
        };
        proof {
            lemma_extends_push(start, before, RegisterAccess::Read(STATUS_FLAGS_1, Ok(flags1)));
            lemma_answered_since_append(
                start.len() as int,
                before,
                before_history,
                self@,
                self.transport_history(),
            );
        }
        assert(since(start, self@) =~= seq![
            RegisterAccess::Read(STATUS_FLAGS_0, Ok(flags0)),
            RegisterAccess::Read(STATUS_FLAGS_1, Ok(flags1)),
        ]);
        assert(read_values(since(start, self@)) =~= seq![flags0, flags1]);
        match StatusFlags::from_registers(flags0, flags1) {
            Ok(f) => Ok(f),
            Err(p) => Err(ScdcError::Protocol(p)),
        }
    }
}

} // verus!
