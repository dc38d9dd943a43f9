use vstd::prelude::*;

use crate::address::{UPDATE_0, UPDATE_1};
use crate::error::ScdcError;
use crate::register::UpdateFlags;

use super::{answered_since, lemma_answered_since_append, 
    extends, history_extends, lemma_extends_push, lemma_extends_refl, read_values,
    reads_in_order, since, RegisterAccess, Scdc, ScdcBus,
};

verus! {

impl<T: ScdcBus> Scdc<T> {
    /// Reads the change notification flags from `Update_0` (0x10) and `Update_1` (0x11).
    ///
    /// Reads the two registers in that order, stopping if a read fails, in which case
    /// the result is that read's transport error. When both reads succeed the result is
    /// [`UpdateFlags::decoded`] of the two bytes.
    pub fn read_update_flags(&mut self) -> (r: Result<UpdateFlags, ScdcError<T::Error>>)
        ensures
            extends(old(self)@, final(self)@),
            history_extends(old(self).transport_history(), final(self).transport_history()),
            answered_since(old(self)@.len() as int, final(self)@, final(self).transport_history()),
            ({
                let t = since(old(self)@, final(self)@);
                let v = read_values(t);
                &&& reads_in_order(t, seq![UPDATE_0, UPDATE_1])
                &&& match r {
                    Ok(f) => t.last().read_ok() && f == UpdateFlags::decoded(v[0], v[1]),
                    Err(ScdcError::Transport(e)) => t.last().read_error() == Some(e),
                    Err(ScdcError::Protocol(_)) => false,
                }
            }),
    {
        let ghost start = self@;
        proof {
            lemma_extends_refl(start);
        }
        let ghost before = self@;
        let update0 = match self.read_register(UPDATE_0) {
            Ok(b) => b,
            Err(ScdcError::Transport(e)) => {
                proof {
                    lemma_extends_push(start, before, RegisterAccess::Read(UPDATE_0, Err(e)));
                }
                assert(since(start, self@) =~= seq![RegisterAccess::Read(UPDATE_0, Err(e))]);
                return Err(ScdcError::Transport(e));
            },
            Err(ScdcError::Protocol(p)) => {
                return Err(ScdcError::Protocol(p));
            },
        };
        proof {
            lemma_extends_push(start, before, RegisterAccess::Read(UPDATE_0, Ok(update0)));
        }
        let ghost before = self@;
        let ghost before_history = self.transport_history();
        proof {
            self.lemma_history_len();
        }
        let update1 = match self.read_register(UPDATE_1) {
            Ok(b) => b,
            Err(ScdcError::Transport(e)) => {
                proof {
                    lemma_extends_push(start, before, RegisterAccess::Read(UPDATE_1, Err(e)));
                    lemma_answered_since_append(
                        start.len() as int,
                        before,
                        before_history,
                        self@,
                        self.transport_history(),
                    );
                }
                assert(since(start, self@) =~= seq![
                    RegisterAccess::Read(UPDATE_0, Ok(update0)),
                    RegisterAccess::Read(UPDATE_1, Err(e)),
                ]);
                return Err(ScdcError::Transport(e));
            },
            Err(ScdcError::Protocol(p)) => {
                return Err(ScdcError::Protocol(p));
            },
        };
        proof {
            lemma_extends_push(start, before, RegisterAccess::Read(UPDATE_1, Ok(update1)));
            lemma_answered_since_append(
                start.len() as int,
                before,
                before_history,
                self@,
                self.transport_history(),
            );
        }
        assert(since(start, self@) =~= seq![
            RegisterAccess::Read(UPDATE_0, Ok(update0)),
            RegisterAccess::Read(UPDATE_1, Ok(update1)),
        ]);
        assert(read_values(since(start, self@)) =~= seq![update0, update1]);
        Ok(UpdateFlags::from_registers(update0, update1))
    }

    /// Clears change notification flags in `Update_0` (0x10) and `Update_1` (0x11).
    ///
    /// The registers are write-1-to-clear: `flags.spec_clear_bytes()` has a 1 in the bit of
    /// every flag set in `flags` and 0 elsewhere, so set flags are cleared and the others
    /// are left unchanged. Writes `Update_0` and then, if that write succeeded, `Update_1`;
    /// a failed write's transport error is the result.
    pub fn clear_update_flags(&mut self, flags: UpdateFlags) -> (r: Result<(), ScdcError<T::Error>>)
        ensures
            history_extends(old(self).transport_history(), final(self).transport_history()),
            answered_since(old(self)@.len() as int, final(self)@, final(self).transport_history()),
            ({
                let (clear0, clear1) = flags.spec_clear_bytes();
                match r {
                    Ok(()) => final(self)@ == old(self)@.push(
                        RegisterAccess::Write(UPDATE_0, clear0, Ok(())),
                    ).push(RegisterAccess::Write(UPDATE_1, clear1, Ok(()))),
                    Err(ScdcError::Transport(e)) => {
                        ||| final(self)@ == old(self)@.push(
                            RegisterAccess::Write(UPDATE_0, clear0, Err(e)),
                        )
                        ||| final(self)@ == old(self)@.push(
                            RegisterAccess::Write(UPDATE_0, clear0, Ok(())),
                        ).push(RegisterAccess::Write(UPDATE_1, clear1, Err(e)))
                    },
                    Err(ScdcError::Protocol(_)) => false,
                }
            }),
    {
        let ghost start = self@;
        let (clear0, clear1) = flags.clear_bytes();
        match self.write_register(UPDATE_0, clear0) {
            Ok(()) => {},
            Err(e) => {
                return Err(e);
            },
        }
        let ghost before = self@;
        let ghost before_history = self.transport_history();
        proof {
            self.lemma_history_len();
        }
        let r = self.write_register(UPDATE_1, clear1);
        proof {
            lemma_answered_since_append(
                start.len() as int,
                before,
                before_history,
                self@,
                self.transport_history(),
            );
        }
        r
    }
}

} // verus!
