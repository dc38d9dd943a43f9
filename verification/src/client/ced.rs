use vstd::prelude::*;

use crate::address::ERR_DET_0_L;
use crate::error::ScdcError;
use crate::register::{CedCount, CedCounters};

use super::{answered_since, lemma_answered_since_append, 
    extends, history_extends, lemma_extends_push, lemma_extends_refl, read_values,
    reads_in_order, since, RegisterAccess, Scdc, ScdcBus,
};

verus! {

/// The eight `ERR_DET` register addresses, in the order they are read: lane 0 low,
/// lane 0 high, lane 1 low, ..., lane 3 high.
pub open spec fn err_det_registers() -> Seq<u8> {
    Seq::new(8, |i: int| (ERR_DET_0_L + i) as u8)
}

impl<T: ScdcBus> Scdc<T> {
    /// Reads the per-lane character error counters from the `ERR_DET` registers (0x50–0x57).
    ///
    /// Reads the eight registers in address order, stopping if a read fails, in which
    /// case the result is that read's transport error. When all reads succeed the result
    /// is `Ok`, never a protocol error: each lane holds its 15-bit count when its validity
    /// bit is set and `None` otherwise.
    pub fn read_ced(&mut self) -> (r: Result<CedCounters, ScdcError<T::Error>>)
        ensures
            extends(old(self)@, final(self)@),
            history_extends(old(self).transport_history(), final(self).transport_history()),
            answered_since(old(self)@.len() as int, final(self)@, final(self).transport_history()),
            ({
                let t = since(old(self)@, final(self)@);
                &&& reads_in_order(t, err_det_registers())
                &&& match r {
                    Ok(c) => t.last().read_ok() && c.decodes(read_values(t)),
                    Err(ScdcError::Transport(e)) => t.last().read_error() == Some(e),
                    Err(ScdcError::Protocol(_)) => false,
                }
            }),
    {
        let ghost start = self@;
        proof {
            lemma_extends_refl(start);
        }
        let mut regs: [u8; 8] = [0u8; 8];
        let mut i: usize = 0;
        while i < 8
            invariant
                i <= 8,
                start == old(self)@,
                history_extends(old(self).transport_history(), self.transport_history()),
                answered_since(start.len() as int, self@, self.transport_history()),
                extends(start, self@),
                since(start, self@).len() == i,
                forall|j: int|
                    0 <= j < i ==> #[trigger] since(start, self@)[j] == RegisterAccess::<T::Error>::Read(
                        err_det_registers()[j],
                        Ok(regs@[j]),
                    ),
            decreases 8 - i,
        {
            let reg: u8 = ERR_DET_0_L + i as u8;
            assert(reg == err_det_registers()[i as int]);
            let ghost before = self@;
            let ghost before_history = self.transport_history();
            proof {
                self.lemma_history_len();
            }
            match self.read_register(reg) {
                Ok(b) => {
                    proof {
                        lemma_extends_push(start, before, RegisterAccess::Read(reg, Ok(b)));
                        lemma_answered_since_append(
                            start.len() as int,
                            before,
                            before_history,
                            self@,
                            self.transport_history(),
                        );
                    }
                    regs[i] = b;
                },
                Err(ScdcError::Transport(e)) => {
                    proof {
                        lemma_extends_push(start, before, RegisterAccess::Read(reg, Err(e)));
                        lemma_answered_since_append(
                            start.len() as int,
                            before,
                            before_history,
                            self@,
                            self.transport_history(),
                        );
                    }
                    return Err(ScdcError::Transport(e));
                },
                Err(ScdcError::Protocol(p)) => {
                    return Err(ScdcError::Protocol(p));
                },
            }
            i = i + 1;
        }
        let ghost t = since(start, self@);
        assert(read_values(t) =~= regs@);
        let counters = CedCounters {
            lane0: CedCount::from_err_det(regs[0], regs[1]),
            lane1: CedCount::from_err_det(regs[2], regs[3]),
            lane2: CedCount::from_err_det(regs[4], regs[5]),
            lane3: CedCount::from_err_det(regs[6], regs[7]),
        };
        Ok(counters)
    }
}

} // verus!
