//! The [`Scdc`] client.
//!
//! Every register access the client makes is recorded, in order, in a ghost log
//! that is the client's view (`scdc@`), together with the state of the transport
//! after each access (`scdc.transport_history()`). The contracts of the client's
//! methods say which accesses each method appends, with the outcomes the transport
//! returned, and how the method's result follows from them. The log is kept by
//! [`bus::LoggedBus`], the only code that calls the transport.
use vstd::prelude::*;

use crate::error::ScdcError;

mod bus;
mod ced;
mod frl;
mod scrambling;
mod update;
mod version;

use bus::LoggedBus;
pub use ced::err_det_registers;

verus! {

/// One register access made through the transport, with the transport's answer.
pub enum RegisterAccess<E> {
    /// A read of the register at the first field, and what the transport returned.
    Read(u8, Result<u8, E>),
    /// A write of the second field to the register at the first, and what the
    /// transport returned.
    Write(u8, u8, Result<(), E>),
}

impl<E> RegisterAccess<E> {
    /// True for a read that returned a value.
    pub open spec fn read_ok(self) -> bool {
        match self {
            RegisterAccess::Read(_, Ok(_)) => true,
            _ => false,
        }
    }

    /// The value a successful read returned.
    pub open spec fn read_value(self) -> u8 {
        match self {
            RegisterAccess::Read(_, Ok(v)) => v,
            _ => 0,
        }
    }

    /// The error a failed read returned.
    pub open spec fn read_error(self) -> Option<E> {
        match self {
            RegisterAccess::Read(_, Err(e)) => Some(e),
            _ => None,
        }
    }

    /// True when this is a read of register `reg`.
    pub open spec fn reads(self, reg: u8) -> bool {
        match self {
            RegisterAccess::Read(r, _) => r == reg,
            _ => false,
        }
    }
}

/// `now` is `before` followed by further accesses.
pub open spec fn extends<E>(before: Seq<RegisterAccess<E>>, now: Seq<RegisterAccess<E>>) -> bool {
    &&& before.len() <= now.len()
    &&& now.subrange(0, before.len() as int) == before
}

/// The accesses `now` holds beyond the first `before.len()`.
pub open spec fn since<E>(before: Seq<RegisterAccess<E>>, now: Seq<RegisterAccess<E>>) -> Seq<
    RegisterAccess<E>,
> {
    now.skip(before.len() as int)
}

/// `now` starts with the states of `before`: earlier states of the transport are never
/// rewritten.
pub open spec fn history_extends<T>(before: Seq<T>, now: Seq<T>) -> bool {
    &&& before.len() <= now.len()
    &&& forall|i: int| 0 <= i < before.len() ==> #[trigger] now[i] == before[i]
}

/// Appending one access keeps `before` a prefix and appends it to what came since.
pub proof fn lemma_extends_push<E>(
    before: Seq<RegisterAccess<E>>,
    now: Seq<RegisterAccess<E>>,
    a: RegisterAccess<E>,
)
    requires
        extends(before, now),
    ensures
        extends(before, now.push(a)),
        since(before, now.push(a)) == since(before, now).push(a),
{
    assert(now.push(a).subrange(0, before.len() as int) =~= now.subrange(0, before.len() as int));
    assert(since(before, now.push(a)) =~= since(before, now).push(a));
}

/// A log extends itself, with nothing since.
pub proof fn lemma_extends_refl<E>(log: Seq<RegisterAccess<E>>)
    ensures
        extends(log, log),
        since(log, log) == Seq::<RegisterAccess<E>>::empty(),
{
    assert(log.subrange(0, log.len() as int) =~= log);
    assert(since(log, log) =~= Seq::<RegisterAccess<E>>::empty());
}

/// The transport, in state `before`, was called for `access` (a read of its register,
/// or a write of its value to its register) and gave the answer that `access` records.
pub open spec fn access_answered<T: ScdcBus>(access: RegisterAccess<T::Error>, before: T) -> bool {
    match access {
        RegisterAccess::Read(reg, answer) => read_answered(before, reg, answer),
        RegisterAccess::Write(reg, value, answer) => write_answered(before, reg, value, answer),
    }
}

/// The transport, in state `before`, was called to read `reg` and answered `answer`.
pub open spec fn read_answered<T: ScdcBus>(before: T, reg: u8, answer: Result<u8, T::Error>) -> bool {
    exists|m: &mut T| #[trigger] call_ensures(T::read, (m, reg), answer) && mut_ref_current(m) == before
}

/// The transport, in state `before`, was called to write `value` to `reg` and answered
/// `answer`.
pub open spec fn write_answered<T: ScdcBus>(before: T, reg: u8, value: u8, answer: Result<(), T::Error>) -> bool {
    exists|m: &mut T|
        #[trigger] call_ensures(T::write, (m, reg, value), answer) && mut_ref_current(m) == before
}

/// Every access of `log` from index `start` on is a call the transport answered as
/// recorded, made on the transport in state `history[i]`.
pub open spec fn answered_since<T: ScdcBus>(
    start: int,
    log: Seq<RegisterAccess<T::Error>>,
    history: Seq<T>,
) -> bool {
    forall|i: int|
        start <= i < log.len() ==> #[trigger] access_answered(log[i], history[i])
}

/// Answered accesses stay answered as the log and the history grow: `answered_since`
/// over `(log1, history1)` and, for the accesses added after it, over `(log2, history2)`
/// gives it over all of `(log2, history2)`.
pub proof fn lemma_answered_since_append<T: ScdcBus>(
    start: int,
    log1: Seq<RegisterAccess<T::Error>>,
    history1: Seq<T>,
    log2: Seq<RegisterAccess<T::Error>>,
    history2: Seq<T>,
)
    requires
        0 <= start <= log1.len(),
        history1.len() == log1.len() + 1,
        history_extends(log1, log2),
        history_extends(history1, history2),
        answered_since(start, log1, history1),
        answered_since(log1.len() as int, log2, history2),
    ensures
        answered_since(start, log2, history2),
{
    assert forall|i: int| start <= i < log2.len() implies #[trigger] access_answered(
        log2[i],
        history2[i],
    ) by {
        if i < log1.len() {
            assert(access_answered(log1[i], history1[i]));
        }
    }
}

/// `t` records reading the registers `regs` one after the other, stopping after the
/// first read that failed: it holds one read of `regs[i]` for each `i` it reaches,
/// every read before the last succeeded, and it stops short of `regs` only if its
/// last read failed.
pub open spec fn reads_in_order<E>(t: Seq<RegisterAccess<E>>, regs: Seq<u8>) -> bool {
    &&& 0 < t.len() <= regs.len()
    &&& forall|i: int| 0 <= i < t.len() ==> (#[trigger] t[i]).reads(regs[i])
    &&& forall|i: int| 0 <= i < t.len() - 1 ==> (#[trigger] t[i]).read_ok()
    &&& t.len() < regs.len() ==> !t.last().read_ok()
}

/// The values that the reads recorded in `t` returned.
pub open spec fn read_values<E>(t: Seq<RegisterAccess<E>>) -> Seq<u8> {
    t.map_values(|a: RegisterAccess<E>| a.read_value())
}

/// Raw register access to the SCDC register map: a one-byte address and a one-byte
/// value, carried over DDC/I²C by whatever implements it.
///
/// Nothing is assumed of an implementation: the client's contracts hold for every
/// value a read returns and every outcome a write reports.
pub trait ScdcBus {
    /// Error type returned by transport operations.
    type Error;

    /// Reads a single byte from the given SCDC register address.
    fn read(&mut self, reg: u8) -> Result<u8, Self::Error>;

    /// Writes a single byte to the given SCDC register address.
    fn write(&mut self, reg: u8, value: u8) -> Result<(), Self::Error>;
}

/// Typed client for the HDMI 2.1 SCDC (Status and Control Data Channel) register map.
///
/// `Scdc<T>` wraps a [`ScdcBus`] and exposes one typed method per register group.
/// It holds no protocol state; all sequencing logic belongs in the caller. The log of
/// accesses and transport states it keeps is ghost and vanishes from compiled code.
pub struct Scdc<T: ScdcBus> {
    bus: LoggedBus<T>,
}

impl<T: ScdcBus> View for Scdc<T> {
    type V = Seq<RegisterAccess<T::Error>>;

    /// The accesses made through this client since it was created, oldest first.
    closed spec fn view(&self) -> Seq<RegisterAccess<T::Error>> {
        self.bus.log()
    }
}

impl<T: ScdcBus> Scdc<T> {
    /// The states the wrapped transport has been in: `transport_history()[0]` is the
    /// transport handed to [`Scdc::new`], and `transport_history()[i + 1]` is its state
    /// right after the access `self@[i]`. The transport changes at no other time.
    pub closed spec fn transport_history(&self) -> Seq<T> {
        self.bus.history()
    }

    /// The history holds one state before each logged access, then the current one.
    pub proof fn lemma_history_len(&self)
        ensures
            self.transport_history().len() == self@.len() + 1,
    {
        self.bus.lemma_history_len();
    }

    /// Creates a new `Scdc` client wrapping the given transport.
    pub fn new(transport: T) -> (r: Self)
        ensures
            r@ == Seq::<RegisterAccess<T::Error>>::empty(),
            r.transport_history() == Seq::<T>::empty().push(transport),
    {
        Scdc { bus: LoggedBus::new(transport) }
    }

    /// Consumes the client and returns the underlying transport: the transport handed
    /// to [`Scdc::new`] changed only by the accesses in `self@`, one state per access.
    pub fn into_transport(self) -> (r: T)
        ensures
            r == self.transport_history().last(),
            self.transport_history().len() == self@.len() + 1,
    {
        self.bus.into_transport()
    }

    /// Reads register `reg` and records the read.
    fn read_register(&mut self, reg: u8) -> (r: Result<u8, ScdcError<T::Error>>)
        ensures
            match r {
                Ok(v) => final(self)@ == old(self)@.push(RegisterAccess::Read(reg, Ok(v))),
                Err(ScdcError::Transport(e)) => final(self)@ == old(self)@.push(
                    RegisterAccess::Read(reg, Err(e)),
                ),
                Err(ScdcError::Protocol(_)) => false,
            },
            history_extends(old(self).transport_history(), final(self).transport_history()),
            answered_since(old(self)@.len() as int, final(self)@, final(self).transport_history()),
    {
        proof {
            self.bus.lemma_history_len();
        }
        match self.bus.read_register(reg) {
            Ok(v) => Ok(v),
            Err(e) => Err(ScdcError::Transport(e)),
        }
    }

    /// Writes `value` to register `reg` and records the write.
    fn write_register(&mut self, reg: u8, value: u8) -> (r: Result<(), ScdcError<T::Error>>)
        ensures
            match r {
                Ok(()) => final(self)@ == old(self)@.push(RegisterAccess::Write(reg, value, Ok(()))),
                Err(ScdcError::Transport(e)) => final(self)@ == old(self)@.push(
                    RegisterAccess::Write(reg, value, Err(e)),
                ),
                Err(ScdcError::Protocol(_)) => false,
            },
            history_extends(old(self).transport_history(), final(self).transport_history()),
            answered_since(old(self)@.len() as int, final(self)@, final(self).transport_history()),
    {
        proof {
            self.bus.lemma_history_len();
        }
        match self.bus.write_register(reg, value) {
            Ok(u) => Ok(u),
            Err(e) => Err(ScdcError::Transport(e)),
        }
    }
}

} // verus!
