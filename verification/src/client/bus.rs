//! The one place where the client touches its transport.
//!
//! [`LoggedBus`] owns the transport together with a ghost log of the accesses made,
//! each with the transport's state just before it. Its fields are private to this module, so every
//! transport call in the crate goes through [`LoggedBus::read_register`] or
//! [`LoggedBus::write_register`]. Each of them proves that the access it records is the
//! call it made: the transport, in the recorded state, was called with the recorded
//! register (and value) and gave the recorded answer ([`access_answered`]). The call is
//! made through the transport method as a function value, so that Verus keeps that
//! call's arguments and result.
use vstd::prelude::*;

use super::{access_answered, history_extends, RegisterAccess, ScdcBus};

verus! {

/// A transport with the record of every access made through it: each access is kept
/// with the state the transport was in just before it.
pub struct LoggedBus<T: ScdcBus> {
    transport: T,
    entries: Ghost<Seq<(RegisterAccess<T::Error>, T)>>,
}

impl<T: ScdcBus> LoggedBus<T> {
    /// The accesses made, oldest first.
    pub closed spec fn log(&self) -> Seq<RegisterAccess<T::Error>> {
        self.entries@.map_values(|e: (RegisterAccess<T::Error>, T)| e.0)
    }

    /// The transport's states: its state before each access, oldest first, then the
    /// state it is in now.
    pub closed spec fn history(&self) -> Seq<T> {
        self.entries@.map_values(|e: (RegisterAccess<T::Error>, T)| e.1).push(self.transport)
    }

    /// The history holds one state before each access, then the current one.
    pub proof fn lemma_history_len(&self)
        ensures
            self.history().len() == self.log().len() + 1,
    {
    }

    pub(crate) fn new(transport: T) -> (r: Self)
        ensures
            r.log() == Seq::<RegisterAccess<T::Error>>::empty(),
            r.history() == Seq::<T>::empty().push(transport),
    {
        let r = LoggedBus { transport, entries: Ghost(Seq::empty()) };
        assert(r.log() =~= Seq::<RegisterAccess<T::Error>>::empty());
        assert(r.history() =~= Seq::<T>::empty().push(r.transport));
        r
    }

    pub(crate) fn into_transport(self) -> (r: T)
        ensures
            r == self.history().last(),
            self.history().len() == self.log().len() + 1,
    {
        self.transport
    }

    /// Reads register `reg`, recording the read and its outcome.
    pub(crate) fn read_register(&mut self, reg: u8) -> (r: Result<u8, T::Error>)
        ensures
            final(self).log() == old(self).log().push(RegisterAccess::Read(reg, r)),
            final(self).history().len() == old(self).history().len() + 1,
            history_extends(old(self).history(), final(self).history()),
            access_answered(
                RegisterAccess::Read(reg, r),
                old(self).history().last(),
            ),
    {
        let ghost before = self.transport;
        let read = T::read;
        let r = read(&mut self.transport, reg);
        proof {
            let old_entries = self.entries@;
            self.entries@ = self.entries@.push((RegisterAccess::Read(reg, r), before));
            assert(self.log() =~= old_entries.map_values(|e: (RegisterAccess<T::Error>, T)| e.0).push(
                RegisterAccess::Read(reg, r),
            ));
            assert(self.history() =~= old_entries.map_values(
                |e: (RegisterAccess<T::Error>, T)| e.1,
            ).push(before).push(self.transport));
        }
        r
    }

    /// Writes `value` to register `reg`, recording the write and its outcome.
    pub(crate) fn write_register(&mut self, reg: u8, value: u8) -> (r: Result<(), T::Error>)
        ensures
            final(self).log() == old(self).log().push(RegisterAccess::Write(reg, value, r)),
            final(self).history().len() == old(self).history().len() + 1,
            history_extends(old(self).history(), final(self).history()),
            access_answered(
                RegisterAccess::Write(reg, value, r),
                old(self).history().last(),
            ),
    {
        let ghost before = self.transport;
        let write = T::write;
        let r = write(&mut self.transport, reg, value);
        proof {
            let old_entries = self.entries@;
            self.entries@ = self.entries@.push((RegisterAccess::Write(reg, value, r), before));
            assert(self.log() =~= old_entries.map_values(|e: (RegisterAccess<T::Error>, T)| e.0).push(
                RegisterAccess::Write(reg, value, r),
            ));
            assert(self.history() =~= old_entries.map_values(
                |e: (RegisterAccess<T::Error>, T)| e.1,
            ).push(before).push(self.transport));
        }
        r
    }
}

} // verus!
