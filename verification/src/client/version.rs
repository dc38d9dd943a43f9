use vstd::prelude::*;

use crate::address::{SINK_VERSION, SOURCE_VERSION};
use crate::error::ScdcError;

use super::{answered_since, lemma_answered_since_append, history_extends, RegisterAccess, Scdc, ScdcBus};

verus! {

impl<T: ScdcBus> Scdc<T> {
    /// Reads the sink's SCDC protocol version from `Sink_Version` (0x01).
    ///
    /// Makes exactly one access, a read of `Sink_Version`, and returns the value read,
    /// or the transport's error.
    pub fn read_sink_version(&mut self) -> (r: Result<u8, ScdcError<T::Error>>)
        ensures
            match r {
                Ok(v) => final(self)@ == old(self)@.push(RegisterAccess::Read(SINK_VERSION, Ok(v))),
                Err(ScdcError::Transport(e)) => final(self)@ == old(self)@.push(
                    RegisterAccess::Read(SINK_VERSION, Err(e)),
                ),
                Err(ScdcError::Protocol(_)) => false,
            },
            history_extends(old(self).transport_history(), final(self).transport_history()),
            answered_since(old(self)@.len() as int, final(self)@, final(self).transport_history()),
    {
        self.read_register(SINK_VERSION)
    }

    /// Writes the source's SCDC protocol version to `Source_Version` (0x02).
    ///
    /// Makes exactly one access, a write of `version` to `Source_Version`, and returns
    /// the transport's answer.
    pub fn write_source_version(&mut self, version: u8) -> (r: Result<(), ScdcError<T::Error>>)
        ensures
            match r {
                Ok(()) => final(self)@ == old(self)@.push(
                    RegisterAccess::Write(SOURCE_VERSION, version, Ok(())),
                ),
                Err(ScdcError::Transport(e)) => final(self)@ == old(self)@.push(
                    RegisterAccess::Write(SOURCE_VERSION, version, Err(e)),
                ),
                Err(ScdcError::Protocol(_)) => false,
            },
            history_extends(old(self).transport_history(), final(self).transport_history()),
            answered_since(old(self)@.len() as int, final(self)@, final(self).transport_history()),
    {
        self.write_register(SOURCE_VERSION, version)
    }
}

} // verus!
