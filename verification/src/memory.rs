//! Access to the memory of a target.

use vstd::prelude::*;
use crate::error::Error;

verus! {

/// Reading and writing the memory of a target, by word or by byte, one at a
/// time or in bulk.
///
/// What a read returns is up to the target: its memory changes under the
/// running program, and a peripheral register need not read back what was
/// written. So this trait does not say which values an access moves. It
/// leaves that to the implementation: beside each method stands a relation
/// with the method's name and `_outcome`, in which the implementation says
/// what the access may do, from the interface before the call and the
/// arguments to the interface after it and the result. An implementation that
/// has nothing to say leaves a relation as it is here, true of every outcome.
/// Whoever hands an access on to another interface states its own relation as
/// that of the other, and is held to it.
///
/// Of every implementation the trait asks that a failure is one of the
/// probe, and that a bulk read keeps the length of the buffer it fills.
pub trait MemoryInterface {
    /// What reading the 32 bit word at `address` may give.
    open spec fn read_word_32_outcome(
        &self,
        address: u32,
        after: &Self,
        word: Result<u32, Error>,
    ) -> bool {
        true
    }

    /// What reading the byte at `address` may give.
    open spec fn read_word_8_outcome(
        &self,
        address: u32,
        after: &Self,
        byte: Result<u8, Error>,
    ) -> bool {
        true
    }

    /// What reading 32 bit words from `address` on may make of the buffer,
    /// which held `given` and holds `filled` afterwards.
    open spec fn read_32_outcome(
        &self,
        address: u32,
        given: Seq<u32>,
        after: &Self,
        filled: Seq<u32>,
        done: Result<(), Error>,
    ) -> bool {
        true
    }

    /// What reading bytes from `address` on may make of the buffer, which
    /// held `given` and holds `filled` afterwards.
    open spec fn read_8_outcome(
        &self,
        address: u32,
        given: Seq<u8>,
        after: &Self,
        filled: Seq<u8>,
        done: Result<(), Error>,
    ) -> bool {
        true
    }

    /// What writing the 32 bit word `data` at `addr` may do.
    open spec fn write_word_32_outcome(
        &self,
        addr: u32,
        data: u32,
        after: &Self,
        done: Result<(), Error>,
    ) -> bool {
        true
    }

    /// What writing the byte `data` at `addr` may do.
    open spec fn write_word_8_outcome(
        &self,
        addr: u32,
        data: u8,
        after: &Self,
        done: Result<(), Error>,
    ) -> bool {
        true
    }

    /// What writing the 32 bit words `data` from `addr` on may do.
    open spec fn write_32_outcome(
        &self,
        addr: u32,
        data: Seq<u32>,
        after: &Self,
        done: Result<(), Error>,
    ) -> bool {
        true
    }

    /// What writing the bytes `data` from `addr` on may do.
    open spec fn write_8_outcome(
        &self,
        addr: u32,
        data: Seq<u8>,
        after: &Self,
        done: Result<(), Error>,
    ) -> bool {
        true
    }

    /// What flushing the writes may do.
    open spec fn flush_outcome(&self, after: &Self, done: Result<(), Error>) -> bool {
        true
    }

    /// Reads the 32 bit word at `address`.
    fn read_word_32(&mut self, address: u32) -> (word: Result<u32, Error>)
        ensures
            old(self).read_word_32_outcome(address, final(self), word),
            word matches Err(e) ==> e.is_probe_failure(),
    ;

    /// Reads the byte at `address`.
    fn read_word_8(&mut self, address: u32) -> (byte: Result<u8, Error>)
        ensures
            old(self).read_word_8_outcome(address, final(self), byte),
            byte matches Err(e) ==> e.is_probe_failure(),
    ;

    /// Fills `data` with the 32 bit words that start at `address`.
    fn read_32(&mut self, address: u32, data: &mut [u32]) -> (done: Result<(), Error>)
        ensures
            old(self).read_32_outcome(address, old(data)@, final(self), final(data)@, done),
            final(data)@.len() == old(data)@.len(),
            done matches Err(e) ==> e.is_probe_failure(),
    ;

    /// Fills `data` with the bytes that start at `address`.
    fn read_8(&mut self, address: u32, data: &mut [u8]) -> (done: Result<(), Error>)
        ensures
            old(self).read_8_outcome(address, old(data)@, final(self), final(data)@, done),
            final(data)@.len() == old(data)@.len(),
            done matches Err(e) ==> e.is_probe_failure(),
    ;

    /// Writes the 32 bit word `data` at `addr`.
    fn write_word_32(&mut self, addr: u32, data: u32) -> (done: Result<(), Error>)
        ensures
            old(self).write_word_32_outcome(addr, data, final(self), done),
            done matches Err(e) ==> e.is_probe_failure(),
    ;

    /// Writes the byte `data` at `addr`.
    fn write_word_8(&mut self, addr: u32, data: u8) -> (done: Result<(), Error>)
        ensures
            old(self).write_word_8_outcome(addr, data, final(self), done),
            done matches Err(e) ==> e.is_probe_failure(),
    ;

    /// Writes the 32 bit words of `data` from `addr` on.
    fn write_32(&mut self, addr: u32, data: &[u32]) -> (done: Result<(), Error>)
        ensures
            old(self).write_32_outcome(addr, data@, final(self), done),
            done matches Err(e) ==> e.is_probe_failure(),
    ;

    /// Writes the bytes of `data` from `addr` on.
    fn write_8(&mut self, addr: u32, data: &[u8]) -> (done: Result<(), Error>)
        ensures
            old(self).write_8_outcome(addr, data@, final(self), done),
            done matches Err(e) ==> e.is_probe_failure(),
    ;

    /// Makes sure that every write so far has reached the target.
    fn flush(&mut self) -> (done: Result<(), Error>)
        ensures
            old(self).flush_outcome(final(self), done),
            done matches Err(e) ==> e.is_probe_failure(),
    ;
}

} // verus!
