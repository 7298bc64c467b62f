//! Abstract two-wire bus transport: the capability the driver depends on,
//! together with a ghost model of the transactions a transport has issued.

use vstd::prelude::*;

verus! {

/// One bus transaction, as recorded in a transport's ghost history. Every
/// attempt is recorded, whether or not it succeeded; `ok` tells which.
pub enum BusOp {
    /// A plain write transaction: `data` sent to the device at `addr`.
    Write { addr: u8, data: Seq<u8>, ok: bool },
    /// A combined write-then-read transaction: `data` sent to the device at
    /// `addr`, then `response` read back in the same transaction.
    WriteRead { addr: u8, data: Seq<u8>, response: Seq<u8>, ok: bool },
}

/// A transport's ghost transaction history, oldest first.
pub type BusHistory = Seq<BusOp>;

/// Whether a recorded transaction succeeded.
pub open spec fn op_ok(op: BusOp) -> bool {
    match op {
        BusOp::Write { ok, .. } => ok,
        BusOp::WriteRead { ok, .. } => ok,
    }
}

/// A blocking two-wire bus transport. The driver is polymorphic over this
/// capability; a hardware bus or a test double provides the two operations.
///
/// `history` is the ghost sequence of transactions the transport has issued,
/// oldest first. Each operation appends exactly one entry, recording the
/// failed attempts too, so a caller's contract can pin down both the order of
/// the transactions it issues and where it stops on the first failure.
pub trait Bus {
    /// The transport's opaque bus-error value, propagated unchanged.
    type Error;

    /// The transactions this transport has issued so far, oldest first.
    spec fn history(&self) -> BusHistory;

    /// Issues one write transaction of `bytes` to the device at `addr`.
    fn write(&mut self, addr: u8, bytes: &[u8]) -> (r: Result<(), Self::Error>)
        ensures
            final(self).history() == old(self).history().push(
                (BusOp::Write { addr, data: bytes@, ok: r is Ok }),
            ),
    ;

    /// Issues one combined transaction to the device at `addr`: writes
    /// `bytes`, then reads exactly `buf.len()` bytes back into `buf`.
    fn write_read(&mut self, addr: u8, bytes: &[u8], buf: &mut [u8]) -> (r: Result<
        (),
        Self::Error,
    >)
        ensures
            final(buf)@.len() == old(buf)@.len(),
            final(self).history() == old(self).history().push(
                (BusOp::WriteRead { addr, data: bytes@, response: final(buf)@, ok: r is Ok }),
            ),
    ;
}

} // verus!
