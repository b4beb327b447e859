//! The adapter's per-operation decisions: the forwarded result is handed
//! back to the caller unchanged, and a yield point follows exactly when the
//! operation succeeded and its kind is one that yields.

use vstd::prelude::*;

verus! {

/// The operations the adapter forwards, one per method of the supported
/// capability sets: two-wire bus, four-wire bus, and byte-addressable
/// non-volatile storage (where an erase request is forwarded one sub-range
/// at a time, see [`crate::erase`]).
#[derive(Clone, Copy, PartialEq, Eq, Debug)]
pub enum OpKind {
    I2cRead,
    I2cWrite,
    I2cWriteRead,
    I2cTransaction,
    SpiTransfer,
    SpiTransferInPlace,
    SpiFlush,
    SpiWrite,
    SpiRead,
    StorageRead,
    StorageCapacity,
    StorageWrite,
    StorageEraseChunk,
}

/// Whether a successful operation of this kind is followed by a yield
/// point.  Non-mutating storage operations (reading bytes, querying the
/// capacity) are assumed not to be long-running and are forwarded without
/// one; every other operation, bus reads included, yields after success.
pub open spec fn yields_after_success(kind: OpKind) -> bool {
    !(kind is StorageRead || kind is StorageCapacity)
}

/// Decide what the adapter does once the wrapped driver has completed an
/// operation of the given kind with the given result.
///
/// The first component is the result handed back to the adapter's caller:
/// always the wrapped driver's own result, success or failure, unchanged.
/// The second is whether the calling task yields before returning it: true
/// exactly when the operation succeeded and its kind yields, so a failure
/// never yields, and a success of a yielding kind yields exactly once.
pub fn complete_op<V, E>(kind: OpKind, result: Result<V, E>) -> (out: (Result<V, E>, bool))
    ensures
        out.0 == result,
        out.1 == (result is Ok && yields_after_success(kind)),
{
    let kind_yields = match kind {
        OpKind::StorageRead | OpKind::StorageCapacity => false,
        _ => true,
    };
    let yields = result.is_ok() && kind_yields;
    (result, yields)
}

} // verus!
