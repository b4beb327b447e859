//! A cooperative-yield adapter for peripheral drivers.
//!
//! [`YieldingAsync`] wraps a driver (an I2C bus, a SPI bus, a NOR flash
//! device) and owns it exclusively.  Every operation is forwarded to the
//! wrapped driver unchanged; after a successful operation the calling task
//! yields control to the cooperative scheduler exactly once, so that a long
//! run of back-to-back peripheral operations cannot monopolize a
//! single-threaded executor.  An erase request wider than the driver's erase
//! granularity is split into consecutive sub-ranges, one driver call and one
//! yield per sub-range.
//!
//! The decision logic lives here, verified: which result is returned
//! ([`policy`]), when a yield is due ([`policy`]), and how an erase range is
//! partitioned and aborted on failure ([`erase`]).  The surrounding async
//! glue — awaiting the driver and suspending at the yield point — is plain
//! code that consults these functions.

use vstd::prelude::*;

pub mod erase;
pub mod policy;

verus! {

/// Wrapper that yields for each operation forwarded to the wrapped driver.
///
/// Holds exclusive ownership of exactly one wrapped driver value and no
/// other state.  The wrapped driver can be recovered only by consuming the
/// adapter with [`YieldingAsync::into_inner`].
pub struct YieldingAsync<T> {
    wrapped: T,
}

impl<T> YieldingAsync<T> {
    /// The wrapped driver value, for use in contracts.
    pub closed spec fn inner(self) -> T {
        self.wrapped
    }

    /// Create a new instance of a wrapper that yields after each operation.
    ///
    /// Takes ownership of the driver; any value is accepted.
    pub fn new(wrapped: T) -> (r: Self)
        ensures
            r.inner() == wrapped,
    {
        YieldingAsync { wrapped }
    }

    /// Consume the adapter and hand the wrapped driver back, unchanged.
    pub fn into_inner(self) -> (r: T)
        ensures
            r == self.inner(),
    {
        self.wrapped
    }

    /// Shared access to the wrapped driver, for the non-mutating queries
    /// that are forwarded without a yield point.
    pub fn inner_ref(&self) -> (r: &T)
        ensures
            *r == self.inner(),
    {
        &self.wrapped
    }

    /// Mutable access to the wrapped driver, for the glue that forwards an
    /// operation to it: the borrow starts at the wrapped driver's current
    /// value, and whatever the operation leaves behind is the wrapped
    /// driver's new value — the adapter holds no other state.
    pub fn inner_mut(&mut self) -> (r: &mut T)
        ensures
            *r == old(self).inner(),
            final(self).inner() == *final(r),
    {
        &mut self.wrapped
    }
}

} // verus!
