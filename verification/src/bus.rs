//! The register-read transaction and the record the driver keeps of it.

use vstd::prelude::*;

verus! {

/// How a transaction ended, as a record keeps it: the bytes of the
/// buffer, or the error.
pub open spec fn outcome_of<E, const N: usize>(r: Result<[u8; N], E>) -> Result<Seq<u8>, E> {
    match r {
        Ok(buf) => Ok(buf@),
        Err(e) => Err(e),
    }
}

/// The bus transaction the driver consumes: write one register address
/// to the device at `address`, then read `N` bytes back, as a single
/// operation on the bus. What the device answers, and whether the bus
/// fails, is for the implementation to say; the driver forwards both.
pub trait RegisterBus {
    /// The error of the transport.
    type Error;

    /// What one transaction does on this bus: it takes the bus from
    /// `self` to `post` and ends with `outcome`. Each bus may say for
    /// itself what its transactions are; one that says nothing allows
    /// every outcome. The driver states each of its reads as one such
    /// transaction, and concludes nothing from what a transaction is.
    open spec fn transacts(
        &self,
        address: u8,
        register: u8,
        post: &Self,
        outcome: Result<Seq<u8>, Self::Error>,
    ) -> bool {
        true
    }

    /// Writes `register` to the device at `address` and reads `N` bytes.
    fn write_read<const N: usize>(&mut self, address: u8, register: u8) -> (r: Result<
        [u8; N],
        Self::Error,
    >)
        ensures
            old(self).transacts(address, register, final(self), outcome_of(r)),
    ;
}

/// A borrowed bus is a bus: a driver can work on a bus it does not own,
/// so that the owner can hand the bus to another driver afterwards. A
/// transaction on the borrowed bus is that transaction on the bus
/// itself: it changes the bus as the bus's own transaction does and ends
/// as that one ends.
impl<T: RegisterBus> RegisterBus for &mut T {
    type Error = T::Error;

    open spec fn transacts(
        &self,
        address: u8,
        register: u8,
        post: &Self,
        outcome: Result<Seq<u8>, Self::Error>,
    ) -> bool {
        (**self).transacts(address, register, &**post, outcome)
    }

    fn write_read<const N: usize>(&mut self, address: u8, register: u8) -> (r: Result<
        [u8; N],
        Self::Error,
    >) {
        (**self).write_read::<N>(address, register)
    }
}

/// One register read as the driver issued it: the device address, the
/// register the read started at, the number of bytes asked for, and how
/// it ended, with the bytes the device answered or with the error of
/// the bus.
pub ghost struct BusRead<E> {
    pub address: u8,
    pub register: u8,
    pub len: nat,
    pub outcome: Result<Seq<u8>, E>,
}

impl<E> BusRead<E> {
    /// This read asked the device at `address` for `len` bytes starting
    /// at `register`, and the answer, if there is one, has that length.
    pub open spec fn targets(self, address: u8, register: int, len: nat) -> bool {
        &&& self.address == address
        &&& self.register == register
        &&& self.len == len
        &&& (self.outcome matches Ok(d) ==> d.len() == len)
    }

    /// The bus failed on this read.
    pub open spec fn failed(self) -> bool {
        self.outcome is Err
    }

    /// The bytes the device answered this read with.
    pub open spec fn answer(self) -> Seq<u8>
        recommends
            !self.failed(),
    {
        self.outcome->Ok_0
    }
}

} // verus!
