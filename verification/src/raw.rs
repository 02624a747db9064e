//! Bridge between the library's types and the opaque handles of the transport.

use vstd::prelude::*;

verus! {

/// Opaque handle of a communicator.
#[derive(Clone, Copy, Debug, PartialEq, Eq, Structural)]
pub struct CommHandle(pub usize);

/// Opaque handle of a process group.
#[derive(Clone, Copy, Debug, PartialEq, Eq, Structural)]
pub struct GroupHandle(pub usize);

/// Opaque handle of a reduction operation.
#[derive(Clone, Copy, Debug, PartialEq, Eq, Structural)]
pub struct OpHandle(pub usize);

/// Descriptor of a datatype: the transport's handle for it and the number of
/// bytes that one element occupies in a message.
#[derive(Clone, Copy, Debug, PartialEq, Eq, Structural)]
pub struct DatatypeHandle {
    pub id: usize,
    pub size: usize,
}

/// Opaque handle of a non-blocking operation.
#[derive(Clone, Copy, Debug, PartialEq, Eq, Structural)]
pub struct RequestHandle(pub usize);

/// Handle of a message that a matched probe has reserved.
///
/// `NoProc` is what probing the null process yields; `Null` is what a
/// matched receive leaves behind.
#[derive(Clone, Copy, Debug, PartialEq, Eq, Structural)]
pub enum MessageHandle {
    Null,
    NoProc,
    Reserved(usize),
}

/// A type that can identify as a raw value understood by the transport.
pub trait AsRaw {
    /// The raw handle type.
    type Raw;

    /// The raw value, as contracts see it.
    spec fn raw(&self) -> Self::Raw;

    /// The raw value.
    fn as_raw(&self) -> (raw: Self::Raw)
        ensures
            raw == self.raw(),
    ;
}

impl<'a, T: 'a + AsRaw> AsRaw for &'a T {
    type Raw = <T as AsRaw>::Raw;

    open spec fn raw(&self) -> Self::Raw {
        (**self).raw()
    }

    fn as_raw(&self) -> (raw: Self::Raw) {
        (*self).as_raw()
    }
}

/// A type that can lend out its raw value for the transport to overwrite.
pub trait AsRawMut: AsRaw {
    /// A mutable reference to the raw value.  Whatever is written through it
    /// is the raw value afterwards.
    fn as_raw_mut(&mut self) -> (slot: &mut <Self as AsRaw>::Raw)
        ensures
            *slot == old(self).raw(),
            final(self).raw() == *final(slot),
    ;
}

/// A type that can identify as a communicator handle.
pub trait RawCommunicator: AsRaw<Raw = CommHandle> {
}

impl<T> RawCommunicator for T where T: AsRaw<Raw = CommHandle> {
}

/// A type that can identify as a group handle.
pub trait RawGroup: AsRaw<Raw = GroupHandle> {
}

impl<T> RawGroup for T where T: AsRaw<Raw = GroupHandle> {
}

/// A type that can identify as a datatype descriptor.
pub trait RawDatatype: AsRaw<Raw = DatatypeHandle> {
}

impl<T> RawDatatype for T where T: AsRaw<Raw = DatatypeHandle> {
}

/// A type that can identify as a request handle.
pub trait RawRequest: AsRaw<Raw = RequestHandle> + AsRawMut {
}

impl<T> RawRequest for T where T: AsRaw<Raw = RequestHandle> + AsRawMut {
}

/// A type that can identify as an operation handle.
pub trait RawOperation: AsRaw<Raw = OpHandle> {
}

impl<T> RawOperation for T where T: AsRaw<Raw = OpHandle> {
}

impl AsRaw for DatatypeHandle {
    type Raw = DatatypeHandle;

    open spec fn raw(&self) -> DatatypeHandle {
        *self
    }

    fn as_raw(&self) -> (raw: DatatypeHandle) {
        *self
    }
}

} // verus!
