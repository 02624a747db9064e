//! Handles of operations that are in flight.
//!
//! A request ties a pending operation to the buffer that the operation
//! reads or writes: the buffer stays borrowed for as long as the request
//! lives, so nothing else can touch it before the operation has completed.
//! A request is spent by the call that reads its completion; it cannot be
//! asked again afterwards.

use vstd::prelude::*;
use crate::datatype::{Buffer, BufferMut, stored};
use crate::point_to_point::{Call, RawStatus, Status};
use crate::raw::{AsRaw, AsRawMut, RequestHandle};

verus! {

/// What the transport answers to a test of an operation that reads a
/// buffer or moves no data: the status once the operation has completed,
/// nothing before.
pub type Progress = Option<RawStatus>;

/// What the transport answers to a test of an operation that delivers data:
/// the payload and the status once the operation has completed, nothing
/// before.
pub type Arrival<T> = Option<(T, RawStatus)>;

/// Reads the transport's answer to a test of an operation that moves no
/// data into the caller's hands: the operation has completed where `flag`
/// is set, and then `status` is its status.
pub fn progress(flag: libc::c_int, status: RawStatus) -> (p: Progress)
    ensures
        p == if flag != 0 {
            Some(status)
        } else {
            None
        },
{
    if flag != 0 {
        Some(status)
    } else {
        None
    }
}

/// Reads the transport's answer to a test of an operation that delivers
/// data: the operation has completed where `flag` is set, and then
/// `brought` is what it delivered and `status` its status.
pub fn arrival<T>(flag: libc::c_int, brought: T, status: RawStatus) -> (a: Arrival<T>)
    ensures
        a == if flag != 0 {
            Some((brought, status))
        } else {
            None
        },
{
    if flag != 0 {
        Some((brought, status))
    } else {
        None
    }
}

/// What a buffer holds after an operation with `status` delivered `payload`
/// into it: a receive from the null process leaves it untouched.
pub open spec fn landed<T>(before: Seq<T>, payload: Seq<T>, status: RawStatus) -> Seq<T> {
    if status.source is NullProcess {
        before
    } else {
        stored(before, payload)
    }
}

/// Whether `payload` may be written into a buffer that holds `before`:
/// nothing is ever written past the end of a buffer.
pub open spec fn fits<T>(before: Seq<T>, payload: Seq<T>, status: RawStatus) -> bool {
    status.source is NullProcess || payload.len() <= before.len()
}

/// What a test makes of the transport's answer: what the completed
/// operation brought, or the request as it was.
pub open spec fn resolution<R, A>(request: R, answer: Option<A>) -> Result<A, R> {
    match answer {
        Some(brought) => Ok(brought),
        None => Err(request),
    }
}

/// A plain request without associated data
#[must_use]
#[derive(Debug, PartialEq, Eq)]
pub struct PlainRequest(pub RequestHandle);

impl PlainRequest {
    /// What waiting for this operation asks of the transport.
    pub fn wait_call(&self) -> (call: Call)
        ensures
            call == (Call::Wait { request: self.raw() }),
    {
        Call::Wait { request: self.0 }
    }

    /// What testing this operation asks of the transport.
    pub fn test_call(&self) -> (call: Call)
        ensures
            call == (Call::Test { request: self.raw() }),
    {
        Call::Test { request: self.0 }
    }

    /// The operation has completed with `status`: the request is spent.
    pub fn wait(self, status: RawStatus) -> (s: Status)
        ensures
            s@ == status,
    {
        Status::from_raw(status)
    }

    /// Reads the answer to a test.  Where the operation has completed, the
    /// request is spent and its status returned; where it has not, the
    /// request comes back unchanged.
    pub fn test(self, progress: Progress) -> (r: Result<Status, Self>)
        ensures
            r matches Ok(s) ==> resolution(self, progress) == Ok::<RawStatus, Self>(s@),
            r matches Err(back) ==> resolution(self, progress) == Err::<RawStatus, Self>(back),
    {
        match progress {
            Some(status) => Ok(Status::from_raw(status)),
            None => Err(self),
        }
    }
}

impl AsRaw for PlainRequest {
    type Raw = RequestHandle;

    open spec fn raw(&self) -> RequestHandle {
        self.0
    }

    fn as_raw(&self) -> (raw: RequestHandle) {
        self.0
    }
}

impl AsRawMut for PlainRequest {
    fn as_raw_mut(&mut self) -> (slot: &mut RequestHandle) {
        &mut self.0
    }
}

/// A request object for an operation that reads from a borrowed buffer.
#[must_use]
#[derive(Debug)]
pub struct ReadRequest<'b, Buf: 'b + Buffer + ?Sized> {
    request: RequestHandle,
    buf: &'b Buf,
}

impl<'b, Buf: 'b + Buffer + ?Sized> ReadRequest<'b, Buf> {
    /// The buffer that the operation reads, as contracts see it.
    pub closed spec fn buffer(&self) -> &'b Buf {
        self.buf
    }

    /// Ties the operation behind `request` to the buffer `buf` it reads.
    pub fn from_raw(request: RequestHandle, buf: &'b Buf) -> (r: Self)
        ensures
            r.raw() == request,
            r.buffer() == buf,
    {
        ReadRequest { request, buf }
    }

    /// What waiting for this operation asks of the transport.
    pub fn wait_call(&self) -> (call: Call)
        ensures
            call == (Call::Wait { request: self.raw() }),
    {
        Call::Wait { request: self.request }
    }

    /// What testing this operation asks of the transport.
    pub fn test_call(&self) -> (call: Call)
        ensures
            call == (Call::Test { request: self.raw() }),
    {
        Call::Test { request: self.request }
    }

    /// The operation has completed with `status`: the request is spent and
    /// the buffer is free again.
    pub fn wait(self, status: RawStatus) -> (s: Status)
        ensures
            s@ == status,
    {
        Status::from_raw(status)
    }

    /// Reads the answer to a test.  Where the operation has completed, the
    /// request is spent and its status returned; where it has not, the
    /// request comes back unchanged, the buffer still borrowed.
    pub fn test(self, progress: Progress) -> (r: Result<Status, Self>)
        ensures
            r matches Ok(s) ==> resolution(self, progress) == Ok::<RawStatus, Self>(s@),
            r matches Err(back) ==> resolution(self, progress) == Err::<RawStatus, Self>(back),
    {
        match progress {
            Some(status) => Ok(Status::from_raw(status)),
            None => Err(self),
        }
    }
}

impl<'b, Buf: 'b + Buffer + ?Sized> AsRaw for ReadRequest<'b, Buf> {
    type Raw = RequestHandle;

    closed spec fn raw(&self) -> RequestHandle {
        self.request
    }

    fn as_raw(&self) -> (raw: RequestHandle) {
        self.request
    }
}

/// A request object for an operation that writes into a borrowed buffer.
///
/// The buffer is reachable only through the request until the request is
/// spent; what was delivered is stored into it at that moment and not
/// before.
#[must_use]
#[derive(Debug)]
pub struct WriteRequest<'b, Buf: 'b + BufferMut + ?Sized> {
    /// The handle of the pending operation.
    pub request: RequestHandle,
    /// The buffer that the operation writes, borrowed until it completes.
    pub buf: &'b mut Buf,
}

impl<'b, Buf: 'b + BufferMut + ?Sized> WriteRequest<'b, Buf> {
    /// What the buffer holds while the operation is pending.
    pub open spec fn contents(&self) -> Seq<Buf::Elem> {
        self.buf.contents()
    }

    /// Ties the operation behind `request` to the buffer `buf` it writes.
    /// The buffer is as the request leaves it.
    pub fn from_raw(request: RequestHandle, buf: &'b mut Buf) -> (r: Self)
        ensures
            r.raw() == request,
            r.contents() == old(buf).contents(),
            final(buf).contents() == final(r.buf).contents(),
    {
        WriteRequest { request, buf }
    }

    /// What waiting for this operation asks of the transport.
    pub fn wait_call(&self) -> (call: Call)
        ensures
            call == (Call::Wait { request: self.raw() }),
    {
        Call::Wait { request: self.request }
    }

    /// What testing this operation asks of the transport.
    pub fn test_call(&self) -> (call: Call)
        ensures
            call == (Call::Test { request: self.raw() }),
    {
        Call::Test { request: self.request }
    }

    /// The operation has completed with `status` and delivered `payload`:
    /// the payload is stored, the request is spent and the buffer is free
    /// again.  A receive from the null process leaves the buffer untouched.
    pub fn wait(self, payload: Vec<Buf::Elem>, status: RawStatus) -> (s: Status)
        requires
            fits(self.contents(), payload@, status),
        ensures
            s@ == status,
            final(self.buf).contents() == landed(self.contents(), payload@, status),
    {
        match status.source {
            crate::topology::Rank::NullProcess => {},
            _ => {
                self.buf.store(payload);
            },
        }
        Status::from_raw(status)
    }

    /// Reads the answer to a test.  Where the operation has completed, it
    /// is finished as by `wait`; where it has not, the request comes back
    /// unchanged, the buffer untouched and still borrowed.
    pub fn test(self, arrival: Arrival<Vec<Buf::Elem>>) -> (r: Result<Status, Self>)
        requires
            arrival matches Some((payload, status)) ==> fits(self.contents(), payload@, status),
        ensures
            r matches Ok(s) ==> (resolution(self, arrival) matches Ok((payload, status))
                && s@ == status && final(self.buf).contents() == landed(
                self.contents(),
                payload@,
                status,
            )),
            r matches Err(back) ==> resolution(self, arrival) == Err::<
                (Vec<Buf::Elem>, RawStatus),
                Self,
            >(back),
    {
        match arrival {
            Some((payload, status)) => Ok(self.wait(payload, status)),
            None => Err(self),
        }
    }
}

impl<'b, Buf: 'b + BufferMut + ?Sized> AsRaw for WriteRequest<'b, Buf> {
    type Raw = RequestHandle;

    open spec fn raw(&self) -> RequestHandle {
        self.request
    }

    fn as_raw(&self) -> (raw: RequestHandle) {
        self.request
    }
}

} // verus!
