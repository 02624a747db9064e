//! Point to point communication
//!
//! Endpoints of communication are described by types that implement the
//! `Source` and `Destination` traits.  Communication operations are traits
//! with blanket implementations for these two.

use vstd::prelude::*;
use conv::ConvUtil;
use conv::errors::NegOverflow;
use crate::{Error, Tag, SUCCESS};
use crate::datatype::{Buffer, BufferMut, Count, EquivalentDatatype, max_count, stored};
use crate::raw::{AsRaw, AsRawMut, CommHandle, DatatypeHandle, MessageHandle, RawCommunicator, RawDatatype, RequestHandle};
use crate::request::{Arrival, PlainRequest, ReadRequest, WriteRequest, resolution};
use crate::topology::{Identifier, Rank, SystemCommunicator};
use core::marker::PhantomData;

pub mod laws;

verus! {

/// How a send is to be delivered.
#[derive(Clone, Copy, Debug, PartialEq, Eq, Structural)]
pub enum SendMode {
    /// May complete before a matching receive was posted.
    Standard,
    /// Completes from buffer space that the caller attached beforehand.
    Buffered,
    /// Completes only once the matching receive has started.
    Synchronous,
    /// The caller vouches that the matching receive is already posted.
    Ready,
}

/// The shape of a buffer: how many elements of which datatype.
#[derive(Clone, Copy, Debug, PartialEq, Eq, Structural)]
pub struct Layout {
    pub count: Count,
    pub datatype: DatatypeHandle,
}

/// One request to the transport.
#[derive(Clone, Copy, Debug, PartialEq, Eq, Structural)]
pub enum Call {
    /// Send the buffer of shape `layout` to `destination`.  An immediate
    /// send returns a request handle instead of blocking.
    Send { mode: SendMode, immediate: bool, layout: Layout, destination: Rank, tag: Tag, comm: CommHandle },
    /// Receive a message from `source` into a buffer of shape `layout`.
    Receive { immediate: bool, layout: Layout, source: Rank, tag: Tag, comm: CommHandle },
    /// Look for a pending message from `source`.  A matched probe reserves
    /// the message it finds; an immediate probe does not wait for one.
    Probe { matched: bool, immediate: bool, source: Rank, tag: Tag, comm: CommHandle },
    /// Receive the reserved message `message` into a buffer of shape `layout`.
    MatchedReceive { immediate: bool, layout: Layout, message: MessageHandle },
    /// Send to `destination` and receive from `source` in one operation.
    SendReceive {
        send: Layout,
        destination: Rank,
        sendtag: Tag,
        receive: Layout,
        source: Rank,
        receivetag: Tag,
        comm: CommHandle,
    },
    /// Send a buffer to `destination` and overwrite it with what `source` sent.
    SendReceiveReplace {
        layout: Layout,
        destination: Rank,
        sendtag: Tag,
        source: Rank,
        receivetag: Tag,
        comm: CommHandle,
    },
    /// Block until the operation behind `request` has completed.
    Wait { request: RequestHandle },
    /// Ask whether the operation behind `request` has completed.
    Test { request: RequestHandle },
}

/// What an operation needs next: nothing, because its outcome is already
/// known, or an answer of the transport to a call.
#[derive(Debug, PartialEq, Eq)]
pub enum Step<T> {
    Done(T),
    Ask(Call),
}

/// The count that stands for "not a whole number of elements".
pub const UNDEFINED: Count = -32766;

/// The plain values of a completed receive or probe, as the transport
/// reports them.
#[derive(Clone, Copy, Debug, PartialEq, Eq, Structural)]
pub struct RawStatus {
    /// Who sent the message.
    pub source: Rank,
    /// The label of the message.
    pub tag: Tag,
    /// The error code of the operation.
    pub error: Error,
    /// The length of the message in bytes.
    pub bytes: usize,
}

/// How many elements of `size` bytes a message of `bytes` bytes holds:
/// `UNDEFINED` where it is no whole number of elements or more than a
/// `Count` can express.
pub open spec fn element_count(bytes: int, size: int) -> int {
    if size == 0 {
        if bytes == 0 {
            0
        } else {
            UNDEFINED as int
        }
    } else if bytes % size == 0 && bytes / size <= max_count() {
        bytes / size
    } else {
        UNDEFINED as int
    }
}

/// What the transport reports of every operation on the null process: no
/// sender, no label, no error, no data.
pub open spec fn null_status() -> RawStatus {
    RawStatus { source: Rank::NullProcess, tag: Tag::Any, error: SUCCESS, bytes: 0 }
}

/// Describes the result of a point to point receive operation.
#[derive(Clone, Copy, Debug, PartialEq, Eq)]
pub struct Status(RawStatus);

impl Status {
    /// The plain values of the status.
    pub closed spec fn view(&self) -> RawStatus {
        self.0
    }

    /// Construct a `Status` value from the raw values.
    pub fn from_raw(status: RawStatus) -> (s: Status)
        ensures
            s@ == status,
    {
        Status(status)
    }

    /// The status of an operation on the null process.
    pub fn null_process() -> (s: Status)
        ensures
            s@ == null_status(),
    {
        Status(RawStatus { source: Rank::NullProcess, tag: Tag::Any, error: SUCCESS, bytes: 0 })
    }

    /// The rank of the message source
    pub fn source_rank(&self) -> (r: Rank)
        ensures
            r == self@.source,
    {
        self.0.source
    }

    /// The message tag
    pub fn tag(&self) -> (t: Tag)
        ensures
            t == self@.tag,
    {
        self.0.tag
    }

    /// An error code
    pub fn error(&self) -> (e: Error)
        ensures
            e == self@.error,
    {
        self.0.error
    }

    /// Number of instances of the type contained in the message
    pub fn count<D: RawDatatype>(&self, d: D) -> (n: Count)
        ensures
            n == element_count(self@.bytes as int, d.raw().size as int),
    {
        let size = d.as_raw().size;
        let bytes = self.0.bytes;
        if size == 0 {
            if bytes == 0 {
                0
            } else {
                UNDEFINED
            }
        } else if bytes % size == 0 && bytes / size <= 0x7fff_ffff {
            (bytes / size) as Count
        } else {
            UNDEFINED
        }
    }
}

/// Something that can be used as the source in a point to point receive operation
///
/// # Examples
///
/// - An `Identifier` used as a source for a receive operation will receive data only from the
/// identified process.
/// - A communicator can also be used as a source. The receive operation will receive data from
/// any process in the communicator.
pub trait Source: RawCommunicator {
    /// The peer to receive from, as contracts see it.
    spec fn source(&self) -> Rank;

    /// `Rank` that identifies the source
    fn source_rank(&self) -> (r: Rank)
        ensures
            r == self.source(),
    ;
}

impl Source for SystemCommunicator {
    open spec fn source(&self) -> Rank {
        Rank::AnySource
    }

    fn source_rank(&self) -> (r: Rank) {
        Rank::AnySource
    }
}

impl<'a, C: 'a + RawCommunicator> Source for Identifier<'a, C> {
    open spec fn source(&self) -> Rank {
        self.peer()
    }

    fn source_rank(&self) -> (r: Rank) {
        self.rank()
    }
}

/// Something that can be used as the destination in a point to point send operation
///
/// # Examples
/// - Using an `Identifier` as the destination will send data to that specific process.
pub trait Destination: RawCommunicator {
    /// The peer to send to, as contracts see it.
    spec fn destination(&self) -> Rank;

    /// `Rank` that identifies the destination.  A destination is one
    /// process or the null process, never a wildcard.
    fn destination_rank(&self) -> (r: Rank)
        ensures
            r == self.destination(),
            r !is AnySource,
    ;
}

impl<'a, C: 'a + RawCommunicator> Destination for Identifier<'a, C> {
    open spec fn destination(&self) -> Rank {
        self.peer()
    }

    fn destination_rank(&self) -> (r: Rank) {
        self.rank()
    }
}

/// The shape of `buf`, as contracts see it.
pub open spec fn layout_of<Buf: Buffer + ?Sized>(buf: &Buf) -> Layout {
    Layout {
        count: buf.contents().len() as Count,
        datatype: <Buf::Elem as EquivalentDatatype>::descriptor(),
    }
}

/// The shape of a buffer that holds one `Msg`.
pub open spec fn single<Msg: EquivalentDatatype>() -> Layout {
    Layout { count: 1, datatype: Msg::descriptor() }
}

/// What a blocking send in `mode` asks of the transport: nothing where the
/// destination is the null process, else one send of the buffer as it is.
pub open spec fn send_step(
    mode: SendMode,
    layout: Layout,
    destination: Rank,
    tag: Tag,
    comm: CommHandle,
) -> Step<()> {
    if destination is NullProcess {
        Step::Done(())
    } else {
        Step::Ask(Call::Send { mode, immediate: false, layout, destination, tag, comm })
    }
}

/// What an immediate send in `mode` asks of the transport.
pub open spec fn immediate_send_call(
    mode: SendMode,
    layout: Layout,
    destination: Rank,
    tag: Tag,
    comm: CommHandle,
) -> Call {
    Call::Send { mode, immediate: true, layout, destination, tag, comm }
}

fn shape<Buf: Buffer + ?Sized>(buf: &Buf) -> (layout: Layout)
    requires
        buf.contents().len() <= max_count(),
    ensures
        layout == layout_of(buf),
{
    Layout { count: buf.count(), datatype: buf.datatype() }
}

fn blocking_send<Dest: Destination, Buf: Buffer + ?Sized>(
    mode: SendMode,
    dest: &Dest,
    buf: &Buf,
    tag: Tag,
) -> (step: Step<()>)
    requires
        buf.contents().len() <= max_count(),
    ensures
        step == send_step(mode, layout_of(buf), dest.destination(), tag, dest.raw()),
{
    let destination = dest.destination_rank();
    match destination {
        Rank::NullProcess => Step::Done(()),
        _ => Step::Ask(
            Call::Send {
                mode,
                immediate: false,
                layout: shape(buf),
                destination,
                tag,
                comm: dest.as_raw(),
            },
        ),
    }
}

/// Blocking standard mode send operation
pub trait Send: Destination {
    /// Send the contents of a `Buffer` to the `Destination` `&self` and tag it.
    fn send_with_tag<Buf: Buffer + ?Sized>(&self, buf: &Buf, tag: Tag) -> (step: Step<()>)
        requires
            buf.contents().len() <= max_count(),
        ensures
            step == send_step(
                SendMode::Standard,
                layout_of(buf),
                self.destination(),
                tag,
                self.raw(),
            ),
    ;

    /// Send the contents of a `Buffer` to the `Destination` `&self`.
    fn send<Buf: Buffer + ?Sized>(&self, buf: &Buf) -> (step: Step<()>)
        requires
            buf.contents().len() <= max_count(),
        ensures
            step == send_step(
                SendMode::Standard,
                layout_of(buf),
                self.destination(),
                Tag::Value(0),
                self.raw(),
            ),
    {
        self.send_with_tag(buf, Tag::default())
    }
}

impl<Dest: Destination> Send for Dest {
    fn send_with_tag<Buf: Buffer + ?Sized>(&self, buf: &Buf, tag: Tag) -> (step: Step<()>) {
        blocking_send(SendMode::Standard, self, buf, tag)
    }
}

/// Blocking buffered mode send operation
pub trait BufferedSend: Destination {
    /// Send the contents of a `Buffer` to the `Destination` `&self` and tag it.
    fn buffered_send_with_tag<Buf: Buffer + ?Sized>(&self, buf: &Buf, tag: Tag) -> (step: Step<()>)
        requires
            buf.contents().len() <= max_count(),
        ensures
            step == send_step(
                SendMode::Buffered,
                layout_of(buf),
                self.destination(),
                tag,
                self.raw(),
            ),
    ;

    /// Send the contents of a `Buffer` to the `Destination` `&self`.
    fn buffered_send<Buf: Buffer + ?Sized>(&self, buf: &Buf) -> (step: Step<()>)
        requires
            buf.contents().len() <= max_count(),
        ensures
            step == send_step(
                SendMode::Buffered,
                layout_of(buf),
                self.destination(),
                Tag::Value(0),
                self.raw(),
            ),
    {
        self.buffered_send_with_tag(buf, Tag::default())
    }
}

impl<Dest: Destination> BufferedSend for Dest {
    fn buffered_send_with_tag<Buf: Buffer + ?Sized>(&self, buf: &Buf, tag: Tag) -> (step: Step<()>) {
        blocking_send(SendMode::Buffered, self, buf, tag)
    }
}

/// Blocking synchronous mode send operation
pub trait SynchronousSend: Destination {
    /// Send the contents of a `Buffer` to the `Destination` `&self` and tag it.
    ///
    /// Completes only once the matching receive operation has started.
    fn synchronous_send_with_tag<Buf: Buffer + ?Sized>(&self, buf: &Buf, tag: Tag) -> (step: Step<()>)
        requires
            buf.contents().len() <= max_count(),
        ensures
            step == send_step(
                SendMode::Synchronous,
                layout_of(buf),
                self.destination(),
                tag,
                self.raw(),
            ),
    ;

    /// Send the contents of a `Buffer` to the `Destination` `&self`.
    ///
    /// Completes only once the matching receive operation has started.
    fn synchronous_send<Buf: Buffer + ?Sized>(&self, buf: &Buf) -> (step: Step<()>)
        requires
            buf.contents().len() <= max_count(),
        ensures
            step == send_step(
                SendMode::Synchronous,
                layout_of(buf),
                self.destination(),
                Tag::Value(0),
                self.raw(),
            ),
    {
        self.synchronous_send_with_tag(buf, Tag::default())
    }
}

impl<Dest: Destination> SynchronousSend for Dest {
    fn synchronous_send_with_tag<Buf: Buffer + ?Sized>(&self, buf: &Buf, tag: Tag) -> (step: Step<()>) {
        blocking_send(SendMode::Synchronous, self, buf, tag)
    }
}

/// Blocking ready mode send operation
pub trait ReadySend: Destination {
    /// Send the contents of a `Buffer` to the `Destination` `&self` and tag it.
    ///
    /// Fails if the matching receive operation has not been posted.
    fn ready_send_with_tag<Buf: Buffer + ?Sized>(&self, buf: &Buf, tag: Tag) -> (step: Step<()>)
        requires
            buf.contents().len() <= max_count(),
        ensures
            step == send_step(
                SendMode::Ready,
                layout_of(buf),
                self.destination(),
                tag,
                self.raw(),
            ),
    ;

    /// Send the contents of a `Buffer` to the `Destination` `&self`.
    ///
    /// Fails if the matching receive operation has not been posted.
    fn ready_send<Buf: Buffer + ?Sized>(&self, buf: &Buf) -> (step: Step<()>)
        requires
            buf.contents().len() <= max_count(),
        ensures
            step == send_step(
                SendMode::Ready,
                layout_of(buf),
                self.destination(),
                Tag::Value(0),
                self.raw(),
            ),
    {
        self.ready_send_with_tag(buf, Tag::default())
    }
}

impl<Dest: Destination> ReadySend for Dest {
    fn ready_send_with_tag<Buf: Buffer + ?Sized>(&self, buf: &Buf, tag: Tag) -> (step: Step<()>) {
        blocking_send(SendMode::Ready, self, buf, tag)
    }
}

/// What a probe for `source` asks of the transport.
pub open spec fn probe_call(matched: bool, immediate: bool, source: Rank, tag: Tag, comm: CommHandle) -> Call {
    Call::Probe { matched, immediate, source, tag, comm }
}

/// Probe a source for incoming messages.
///
/// An ordinary `probe()` returns a `Status` which allows inspection of the properties of the
/// incoming message, but does not guarantee reception by a subsequent `receive()` (especially in a
/// multi-threaded set-up). For a probe operation with stronger guarantees, see `MatchedProbe`.
pub trait Probe: Source {
    /// Probe `Source` `&self` for incoming messages with a certain tag.
    ///
    /// The null process answers at once, with no data.  For any other
    /// source the transport is asked; its answer is read by
    /// `Status::from_raw`.
    fn probe_with_tag(&self, tag: Tag) -> (step: Step<Status>)
        ensures
            self.source() is NullProcess ==> (step matches Step::Done(s) && s@ == null_status()),
            self.source() !is NullProcess ==> step == Step::<Status>::Ask(
                probe_call(false, false, self.source(), tag, self.raw()),
            ),
    ;

    /// Probe `Source` `&self` for incoming messages with any tag.
    fn probe(&self) -> (step: Step<Status>)
        ensures
            self.source() is NullProcess ==> (step matches Step::Done(s) && s@ == null_status()),
            self.source() !is NullProcess ==> step == Step::<Status>::Ask(
                probe_call(false, false, self.source(), Tag::Any, self.raw()),
            ),
    {
        self.probe_with_tag(Tag::Any)
    }
}

impl<Src: Source> Probe for Src {
    fn probe_with_tag(&self, tag: Tag) -> (step: Step<Status>) {
        let source = self.source_rank();
        match source {
            Rank::NullProcess => Step::Done(Status::null_process()),
            _ => Step::Ask(
                Call::Probe { matched: false, immediate: false, source, tag, comm: self.as_raw() },
            ),
        }
    }
}

/// Describes a pending incoming message, probed by a `matched_probe()`.
///
/// A message is received at most once: every receive takes it by value.
/// It may be let go only once it has been received, or if it stands for
/// the null process; `release` tells which.
#[must_use]
#[derive(Debug, PartialEq, Eq)]
pub struct Message(MessageHandle);

impl Message {
    /// The message behind `handle`.
    pub fn from_raw(handle: MessageHandle) -> (m: Message)
        ensures
            m.raw() == handle,
    {
        Message(handle)
    }

    /// True if the `Source` for the probe was the null process.
    pub fn is_no_proc(&self) -> (b: bool)
        ensures
            b == (self.raw() is NoProc),
    {
        match self.0 {
            MessageHandle::NoProc => true,
            _ => false,
        }
    }

    /// Whether nothing is left to receive: the message has been received,
    /// or it stands for the null process.
    pub open spec fn is_terminal(&self) -> bool {
        self.raw() !is Reserved
    }

    /// Lets the message go.  A message that still reserves data must not be
    /// let go: it comes back as the error.
    pub fn release(self) -> (r: Result<(), Message>)
        ensures
            self.is_terminal() ==> r is Ok,
            !self.is_terminal() ==> r == Err::<(), Message>(self),
    {
        match self.0 {
            MessageHandle::Reserved(_) => Err(self),
            _ => Ok(()),
        }
    }
}

impl AsRaw for Message {
    type Raw = MessageHandle;

    closed spec fn raw(&self) -> MessageHandle {
        self.0
    }

    fn as_raw(&self) -> (raw: MessageHandle) {
        self.0
    }
}

impl AsRawMut for Message {
    fn as_raw_mut(&mut self) -> (slot: &mut MessageHandle) {
        &mut self.0
    }
}

/// Probe a source for incoming messages with guaranteed reception.
///
/// A `matched_probe()` returns both a `Status` that describes the properties of a pending incoming
/// message and a `Message` which can and *must* subsequently be used in a `matched_receive()`
/// to receive the probed message.
pub trait MatchedProbe: Source {
    /// Probe `Source` `&self` for incoming messages with a certain tag.
    ///
    /// The null process answers at once with a message that holds no
    /// data.  For any other source the transport is asked; its answer is
    /// read by `Message::from_raw` and `Status::from_raw`.
    fn matched_probe_with_tag(&self, tag: Tag) -> (step: Step<(Message, Status)>)
        ensures
            self.source() is NullProcess ==> (step matches Step::Done((m, s))
                && m.raw() is NoProc && s@ == null_status()),
            self.source() !is NullProcess ==> step == Step::<(Message, Status)>::Ask(
                probe_call(true, false, self.source(), tag, self.raw()),
            ),
    ;

    /// Probe `Source` `&self` for incoming messages with any tag.
    fn matched_probe(&self) -> (step: Step<(Message, Status)>)
        ensures
            self.source() is NullProcess ==> (step matches Step::Done((m, s))
                && m.raw() is NoProc && s@ == null_status()),
            self.source() !is NullProcess ==> step == Step::<(Message, Status)>::Ask(
                probe_call(true, false, self.source(), Tag::Any, self.raw()),
            ),
    {
        self.matched_probe_with_tag(Tag::Any)
    }
}

impl<Src: Source> MatchedProbe for Src {
    fn matched_probe_with_tag(&self, tag: Tag) -> (step: Step<(Message, Status)>) {
        let source = self.source_rank();
        match source {
            Rank::NullProcess => Step::Done(
                (Message::from_raw(MessageHandle::NoProc), Status::null_process()),
            ),
            _ => Step::Ask(
                Call::Probe { matched: true, immediate: false, source, tag, comm: self.as_raw() },
            ),
        }
    }
}

/// The value that a typed receive hands out: none where the status names
/// the null process as the sender, else what was delivered.
pub open spec fn delivery<T>(value: T, status: RawStatus) -> Option<T> {
    if status.source is NullProcess {
        None
    } else {
        Some(value)
    }
}

/// Reads the transport's answer to a receive of one value or of a whole
/// collection: `value` is what was delivered, `status` what was reported.
pub fn complete_receive<Msg>(value: Msg, status: RawStatus) -> (r: (Option<Msg>, Status))
    ensures
        r.0 == delivery(value, status),
        r.1@ == status,
{
    match status.source {
        Rank::NullProcess => (None, Status::from_raw(status)),
        _ => (Some(value), Status::from_raw(status)),
    }
}

/// Reads the transport's answer to a receive into `buf`: the payload is
/// stored at the front of the buffer, unless the null process answered.
pub fn complete_receive_into<Buf: BufferMut + ?Sized>(
    buf: &mut Buf,
    payload: Vec<Buf::Elem>,
    status: RawStatus,
) -> (s: Status)
    requires
        crate::request::fits(old(buf).contents(), payload@, status),
    ensures
        s@ == status,
        final(buf).contents() == crate::request::landed(old(buf).contents(), payload@, status),
{
    match status.source {
        Rank::NullProcess => {},
        _ => {
            buf.store(payload);
        },
    }
    Status::from_raw(status)
}

/// Receive a previously probed message containing a single instance of type `Msg`.
pub trait MatchedReceive: AsRaw<Raw = MessageHandle> + Sized {
    /// Receives the message `&self` which contains a single instance of type `Msg` or None if
    /// receiving from the null process.
    ///
    /// The message is spent.  The transport is asked for exactly the
    /// message that was probed; its answer is read by `complete_receive`.
    fn matched_receive<Msg: EquivalentDatatype>(self) -> (step: Step<(Option<Msg>, Status)>)
        requires
            self.raw() !is Null,
        ensures
            self.raw() is NoProc ==> (step matches Step::Done((None, s))
                && s@ == null_status()),
            self.raw() is Reserved ==> step == Step::<(Option<Msg>, Status)>::Ask(
                Call::MatchedReceive { immediate: false, layout: single::<Msg>(), message: self.raw() },
            ),
    ;
}

impl MatchedReceive for Message {
    fn matched_receive<Msg: EquivalentDatatype>(self) -> (step: Step<(Option<Msg>, Status)>) {
        if self.is_no_proc() {
            Step::Done((None, Status::null_process()))
        } else {
            Step::Ask(
                Call::MatchedReceive {
                    immediate: false,
                    layout: Layout { count: 1, datatype: Msg::equivalent_datatype() },
                    message: self.as_raw(),
                },
            )
        }
    }
}

/// Receive a previously probed message into a `Buffer`.
pub trait MatchedReceiveInto: AsRaw<Raw = MessageHandle> + Sized {
    /// Receive the message `&self` with contents matching `buf`.
    ///
    /// Receiving from the null process leaves `buf` untouched.  The
    /// transport's answer is read by `complete_receive_into`.
    fn matched_receive_into<Buf: BufferMut + ?Sized>(self, buf: &mut Buf) -> (step: Step<Status>)
        requires
            self.raw() !is Null,
            old(buf).contents().len() <= max_count(),
        ensures
            final(buf).contents() == old(buf).contents(),
            self.raw() is NoProc ==> (step matches Step::Done(s) && s@ == null_status()),
            self.raw() is Reserved ==> step == Step::<Status>::Ask(
                Call::MatchedReceive { immediate: false, layout: layout_of(old(buf)), message: self.raw() },
            ),
    ;
}

impl MatchedReceiveInto for Message {
    fn matched_receive_into<Buf: BufferMut + ?Sized>(self, buf: &mut Buf) -> (step: Step<Status>) {
        if self.is_no_proc() {
            Step::Done(Status::null_process())
        } else {
            Step::Ask(
                Call::MatchedReceive { immediate: false, layout: shape(buf), message: self.as_raw() },
            )
        }
    }
}

#[verifier::external_type_specification]
#[verifier::external_body]
#[verifier::reject_recursive_types(T)]
pub struct ExNegOverflow<T>(NegOverflow<T>);

/// `conv::ConvUtil::value_as`, from a `Count` to a `usize`: the same number
/// where the count is not negative, and the crate's negative-overflow error
/// where it is.
#[verifier::external_body]
fn count_as_usize(count: Count) -> (r: Result<usize, NegOverflow<Count>>)
    ensures
        r is Ok <==> count >= 0,
        r matches Ok(n) ==> n == count,
{
    count.value_as::<usize>()
}

/// What the receive of a probed message into a collection of `Msg` asks of
/// the transport: the probed message itself, in the shape of as many
/// elements as the probe's status counts.
pub open spec fn sized_receive_call<Msg: EquivalentDatatype>(
    message: MessageHandle,
    status: RawStatus,
) -> Call {
    Call::MatchedReceive {
        immediate: false,
        layout: Layout {
            count: element_count(status.bytes as int, Msg::descriptor().size as int) as Count,
            datatype: Msg::descriptor(),
        },
        message,
    }
}

/// How many slots a collection of `Msg` needs to take the message that
/// `status` describes: none where the status counts no whole number of
/// elements.
pub open spec fn slots_for<Msg: EquivalentDatatype>(status: RawStatus) -> Option<usize> {
    let count = element_count(status.bytes as int, Msg::descriptor().size as int);
    if count >= 0 {
        Some(count as usize)
    } else {
        None
    }
}

/// How many slots a collection of `Msg` needs to take the message that
/// `status` describes.
pub fn slots<Msg: EquivalentDatatype>(status: &Status) -> (n: Option<usize>)
    ensures
        n == slots_for::<Msg>(status@),
{
    let datatype = Msg::equivalent_datatype();
    proof {
        assert(datatype.raw() == datatype);
    }
    match count_as_usize(status.count(datatype)) {
        Ok(n) => Some(n),
        Err(_) => None,
    }
}

/// Receive a previously probed message containing multiple instances of type `Msg` into a `Vec`.
pub trait MatchedReceiveVec: Sized {
    /// The handle of the probed message, as contracts see it.
    spec fn message(&self) -> MessageHandle;

    /// What the probe reported of the message, as contracts see it.
    spec fn status(&self) -> RawStatus;

    /// Receives the message `&self` which contains multiple instances of type `Msg` into a `Vec`
    /// or `None` if receiving from the null process.
    ///
    /// The collection is sized from the probe's status: the transport is
    /// asked to deliver exactly as many elements of `Msg` as the status
    /// counts in the probed message.  Where that count cannot be expressed
    /// as a size, nothing is asked and the probed pair comes back as the
    /// error, the message still reserved.  The transport's answer is read
    /// by `complete_receive`.
    fn matched_receive_vec<Msg: EquivalentDatatype>(self) -> (r: Result<
        Step<(Option<Vec<Msg>>, Status)>,
        Self,
    >)
        requires
            self.message() !is Null,
        ensures
            r is Err <==> slots_for::<Msg>(self.status()) is None,
            r matches Err(back) ==> back == self,
            r is Ok && self.message() is NoProc ==> (r matches Ok(Step::Done((None, s)))
                && s@ == null_status()),
            r is Ok && self.message() is Reserved ==> r == Ok::<
                Step<(Option<Vec<Msg>>, Status)>,
                Self,
            >(Step::Ask(sized_receive_call::<Msg>(self.message(), self.status()))),
    ;
}

impl MatchedReceiveVec for (Message, Status) {
    open spec fn message(&self) -> MessageHandle {
        self.0.raw()
    }

    open spec fn status(&self) -> RawStatus {
        self.1@
    }

    fn matched_receive_vec<Msg: EquivalentDatatype>(self) -> (r: Result<
        Step<(Option<Vec<Msg>>, Status)>,
        Self,
    >) {
        let (message, status) = self;
        let is_no_proc = message.is_no_proc();
        let datatype = Msg::equivalent_datatype();
        let count = status.count(datatype);
        proof {
            assert(self.message() == message.raw());
            assert(self.status() == status@);
            assert(datatype.raw() == datatype);
        }
        match slots::<Msg>(&status) {
            None => Err((message, status)),
            Some(_) => {
                if is_no_proc {
                    Ok(Step::Done((None, Status::null_process())))
                } else {
                    Ok(
                        Step::Ask(
                            Call::MatchedReceive {
                                immediate: false,
                                layout: Layout { count, datatype },
                                message: message.as_raw(),
                            },
                        ),
                    )
                }
            },
        }
    }
}

/// What a blocking receive from `source` asks of the transport.
pub open spec fn receive_call(layout: Layout, source: Rank, tag: Tag, comm: CommHandle) -> Call {
    Call::Receive { immediate: false, layout, source, tag, comm }
}

/// Receive a message containing a single instance of type `Msg`.
pub trait Receive: Source {
    /// Receive a message from `Source` `&self` tagged `tag` containing a single instance of type
    /// `Msg` or `None` if receiving from the null process.
    ///
    /// The transport's answer is read by `complete_receive`.
    fn receive_with_tag<Msg: EquivalentDatatype>(&self, tag: Tag) -> (step: Step<
        (Option<Msg>, Status),
    >)
        ensures
            self.source() is NullProcess ==> (step matches Step::Done((None, s))
                && s@ == null_status()),
            self.source() !is NullProcess ==> step == Step::<(Option<Msg>, Status)>::Ask(
                receive_call(single::<Msg>(), self.source(), tag, self.raw()),
            ),
    ;

    /// Receive a message from `Source` `&self` containing a single instance of type `Msg` or
    /// `None` if receiving from the null process.
    fn receive<Msg: EquivalentDatatype>(&self) -> (step: Step<(Option<Msg>, Status)>)
        ensures
            self.source() is NullProcess ==> (step matches Step::Done((None, s))
                && s@ == null_status()),
            self.source() !is NullProcess ==> step == Step::<(Option<Msg>, Status)>::Ask(
                receive_call(single::<Msg>(), self.source(), Tag::Any, self.raw()),
            ),
    {
        self.receive_with_tag(Tag::Any)
    }
}

impl<Src: Source> Receive for Src {
    fn receive_with_tag<Msg: EquivalentDatatype>(&self, tag: Tag) -> (step: Step<
        (Option<Msg>, Status),
    >) {
        let source = self.source_rank();
        match source {
            Rank::NullProcess => Step::Done((None, Status::null_process())),
            _ => Step::Ask(
                Call::Receive {
                    immediate: false,
                    layout: Layout { count: 1, datatype: Msg::equivalent_datatype() },
                    source,
                    tag,
                    comm: self.as_raw(),
                },
            ),
        }
    }
}

/// Receive a message into a `Buffer`.
pub trait ReceiveInto: Source {
    /// Receive a message from `Source` `&self` tagged `tag` into `Buffer` `buf`.
    ///
    /// Receiving from the null process leaves `buf` untouched.  The
    /// transport's answer is read by `complete_receive_into`.
    fn receive_into_with_tag<Buf: BufferMut + ?Sized>(&self, buf: &mut Buf, tag: Tag) -> (step:
        Step<Status>)
        requires
            old(buf).contents().len() <= max_count(),
        ensures
            final(buf).contents() == old(buf).contents(),
            self.source() is NullProcess ==> (step matches Step::Done(s) && s@ == null_status()),
            self.source() !is NullProcess ==> step == Step::<Status>::Ask(
                receive_call(layout_of(old(buf)), self.source(), tag, self.raw()),
            ),
    ;

    /// Receive a message from `Source` `&self` into `Buffer` `buf`.
    ///
    /// Receiving from the null process leaves `buf` untouched.
    fn receive_into<Buf: BufferMut + ?Sized>(&self, buf: &mut Buf) -> (step: Step<Status>)
        requires
            old(buf).contents().len() <= max_count(),
        ensures
            final(buf).contents() == old(buf).contents(),
            self.source() is NullProcess ==> (step matches Step::Done(s) && s@ == null_status()),
            self.source() !is NullProcess ==> step == Step::<Status>::Ask(
                receive_call(layout_of(old(buf)), self.source(), Tag::Any, self.raw()),
            ),
    {
        self.receive_into_with_tag(buf, Tag::Any)
    }
}

impl<Src: Source> ReceiveInto for Src {
    fn receive_into_with_tag<Buf: BufferMut + ?Sized>(&self, buf: &mut Buf, tag: Tag) -> (step:
        Step<Status>) {
        let source = self.source_rank();
        match source {
            Rank::NullProcess => Step::Done(Status::null_process()),
            _ => Step::Ask(
                Call::Receive { immediate: false, layout: shape(buf), source, tag, comm: self.as_raw() },
            ),
        }
    }
}

/// Receive a message containing multiple instances of type `Msg` into a `Vec`.
pub trait ReceiveVec: Source {
    /// Receive a message from `Source` `&self` tagged `tag` containing multiple instances of type
    /// `Msg` into a `Vec` or `None` if receiving from the null process.
    ///
    /// A receive cannot size a collection for a message of unknown
    /// length, so this is a matched probe followed by a matched receive
    /// of the probed pair: the transport is asked for the probe, and its
    /// answer, read by `Message::from_raw` and `Status::from_raw`, goes to
    /// `matched_receive_vec`.
    fn receive_vec_with_tag<Msg: EquivalentDatatype>(&self, tag: Tag) -> (step: Step<
        (Option<Vec<Msg>>, Status),
    >)
        ensures
            self.source() is NullProcess ==> (step matches Step::Done((None, s))
                && s@ == null_status()),
            self.source() !is NullProcess ==> step == Step::<(Option<Vec<Msg>>, Status)>::Ask(
                probe_call(true, false, self.source(), tag, self.raw()),
            ),
    ;

    /// Receive a message from `Source` `&self` containing multiple instances of type `Msg` into a
    /// `Vec` or `None` if receiving from the null process.
    fn receive_vec<Msg: EquivalentDatatype>(&self) -> (step: Step<(Option<Vec<Msg>>, Status)>)
        ensures
            self.source() is NullProcess ==> (step matches Step::Done((None, s))
                && s@ == null_status()),
            self.source() !is NullProcess ==> step == Step::<(Option<Vec<Msg>>, Status)>::Ask(
                probe_call(true, false, self.source(), Tag::Any, self.raw()),
            ),
    {
        self.receive_vec_with_tag(Tag::Any)
    }
}

impl<Src: Source> ReceiveVec for Src {
    fn receive_vec_with_tag<Msg: EquivalentDatatype>(&self, tag: Tag) -> (step: Step<
        (Option<Vec<Msg>>, Status),
    >) {
        match self.matched_probe_with_tag(tag) {
            Step::Ask(call) => Step::Ask(call),
            Step::Done(probed) => {
                assert(element_count(0, Msg::descriptor().size as int) == 0);
                match probed.matched_receive_vec::<Msg>() {
                    Ok(step) => step,
                    Err(_) => {
                        assert(false);
                        Step::Done((None, Status::null_process()))
                    },
                }
            },
        }
    }
}

/// What a combined send and receive asks of the transport.
pub open spec fn exchange_call(
    send: Layout,
    destination: Rank,
    sendtag: Tag,
    receive: Layout,
    source: Rank,
    receivetag: Tag,
    comm: CommHandle,
) -> Call {
    Call::SendReceive { send, destination, sendtag, receive, source, receivetag, comm }
}

/// Whether a combined send and receive has nothing to do: it sends to the
/// null process and receives from it.
pub open spec fn idle(destination: Rank, source: Rank) -> bool {
    destination is NullProcess && source is NullProcess
}

fn is_idle(destination: Rank, source: Rank) -> (b: bool)
    ensures
        b == idle(destination, source),
{
    match (destination, source) {
        (Rank::NullProcess, Rank::NullProcess) => true,
        _ => false,
    }
}

/// Simultaneously send and receive the contents of buffers.
pub trait SendReceiveInto: RawCommunicator {
    /// Sends the contents of `sendbuf` to `Rank` `destination` tagging it `sendtag` and
    /// simultaneously receives a message tagged `receivetag` from `Rank` `source` into
    /// `receivebuf`.
    ///
    /// Receiving from the null process leaves `receivebuf` untouched.
    /// The send and the receive go to the transport as one call, so that
    /// neither can hold up the other.  The transport's answer is read by
    /// `complete_receive_into`.
    fn send_receive_into_with_tags<S: ?Sized, R: ?Sized>(
        &self,
        sendbuf: &S,
        destination: Rank,
        sendtag: Tag,
        receivebuf: &mut R,
        source: Rank,
        receivetag: Tag,
    ) -> (step: Step<Status>) where S: Buffer, R: BufferMut
        requires
            sendbuf.contents().len() <= max_count(),
            old(receivebuf).contents().len() <= max_count(),
        ensures
            final(receivebuf).contents() == old(receivebuf).contents(),
            idle(destination, source) ==> (step matches Step::Done(s) && s@ == null_status()),
            !idle(destination, source) ==> step == Step::<Status>::Ask(
                exchange_call(
                    layout_of(sendbuf),
                    destination,
                    sendtag,
                    layout_of(old(receivebuf)),
                    source,
                    receivetag,
                    self.raw(),
                ),
            ),
    ;

    /// Sends the contents of `sendbuf` to `Rank` `destination` and
    /// simultaneously receives a message from `Rank` `source` into
    /// `receivebuf`.
    ///
    /// Receiving from the null process leaves `receivebuf` untouched.
    fn send_receive_into<S: ?Sized, R: ?Sized>(
        &self,
        sendbuf: &S,
        destination: Rank,
        receivebuf: &mut R,
        source: Rank,
    ) -> (step: Step<Status>) where S: Buffer, R: BufferMut
        requires
            sendbuf.contents().len() <= max_count(),
            old(receivebuf).contents().len() <= max_count(),
        ensures
            final(receivebuf).contents() == old(receivebuf).contents(),
            idle(destination, source) ==> (step matches Step::Done(s) && s@ == null_status()),
            !idle(destination, source) ==> step == Step::<Status>::Ask(
                exchange_call(
                    layout_of(sendbuf),
                    destination,
                    Tag::Value(0),
                    layout_of(old(receivebuf)),
                    source,
                    Tag::Any,
                    self.raw(),
                ),
            ),
    {
        self.send_receive_into_with_tags(
            sendbuf,
            destination,
            Tag::default(),
            receivebuf,
            source,
            Tag::Any,
        )
    }
}

impl<C: RawCommunicator> SendReceiveInto for C {
    fn send_receive_into_with_tags<S: ?Sized, R: ?Sized>(
        &self,
        sendbuf: &S,
        destination: Rank,
        sendtag: Tag,
        receivebuf: &mut R,
        source: Rank,
        receivetag: Tag,
    ) -> (step: Step<Status>) where S: Buffer, R: BufferMut {
        if is_idle(destination, source) {
            Step::Done(Status::null_process())
        } else {
            Step::Ask(
                Call::SendReceive {
                    send: shape(sendbuf),
                    destination,
                    sendtag,
                    receive: shape(receivebuf),
                    source,
                    receivetag,
                    comm: self.as_raw(),
                },
            )
        }
    }
}

/// Simultaneously send and receive single instances of types `S` and `R`.
pub trait SendReceive: SendReceiveInto {
    /// Sends `msg` to `Rank` `destination` tagging it `sendtag` and simultaneously receives an
    /// instance of `R` tagged `receivetag` from `Rank` `source` or receives `None` if receiving
    /// from the null process.
    ///
    /// The transport's answer is read by `complete_receive`.
    fn send_receive_with_tags<S, R>(
        &self,
        msg: &S,
        destination: Rank,
        sendtag: Tag,
        source: Rank,
        receivetag: Tag,
    ) -> (step: Step<(Option<R>, Status)>) where S: EquivalentDatatype, R: EquivalentDatatype
        ensures
            idle(destination, source) ==> (step matches Step::Done((None, s))
                && s@ == null_status()),
            !idle(destination, source) ==> step == Step::<(Option<R>, Status)>::Ask(
                exchange_call(
                    single::<S>(),
                    destination,
                    sendtag,
                    single::<R>(),
                    source,
                    receivetag,
                    self.raw(),
                ),
            ),
    ;

    /// Sends `msg` to `Rank` `destination` and simultaneously receives an instance of `R` from
    /// `Rank` `source` or receives `None` if receiving from the null process.
    fn send_receive<S, R>(&self, msg: &S, destination: Rank, source: Rank) -> (step: Step<
        (Option<R>, Status),
    >) where S: EquivalentDatatype, R: EquivalentDatatype
        ensures
            idle(destination, source) ==> (step matches Step::Done((None, s))
                && s@ == null_status()),
            !idle(destination, source) ==> step == Step::<(Option<R>, Status)>::Ask(
                exchange_call(
                    single::<S>(),
                    destination,
                    Tag::Value(0),
                    single::<R>(),
                    source,
                    Tag::Any,
                    self.raw(),
                ),
            ),
    {
        self.send_receive_with_tags(msg, destination, Tag::default(), source, Tag::Any)
    }
}

impl<T: SendReceiveInto> SendReceive for T {
    fn send_receive_with_tags<S, R>(
        &self,
        msg: &S,
        destination: Rank,
        sendtag: Tag,
        source: Rank,
        receivetag: Tag,
    ) -> (step: Step<(Option<R>, Status)>) where S: EquivalentDatatype, R: EquivalentDatatype {
        if is_idle(destination, source) {
            Step::Done((None, Status::null_process()))
        } else {
            Step::Ask(
                Call::SendReceive {
                    send: shape(msg),
                    destination,
                    sendtag,
                    receive: Layout { count: 1, datatype: R::equivalent_datatype() },
                    source,
                    receivetag,
                    comm: self.as_raw(),
                },
            )
        }
    }
}

/// What a combined send and receive through one buffer asks of the
/// transport.
pub open spec fn replace_call(
    layout: Layout,
    destination: Rank,
    sendtag: Tag,
    source: Rank,
    receivetag: Tag,
    comm: CommHandle,
) -> Call {
    Call::SendReceiveReplace { layout, destination, sendtag, source, receivetag, comm }
}

/// Simultaneously send and receive the contents of the same buffer.
pub trait SendReceiveReplaceInto: RawCommunicator {
    /// Sends the contents of `buf` to `Rank` `destination` tagging it `sendtag` and
    /// simultaneously receives a message tagged `receivetag` from `Rank` `source` and replaces the
    /// contents of `buf` with it.
    ///
    /// Receiving from the null process leaves `buf` untouched.  The
    /// buffer keeps its contents until the transport has answered; the
    /// answer is read by `complete_receive_into`, which overwrites it.
    fn send_receive_replace_into_with_tags<B: ?Sized>(
        &self,
        buf: &mut B,
        destination: Rank,
        sendtag: Tag,
        source: Rank,
        receivetag: Tag,
    ) -> (step: Step<Status>) where B: BufferMut
        requires
            old(buf).contents().len() <= max_count(),
        ensures
            final(buf).contents() == old(buf).contents(),
            idle(destination, source) ==> (step matches Step::Done(s) && s@ == null_status()),
            !idle(destination, source) ==> step == Step::<Status>::Ask(
                replace_call(
                    layout_of(old(buf)),
                    destination,
                    sendtag,
                    source,
                    receivetag,
                    self.raw(),
                ),
            ),
    ;

    /// Sends the contents of `buf` to `Rank` `destination` and
    /// simultaneously receives a message from `Rank` `source` into and replaces the contents of
    /// `buf` with it.
    ///
    /// Receiving from the null process leaves `buf` untouched.
    fn send_receive_replace_into<B: ?Sized>(&self, buf: &mut B, destination: Rank, source: Rank) -> (step:
        Step<Status>) where B: BufferMut
        requires
            old(buf).contents().len() <= max_count(),
        ensures
            final(buf).contents() == old(buf).contents(),
            idle(destination, source) ==> (step matches Step::Done(s) && s@ == null_status()),
            !idle(destination, source) ==> step == Step::<Status>::Ask(
                replace_call(
                    layout_of(old(buf)),
                    destination,
                    Tag::Value(0),
                    source,
                    Tag::Value(0),
                    self.raw(),
                ),
            ),
    {
        self.send_receive_replace_into_with_tags(
            buf,
            destination,
            Tag::default(),
            source,
            Tag::default(),
        )
    }
}

impl<C: RawCommunicator> SendReceiveReplaceInto for C {
    fn send_receive_replace_into_with_tags<B: ?Sized>(
        &self,
        buf: &mut B,
        destination: Rank,
        sendtag: Tag,
        source: Rank,
        receivetag: Tag,
    ) -> (step: Step<Status>) where B: BufferMut {
        if is_idle(destination, source) {
            Step::Done(Status::null_process())
        } else {
            Step::Ask(
                Call::SendReceiveReplace {
                    layout: shape(buf),
                    destination,
                    sendtag,
                    source,
                    receivetag,
                    comm: self.as_raw(),
                },
            )
        }
    }
}

/// A request object associated with a send operation
pub type SendRequest<'b, Buf> = ReadRequest<'b, Buf>;

/// What an immediate send in `mode` asks of the transport.  The answer is a
/// request handle, which `SendRequest::from_raw` ties to the buffer.
fn immediate_send_in<Dest: Destination, Buf: Buffer + ?Sized>(
    mode: SendMode,
    dest: &Dest,
    buf: &Buf,
    tag: Tag,
) -> (call: Call)
    requires
        buf.contents().len() <= max_count(),
    ensures
        call == immediate_send_call(mode, layout_of(buf), dest.destination(), tag, dest.raw()),
{
    Call::Send {
        mode,
        immediate: true,
        layout: shape(buf),
        destination: dest.destination_rank(),
        tag,
        comm: dest.as_raw(),
    }
}

/// Initiate an immediate (non-blocking) standard mode send operation.
pub trait ImmediateSend: Destination {
    /// Initiate sending the data in `buf` in standard mode and tag it.
    ///
    /// The transport answers with a request handle, which
    /// `SendRequest::from_raw` ties to `buf`.
    fn immediate_send_with_tag<Buf: Buffer + ?Sized>(&self, buf: &Buf, tag: Tag) -> (call: Call)
        requires
            buf.contents().len() <= max_count(),
        ensures
            call == immediate_send_call(
                SendMode::Standard,
                layout_of(buf),
                self.destination(),
                tag,
                self.raw(),
            ),
    ;

    /// Initiate sending the data in `buf` in standard mode.
    fn immediate_send<Buf: Buffer + ?Sized>(&self, buf: &Buf) -> (call: Call)
        requires
            buf.contents().len() <= max_count(),
        ensures
            call == immediate_send_call(
                SendMode::Standard,
                layout_of(buf),
                self.destination(),
                Tag::Value(0),
                self.raw(),
            ),
    {
        self.immediate_send_with_tag(buf, Tag::default())
    }
}

impl<Dest: Destination> ImmediateSend for Dest {
    fn immediate_send_with_tag<Buf: Buffer + ?Sized>(&self, buf: &Buf, tag: Tag) -> (call: Call) {
        immediate_send_in(SendMode::Standard, self, buf, tag)
    }
}

/// Initiate an immediate (non-blocking) buffered mode send operation.
pub trait ImmediateBufferedSend: Destination {
    /// Initiate sending the data in `buf` in buffered mode and tag it.
    ///
    /// The transport answers with a request handle, which
    /// `SendRequest::from_raw` ties to `buf`.
    fn immediate_buffered_send_with_tag<Buf: Buffer + ?Sized>(&self, buf: &Buf, tag: Tag) -> (call: Call)
        requires
            buf.contents().len() <= max_count(),
        ensures
            call == immediate_send_call(
                SendMode::Buffered,
                layout_of(buf),
                self.destination(),
                tag,
                self.raw(),
            ),
    ;

    /// Initiate sending the data in `buf` in buffered mode.
    fn immediate_buffered_send<Buf: Buffer + ?Sized>(&self, buf: &Buf) -> (call: Call)
        requires
            buf.contents().len() <= max_count(),
        ensures
            call == immediate_send_call(
                SendMode::Buffered,
                layout_of(buf),
                self.destination(),
                Tag::Value(0),
                self.raw(),
            ),
    {
        self.immediate_buffered_send_with_tag(buf, Tag::default())
    }
}

impl<Dest: Destination> ImmediateBufferedSend for Dest {
    fn immediate_buffered_send_with_tag<Buf: Buffer + ?Sized>(&self, buf: &Buf, tag: Tag) -> (call: Call) {
        immediate_send_in(SendMode::Buffered, self, buf, tag)
    }
}

/// Initiate an immediate (non-blocking) synchronous mode send operation.
pub trait ImmediateSynchronousSend: Destination {
    /// Initiate sending the data in `buf` in synchronous mode and tag it.
    ///
    /// The transport answers with a request handle, which
    /// `SendRequest::from_raw` ties to `buf`.
    fn immediate_synchronous_send_with_tag<Buf: Buffer + ?Sized>(&self, buf: &Buf, tag: Tag) -> (call: Call)
        requires
            buf.contents().len() <= max_count(),
        ensures
            call == immediate_send_call(
                SendMode::Synchronous,
                layout_of(buf),
                self.destination(),
                tag,
                self.raw(),
            ),
    ;

    /// Initiate sending the data in `buf` in synchronous mode.
    fn immediate_synchronous_send<Buf: Buffer + ?Sized>(&self, buf: &Buf) -> (call: Call)
        requires
            buf.contents().len() <= max_count(),
        ensures
            call == immediate_send_call(
                SendMode::Synchronous,
                layout_of(buf),
                self.destination(),
                Tag::Value(0),
                self.raw(),
            ),
    {
        self.immediate_synchronous_send_with_tag(buf, Tag::default())
    }
}

impl<Dest: Destination> ImmediateSynchronousSend for Dest {
    fn immediate_synchronous_send_with_tag<Buf: Buffer + ?Sized>(&self, buf: &Buf, tag: Tag) -> (call: Call) {
        immediate_send_in(SendMode::Synchronous, self, buf, tag)
    }
}

/// Initiate an immediate (non-blocking) ready mode send operation.
pub trait ImmediateReadySend: Destination {
    /// Initiate sending the data in `buf` in ready mode and tag it.
    ///
    /// The transport answers with a request handle, which
    /// `SendRequest::from_raw` ties to `buf`.
    fn immediate_ready_send_with_tag<Buf: Buffer + ?Sized>(&self, buf: &Buf, tag: Tag) -> (call: Call)
        requires
            buf.contents().len() <= max_count(),
        ensures
            call == immediate_send_call(
                SendMode::Ready,
                layout_of(buf),
                self.destination(),
                tag,
                self.raw(),
            ),
    ;

    /// Initiate sending the data in `buf` in ready mode.
    fn immediate_ready_send<Buf: Buffer + ?Sized>(&self, buf: &Buf) -> (call: Call)
        requires
            buf.contents().len() <= max_count(),
        ensures
            call == immediate_send_call(
                SendMode::Ready,
                layout_of(buf),
                self.destination(),
                Tag::Value(0),
                self.raw(),
            ),
    {
        self.immediate_ready_send_with_tag(buf, Tag::default())
    }
}

impl<Dest: Destination> ImmediateReadySend for Dest {
    fn immediate_ready_send_with_tag<Buf: Buffer + ?Sized>(&self, buf: &Buf, tag: Tag) -> (call: Call) {
        immediate_send_in(SendMode::Ready, self, buf, tag)
    }
}

/// A request object associated with a receive operation
pub type ReceiveRequest<'b, Buf> = WriteRequest<'b, Buf>;

/// What an immediate receive from `source` asks of the transport.
pub open spec fn immediate_receive_call(layout: Layout, source: Rank, tag: Tag, comm: CommHandle) -> Call {
    Call::Receive { immediate: true, layout, source, tag, comm }
}

/// Initiate an immediate (non-blocking) receive operation.
pub trait ImmediateReceiveInto: Source {
    /// Initiate receiving a message matching `tag` into `buf`.
    ///
    /// The transport answers with a request handle, which
    /// `ReceiveRequest::from_raw` ties to `buf`.
    fn immediate_receive_into_with_tag<Buf: BufferMut + ?Sized>(&self, buf: &mut Buf, tag: Tag) -> (call:
        Call)
        requires
            old(buf).contents().len() <= max_count(),
        ensures
            final(buf).contents() == old(buf).contents(),
            call == immediate_receive_call(layout_of(old(buf)), self.source(), tag, self.raw()),
    ;

    /// Initiate receiving a message into `buf`.
    fn immediate_receive_into<Buf: BufferMut + ?Sized>(&self, buf: &mut Buf) -> (call: Call)
        requires
            old(buf).contents().len() <= max_count(),
        ensures
            final(buf).contents() == old(buf).contents(),
            call == immediate_receive_call(layout_of(old(buf)), self.source(), Tag::Any, self.raw()),
    {
        self.immediate_receive_into_with_tag(buf, Tag::Any)
    }
}

impl<Src: Source> ImmediateReceiveInto for Src {
    fn immediate_receive_into_with_tag<Buf: BufferMut + ?Sized>(&self, buf: &mut Buf, tag: Tag) -> (call:
        Call) {
        Call::Receive {
            immediate: true,
            layout: shape(buf),
            source: self.source_rank(),
            tag,
            comm: self.as_raw(),
        }
    }
}

/// Will contain a value of type `T` received via a non-blocking receive operation.
///
/// The value exists only once the transport has delivered it: it arrives
/// together with the status that completes the operation.
#[must_use]
#[derive(Debug, PartialEq, Eq)]
pub struct ReceiveFuture<T> {
    val: PhantomData<T>,
    req: PlainRequest,
}

impl<T> ReceiveFuture<T> {
    /// The future of the receive operation behind `request`.
    pub fn from_raw(request: RequestHandle) -> (f: Self)
        ensures
            f.raw() == request,
    {
        ReceiveFuture { val: PhantomData, req: PlainRequest(request) }
    }

    /// What waiting for the receive asks of the transport.
    pub fn wait_call(&self) -> (call: Call)
        ensures
            call == (Call::Wait { request: self.raw() }),
    {
        self.req.wait_call()
    }

    /// What testing the receive asks of the transport.
    pub fn test_call(&self) -> (call: Call)
        ensures
            call == (Call::Test { request: self.raw() }),
    {
        self.req.test_call()
    }

    /// Wait for the receive operation to finish and return the received data.
    ///
    /// `value` and `status` are the transport's answer to the wait.
    pub fn get(self, value: T, status: RawStatus) -> (r: (Option<T>, Status))
        ensures
            r.0 == delivery(value, status),
            r.1@ == status,
    {
        let status = self.req.wait(status);
        match status.source_rank() {
            Rank::NullProcess => (None, status),
            _ => (Some(value), status),
        }
    }

    /// Check whether the receive operation has finished.
    ///
    /// If the operation has finished, the data received is returned. Otherwise the future itself
    /// is returned.  `arrival` is the transport's answer to the test.
    pub fn try_get(self, arrival: Arrival<T>) -> (r: Result<(Option<T>, Status), Self>)
        ensures
            r matches Ok((v, s)) ==> (resolution(self, arrival) matches Ok((value, status))
                && v == delivery(value, status) && s@ == status),
            r matches Err(back) ==> resolution(self, arrival) == Err::<(T, RawStatus), Self>(back),
    {
        let mut this = self;
        match arrival {
            Some((value, raw)) => {
                match this.req.test(Some(raw)) {
                    Ok(status) => Ok(
                        (
                            match status.source_rank() {
                                Rank::NullProcess => None,
                                _ => Some(value),
                            },
                            status,
                        ),
                    ),
                    Err(request) => {
                        this.req = request;
                        Err(this)
                    },
                }
            },
            None => Err(this),
        }
    }
}

impl<T> AsRaw for ReceiveFuture<T> {
    type Raw = RequestHandle;

    closed spec fn raw(&self) -> RequestHandle {
        self.req.raw()
    }

    fn as_raw(&self) -> (raw: RequestHandle) {
        self.req.as_raw()
    }
}

/// Initiate a non-blocking receive operation.
pub trait ImmediateReceive: Source {
    /// Initiate a non-blocking receive operation for messages matching tag `tag`.
    ///
    /// The transport answers with a request handle, which
    /// `ReceiveFuture::from_raw` turns into the future of the value.
    fn immediate_receive_with_tag<Msg: EquivalentDatatype>(&self, tag: Tag) -> (call: Call)
        ensures
            call == immediate_receive_call(single::<Msg>(), self.source(), tag, self.raw()),
    ;

    /// Initiate a non-blocking receive operation.
    fn immediate_receive<Msg: EquivalentDatatype>(&self) -> (call: Call)
        ensures
            call == immediate_receive_call(single::<Msg>(), self.source(), Tag::Any, self.raw()),
    {
        self.immediate_receive_with_tag::<Msg>(Tag::Any)
    }
}

impl<Src: Source> ImmediateReceive for Src {
    fn immediate_receive_with_tag<Msg: EquivalentDatatype>(&self, tag: Tag) -> (call: Call) {
        Call::Receive {
            immediate: true,
            layout: Layout { count: 1, datatype: Msg::equivalent_datatype() },
            source: self.source_rank(),
            tag,
            comm: self.as_raw(),
        }
    }
}

/// Reads the transport's answer to an immediate probe: a status where
/// `flag` says that a message was found, nothing where it was not.
pub fn complete_immediate_probe(flag: libc::c_int, status: RawStatus) -> (r: Option<Status>)
    ensures
        r is Some <==> flag != 0,
        r matches Some(s) ==> s@ == status,
{
    if flag != 0 {
        Some(Status::from_raw(status))
    } else {
        None
    }
}

/// Asynchronously probe a source for incoming messages.
///
/// Like `Probe` but returns a `None` immediately if there is no incoming message to be probed.
pub trait ImmediateProbe: Source {
    /// Asynchronously probe `Source` `&self` for incoming messages with a certain tag.
    ///
    /// The transport's answer is read by `complete_immediate_probe`.
    fn immediate_probe_with_tag(&self, tag: Tag) -> (call: Call)
        ensures
            call == probe_call(false, true, self.source(), tag, self.raw()),
    ;

    /// Asynchronously probe `Source` `&self` for incoming messages with any tag.
    fn immediate_probe(&self) -> (call: Call)
        ensures
            call == probe_call(false, true, self.source(), Tag::Any, self.raw()),
    {
        self.immediate_probe_with_tag(Tag::Any)
    }
}

impl<Src: Source> ImmediateProbe for Src {
    fn immediate_probe_with_tag(&self, tag: Tag) -> (call: Call) {
        Call::Probe {
            matched: false,
            immediate: true,
            source: self.source_rank(),
            tag,
            comm: self.as_raw(),
        }
    }
}

/// Reads the transport's answer to an immediate matched probe: the
/// reserved message and its status where `flag` says that a message was
/// found, nothing where it was not.
pub fn complete_immediate_matched_probe(
    flag: libc::c_int,
    message: MessageHandle,
    status: RawStatus,
) -> (r: Option<(Message, Status)>)
    ensures
        r is Some <==> flag != 0,
        r matches Some((m, s)) ==> m.raw() == message && s@ == status,
{
    if flag != 0 {
        Some((Message::from_raw(message), Status::from_raw(status)))
    } else {
        None
    }
}

/// Asynchronously probe a source for incoming messages with guaranteed reception.
///
/// Like `MatchedProbe` but returns a `None` immediately if there is no incoming message to be
/// probed.
pub trait ImmediateMatchedProbe: Source {
    /// Asynchronously probe `Source` `&self` for incoming messages with a certain tag.
    ///
    /// The transport's answer is read by
    /// `complete_immediate_matched_probe`.
    fn immediate_matched_probe_with_tag(&self, tag: Tag) -> (call: Call)
        ensures
            call == probe_call(true, true, self.source(), tag, self.raw()),
    ;

    /// Asynchronously probe `Source` `&self` for incoming messages with any tag.
    fn immediate_matched_probe(&self) -> (call: Call)
        ensures
            call == probe_call(true, true, self.source(), Tag::Any, self.raw()),
    {
        self.immediate_matched_probe_with_tag(Tag::Any)
    }
}

impl<Src: Source> ImmediateMatchedProbe for Src {
    fn immediate_matched_probe_with_tag(&self, tag: Tag) -> (call: Call) {
        Call::Probe {
            matched: true,
            immediate: true,
            source: self.source_rank(),
            tag,
            comm: self.as_raw(),
        }
    }
}

/// Asynchronously receive a previously probed message into a `Buffer`.
pub trait ImmediateMatchedReceiveInto: AsRaw<Raw = MessageHandle> + Sized {
    /// Asynchronously receive the message `&self` with contents matching `buf`.
    ///
    /// Receiving from the null process leaves `buf` untouched.  The
    /// message is spent.  The transport answers with a request handle,
    /// which `ReceiveRequest::from_raw` ties to `buf`.
    fn immediate_matched_receive_into<Buf: BufferMut + ?Sized>(self, buf: &mut Buf) -> (call: Call)
        requires
            self.raw() !is Null,
            old(buf).contents().len() <= max_count(),
        ensures
            final(buf).contents() == old(buf).contents(),
            call == (Call::MatchedReceive {
                immediate: true,
                layout: layout_of(old(buf)),
                message: self.raw(),
            }),
    ;
}

impl ImmediateMatchedReceiveInto for Message {
    fn immediate_matched_receive_into<Buf: BufferMut + ?Sized>(self, buf: &mut Buf) -> (call: Call) {
        Call::MatchedReceive { immediate: true, layout: shape(buf), message: self.as_raw() }
    }
}

} // verus!
