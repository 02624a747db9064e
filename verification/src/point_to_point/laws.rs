//! What holds of the operations taken together.
//!
//! The transport is outside this library.  Where a law needs to speak of
//! it, it speaks of a faithful one: a transport that hands a receiver the
//! elements that were sent to it, unchanged, and reports who sent them,
//! under which label, and how many bytes they take.

use vstd::prelude::*;
use crate::{Tag, SUCCESS};
use crate::datatype::{Count, EquivalentDatatype, max_count, stored};
use crate::raw::{CommHandle, DatatypeHandle, MessageHandle};
use crate::request::{fits, landed, resolution};
use crate::topology::Rank;
use super::{
    Call, Layout, RawStatus, SendMode, Step, delivery, element_count, idle, null_status,
    send_step, single, sized_receive_call, slots_for,
};

verus! {

/// What a faithful transport reports of a message of `count` elements of
/// `datatype` that the process `sender` sent with the label `label`.
pub open spec fn report(sender: i32, label: i32, count: nat, datatype: DatatypeHandle) -> RawStatus {
    RawStatus {
        source: Rank::Process(sender),
        tag: Tag::Value(label),
        error: SUCCESS,
        bytes: (count * datatype.size) as usize,
    }
}

/// Whether a message of `count` elements of `datatype` can be described to
/// the transport and measured in bytes.
pub open spec fn expressible(count: nat, datatype: DatatypeHandle) -> bool {
    &&& count <= max_count()
    &&& datatype.size > 0
    &&& count * datatype.size <= usize::MAX
}

/// A status that reports `count` whole elements counts exactly `count`.
pub proof fn count_of_report(sender: i32, label: i32, count: nat, datatype: DatatypeHandle)
    requires
        expressible(count, datatype),
    ensures
        element_count(report(sender, label, count, datatype).bytes as int, datatype.size as int)
            == count,
{
    let size = datatype.size as int;
    let bytes = count * size;
    assert(bytes % size == 0 && bytes / size == count) by (nonlinear_arith)
        requires
            size > 0,
            count >= 0,
            bytes == count * size,
    ;
}

/// Round trip.  A value that is sent from one process to another, in any
/// mode and under any label, and received there, comes out equal: the send
/// hands the transport the one element as it is, addressed and labelled as
/// asked; a receive that is posted for the sender (or for any sender) and
/// for the label (or for any label) is not one from the null process; and
/// the receive returns what was delivered, with a status that counts one
/// element.
pub proof fn round_trip<T: EquivalentDatatype>(
    value: T,
    mode: SendMode,
    sender: i32,
    receiver: i32,
    label: i32,
    source: Rank,
    tag: Tag,
    comm: CommHandle,
)
    requires
        source.accepts(sender),
        tag.accepts(label),
        expressible(1, T::descriptor()),
    ensures
        send_step(mode, single::<T>(), Rank::Process(receiver), Tag::Value(label), comm)
            == Step::<()>::Ask(
            Call::Send {
                mode,
                immediate: false,
                layout: single::<T>(),
                destination: Rank::Process(receiver),
                tag: Tag::Value(label),
                comm,
            },
        ),
        source !is NullProcess,
        delivery(value, report(sender, label, 1, T::descriptor())) == Some(value),
        element_count(
            report(sender, label, 1, T::descriptor()).bytes as int,
            T::descriptor().size as int,
        ) == 1,
{
    count_of_report(sender, label, 1, T::descriptor());
}

/// The null process is silent.  A blocking send to it asks nothing of the
/// transport, whatever the mode, the buffer and the label, and a combined
/// send and receive with it on both sides has nothing to do.  Its status
/// names no sender, reports no error and counts no element of any datatype.
/// A typed receive whose status names it yields no value, and a receive into
/// a buffer leaves the buffer as it was, whatever the transport handed over.
pub proof fn null_process_is_silent<T>(
    mode: SendMode,
    layout: Layout,
    tag: Tag,
    comm: CommHandle,
    datatype: DatatypeHandle,
    value: T,
    before: Seq<T>,
    payload: Seq<T>,
)
    ensures
        send_step(mode, layout, Rank::NullProcess, tag, comm) == Step::<()>::Done(()),
        idle(Rank::NullProcess, Rank::NullProcess),
        null_status().source is NullProcess,
        null_status().error == SUCCESS,
        element_count(null_status().bytes as int, datatype.size as int) == 0,
        delivery(value, null_status()) is None,
        fits(before, payload, null_status()),
        landed(before, payload, null_status()) == before,
{
}

/// Matched probe, matched receive.  The message that a matched probe
/// reserved is the one that the receive asks for, and the number of elements
/// that the status counts before the receive is the number that are
/// received: for a probed message of `payload.len()` elements, the receive
/// names the probed handle and the shape of exactly that many elements, and
/// it hands out the payload, that many elements long.
pub proof fn probed_message_is_received<T: EquivalentDatatype>(
    message: MessageHandle,
    sender: i32,
    label: i32,
    payload: Seq<T>,
)
    requires
        expressible(payload.len(), T::descriptor()),
    ensures
        ({
            let status = report(sender, label, payload.len(), T::descriptor());
            &&& element_count(status.bytes as int, T::descriptor().size as int) == payload.len()
            &&& slots_for::<T>(status) == Some(payload.len() as usize)
            &&& sized_receive_call::<T>(message, status) == (Call::MatchedReceive {
                immediate: false,
                layout: Layout { count: payload.len() as Count, datatype: T::descriptor() },
                message,
            })
            &&& delivery(payload, status) == Some(payload)
        }),
{
    count_of_report(sender, label, payload.len(), T::descriptor());
}

/// Collections keep their length.  A collection of `n` elements, `n == 0`
/// included, is counted as `n` by the status of its message, and what the
/// receiving side hands out is the collection that was delivered: `n`
/// elements long and equal element by element.  Stored into a buffer of the
/// same length, it replaces the buffer's contents entirely.
pub proof fn collection_round_trip<T: EquivalentDatatype>(
    sent: Seq<T>,
    before: Seq<T>,
    sender: i32,
    label: i32,
)
    requires
        expressible(sent.len(), T::descriptor()),
        before.len() == sent.len(),
    ensures
        ({
            let status = report(sender, label, sent.len(), T::descriptor());
            &&& element_count(status.bytes as int, T::descriptor().size as int) == sent.len()
            &&& delivery(sent, status) == Some(sent)
            &&& fits(before, sent, status)
            &&& landed(before, sent, status) == sent
        }),
{
    count_of_report(sender, label, sent.len(), T::descriptor());
    let status = report(sender, label, sent.len(), T::descriptor());
    assert(stored(before, sent) =~= sent);
}

/// Test and wait agree.  While the operation is pending, a test gives the
/// request back as it was, however often it is asked.  Once the operation
/// has completed with a status, a test returns that status, which is the
/// status that a wait returns and that the blocking form of the operation
/// returns.
pub proof fn test_agrees_with_wait<R>(request: R, status: RawStatus)
    ensures
        resolution(request, None::<RawStatus>) == Err::<RawStatus, R>(request),
        resolution(request, Some(status)) == Ok::<RawStatus, R>(status),
{
}

} // verus!
