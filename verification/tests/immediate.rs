use mpi::datatype::EquivalentDatatype;
use mpi::point_to_point::{
    complete_immediate_matched_probe, complete_immediate_probe, Call, ImmediateBufferedSend,
    ImmediateMatchedProbe, ImmediateMatchedReceiveInto, ImmediateProbe, ImmediateReadySend,
    ImmediateReceive, ImmediateReceiveInto, ImmediateSend, ImmediateSynchronousSend, Layout,
    Message, RawStatus, ReceiveFuture, ReceiveRequest, SendMode, SendRequest, Status,
};
use mpi::raw::{AsRaw, CommHandle, MessageHandle, RequestHandle};
use mpi::request::PlainRequest;
use mpi::topology::{Rank, SystemCommunicator};
use mpi::{Tag, SUCCESS};

fn world() -> SystemCommunicator {
    SystemCommunicator::new(CommHandle(3), 4, 0).unwrap()
}

fn from(sender: i32, label: i32, bytes: usize) -> RawStatus {
    RawStatus { source: Rank::Process(sender), tag: Tag::Value(label), error: SUCCESS, bytes }
}

fn null() -> RawStatus {
    RawStatus { source: Rank::NullProcess, tag: Tag::Any, error: SUCCESS, bytes: 0 }
}

fn isend(mode: SendMode, destination: Rank, label: i32) -> Call {
    Call::Send {
        mode,
        immediate: true,
        layout: Layout { count: 2, datatype: u32::equivalent_datatype() },
        destination,
        tag: Tag::Value(label),
        comm: CommHandle(3),
    }
}

#[test]
fn immediate_sends_ask_in_their_mode() {
    let world = world();
    let peer = world.process_at_rank(1).unwrap();
    let to = Rank::Process(1);
    let v: Vec<u32> = vec![5, 6];
    assert_eq!(peer.immediate_send(&v), isend(SendMode::Standard, to, 0));
    assert_eq!(peer.immediate_send_with_tag(&v, Tag::Value(4)), isend(SendMode::Standard, to, 4));
    assert_eq!(peer.immediate_buffered_send(&v), isend(SendMode::Buffered, to, 0));
    assert_eq!(
        peer.immediate_buffered_send_with_tag(&v, Tag::Value(4)),
        isend(SendMode::Buffered, to, 4)
    );
    assert_eq!(peer.immediate_synchronous_send(&v), isend(SendMode::Synchronous, to, 0));
    assert_eq!(
        peer.immediate_synchronous_send_with_tag(&v, Tag::Value(4)),
        isend(SendMode::Synchronous, to, 4)
    );
    assert_eq!(peer.immediate_ready_send(&v), isend(SendMode::Ready, to, 0));
    assert_eq!(
        peer.immediate_ready_send_with_tag(&v, Tag::Value(4)),
        isend(SendMode::Ready, to, 4)
    );
}

#[test]
fn immediate_send_to_the_null_process_names_it() {
    let world = world();
    let nobody = world.null_process();
    let v: Vec<u32> = vec![5, 6];
    assert_eq!(nobody.immediate_send(&v), isend(SendMode::Standard, Rank::NullProcess, 0));
}

#[test]
fn send_request_waits_for_its_handle() {
    let v: Vec<u32> = vec![5, 6];
    let request = SendRequest::from_raw(RequestHandle(21), &v);
    assert_eq!(request.as_raw(), RequestHandle(21));
    assert_eq!(request.wait_call(), Call::Wait { request: RequestHandle(21) });
    assert_eq!(request.test_call(), Call::Test { request: RequestHandle(21) });
    let status = request.wait(from(0, 0, 0));
    assert_eq!(status, Status::from_raw(from(0, 0, 0)));
}

#[test]
fn pending_send_request_comes_back_unchanged() {
    let v: Vec<u32> = vec![5, 6];
    let mut request = SendRequest::from_raw(RequestHandle(21), &v);
    for _ in 0..5 {
        request = match request.test(None) {
            Err(same) => same,
            Ok(_) => panic!("nothing has completed"),
        };
        assert_eq!(request.as_raw(), RequestHandle(21));
    }
    match request.test(Some(from(0, 9, 0))) {
        Ok(status) => assert_eq!(status.tag(), Tag::Value(9)),
        Err(_) => panic!("the operation has completed"),
    }
}

#[test]
fn plain_request_test_and_wait_agree() {
    let done = from(2, 7, 16);
    let waited = PlainRequest(RequestHandle(1)).wait(done);
    let tested = PlainRequest(RequestHandle(1)).test(Some(done));
    assert_eq!(tested, Ok(waited));
    assert_eq!(waited, Status::from_raw(done));
    assert_eq!(
        PlainRequest(RequestHandle(1)).test(None),
        Err(PlainRequest(RequestHandle(1)))
    );
    assert_eq!(PlainRequest(RequestHandle(1)).wait_call(), Call::Wait { request: RequestHandle(1) });
    assert_eq!(PlainRequest(RequestHandle(1)).test_call(), Call::Test { request: RequestHandle(1) });
}

#[test]
fn immediate_receive_into_describes_the_buffer() {
    let world = world();
    let peer = world.process_at_rank(2).unwrap();
    let mut buf: Vec<i8> = vec![0; 4];
    let irecv = |source, tag| Call::Receive {
        immediate: true,
        layout: Layout { count: 4, datatype: i8::equivalent_datatype() },
        source,
        tag,
        comm: CommHandle(3),
    };
    assert_eq!(peer.immediate_receive_into(&mut buf), irecv(Rank::Process(2), Tag::Any));
    assert_eq!(
        peer.immediate_receive_into_with_tag(&mut buf, Tag::Value(1)),
        irecv(Rank::Process(2), Tag::Value(1))
    );
    assert_eq!(world.immediate_receive_into(&mut buf), irecv(Rank::AnySource, Tag::Any));
    assert_eq!(buf, vec![0; 4]);
}

#[test]
fn receive_request_stores_the_payload_when_waited_for() {
    let mut buf: Vec<i8> = vec![1, 2, 3, 4];
    let request = ReceiveRequest::from_raw(RequestHandle(8), &mut buf);
    assert_eq!(request.as_raw(), RequestHandle(8));
    assert_eq!(request.wait_call(), Call::Wait { request: RequestHandle(8) });
    assert_eq!(request.test_call(), Call::Test { request: RequestHandle(8) });
    let status = request.wait(vec![-1, -2, -3], from(2, 0, 3));
    assert_eq!(status.count(i8::equivalent_datatype()), 3);
    assert_eq!(buf, vec![-1, -2, -3, 4]);
}

#[test]
fn receive_request_from_the_null_process_leaves_the_buffer() {
    let mut buf: Vec<i8> = vec![1, 2, 3, 4];
    let request = ReceiveRequest::from_raw(RequestHandle(8), &mut buf);
    let status = request.wait(vec![9, 9, 9, 9, 9, 9], null());
    assert_eq!(status, Status::null_process());
    assert_eq!(buf, vec![1, 2, 3, 4]);
}

#[test]
fn pending_receive_request_keeps_the_buffer_untouched() {
    let mut buf: Vec<i8> = vec![1, 2, 3, 4];
    {
        let mut request = ReceiveRequest::from_raw(RequestHandle(8), &mut buf);
        for _ in 0..3 {
            request = match request.test(None) {
                Err(same) => same,
                Ok(_) => panic!("nothing has completed"),
            };
            assert_eq!(request.as_raw(), RequestHandle(8));
            assert_eq!(*request.buf, vec![1, 2, 3, 4]);
        }
        match request.test(Some((vec![7, 7, 7, 7], from(1, 1, 4)))) {
            Ok(status) => assert_eq!(status.source_rank(), Rank::Process(1)),
            Err(_) => panic!("the operation has completed"),
        }
    }
    assert_eq!(buf, vec![7, 7, 7, 7]);
}

#[test]
fn receive_request_into_a_single_value() {
    let mut x: u64 = 0;
    let request = ReceiveRequest::from_raw(RequestHandle(2), &mut x);
    let _ = request.wait(vec![99], from(1, 0, 8));
    assert_eq!(x, 99);
}

#[test]
fn immediate_receive_asks_for_one_element() {
    let world = world();
    let peer = world.process_at_rank(3).unwrap();
    let irecv = |tag| Call::Receive {
        immediate: true,
        layout: Layout { count: 1, datatype: u16::equivalent_datatype() },
        source: Rank::Process(3),
        tag,
        comm: CommHandle(3),
    };
    assert_eq!(peer.immediate_receive::<u16>(), irecv(Tag::Any));
    assert_eq!(peer.immediate_receive_with_tag::<u16>(Tag::Value(12)), irecv(Tag::Value(12)));
}

#[test]
fn future_hands_out_the_value_on_get() {
    let future = ReceiveFuture::<u16>::from_raw(RequestHandle(4));
    assert_eq!(future.as_raw(), RequestHandle(4));
    assert_eq!(future.wait_call(), Call::Wait { request: RequestHandle(4) });
    assert_eq!(future.test_call(), Call::Test { request: RequestHandle(4) });
    let (value, status) = future.get(513, from(3, 12, 2));
    assert_eq!(value, Some(513));
    assert_eq!(status, Status::from_raw(from(3, 12, 2)));
}

#[test]
fn future_of_a_receive_from_the_null_process_holds_nothing() {
    let future = ReceiveFuture::<u16>::from_raw(RequestHandle(4));
    let (value, status) = future.get(513, null());
    assert_eq!(value, None);
    assert_eq!(status, Status::null_process());
    let future = ReceiveFuture::<u16>::from_raw(RequestHandle(4));
    assert_eq!(future.try_get(Some((513, null()))), Ok((None, Status::null_process())));
}

#[test]
fn pending_future_comes_back_unchanged() {
    let mut future = ReceiveFuture::<u16>::from_raw(RequestHandle(4));
    for _ in 0..4 {
        future = match future.try_get(None) {
            Err(same) => same,
            Ok(_) => panic!("nothing has arrived"),
        };
        assert_eq!(future, ReceiveFuture::<u16>::from_raw(RequestHandle(4)));
    }
    assert_eq!(
        future.try_get(Some((77, from(3, 0, 2)))),
        Ok((Some(77), Status::from_raw(from(3, 0, 2))))
    );
}

#[test]
fn future_try_and_get_agree() {
    let done = from(1, 2, 2);
    let got = ReceiveFuture::<u16>::from_raw(RequestHandle(4)).get(5, done);
    let tried = ReceiveFuture::<u16>::from_raw(RequestHandle(4)).try_get(Some((5, done)));
    assert_eq!(tried, Ok(got));
}

#[test]
fn immediate_probe_asks_without_waiting() {
    let world = world();
    let peer = world.process_at_rank(1).unwrap();
    let iprobe = |matched, tag| Call::Probe {
        matched,
        immediate: true,
        source: Rank::Process(1),
        tag,
        comm: CommHandle(3),
    };
    assert_eq!(peer.immediate_probe(), iprobe(false, Tag::Any));
    assert_eq!(peer.immediate_probe_with_tag(Tag::Value(2)), iprobe(false, Tag::Value(2)));
    assert_eq!(peer.immediate_matched_probe(), iprobe(true, Tag::Any));
    assert_eq!(peer.immediate_matched_probe_with_tag(Tag::Value(2)), iprobe(true, Tag::Value(2)));
}

#[test]
fn immediate_probe_found_something_iff_the_flag_is_set() {
    assert_eq!(complete_immediate_probe(0, from(1, 1, 8)), None);
    assert_eq!(complete_immediate_probe(1, from(1, 1, 8)), Some(Status::from_raw(from(1, 1, 8))));
    assert_eq!(complete_immediate_probe(-3, from(1, 1, 8)), Some(Status::from_raw(from(1, 1, 8))));
}

#[test]
fn immediate_matched_probe_found_something_iff_the_flag_is_set() {
    assert_eq!(
        complete_immediate_matched_probe(0, MessageHandle::Reserved(5), from(1, 1, 8)),
        None
    );
    match complete_immediate_matched_probe(1, MessageHandle::Reserved(5), from(1, 1, 8)) {
        Some((message, status)) => {
            assert_eq!(message.as_raw(), MessageHandle::Reserved(5));
            assert_eq!(status, Status::from_raw(from(1, 1, 8)));
            assert!(message.release().is_err());
        }
        None => panic!("the flag was set"),
    }
}

#[test]
fn immediate_matched_receive_asks_for_the_probed_message() {
    let mut buf: Vec<u64> = vec![0; 2];
    let message = Message::from_raw(MessageHandle::Reserved(14));
    assert_eq!(
        message.immediate_matched_receive_into(&mut buf),
        Call::MatchedReceive {
            immediate: true,
            layout: Layout { count: 2, datatype: u64::equivalent_datatype() },
            message: MessageHandle::Reserved(14),
        }
    );
    assert_eq!(buf, vec![0; 2]);
}

#[test]
fn release_flags_a_message_that_was_never_received() {
    let unreceived = Message::from_raw(MessageHandle::Reserved(14));
    match unreceived.release() {
        Err(back) => assert_eq!(back.as_raw(), MessageHandle::Reserved(14)),
        Ok(()) => panic!("the message still reserves data"),
    }
    assert_eq!(Message::from_raw(MessageHandle::Null).release(), Ok(()));
    assert_eq!(Message::from_raw(MessageHandle::NoProc).release(), Ok(()));
    assert!(!Message::from_raw(MessageHandle::Reserved(1)).is_no_proc());
    assert!(!Message::from_raw(MessageHandle::Null).is_no_proc());
}

#[test]
fn a_test_has_completed_iff_the_flag_is_set() {
    assert_eq!(mpi::request::progress(0, from(1, 1, 8)), None);
    assert_eq!(mpi::request::progress(1, from(1, 1, 8)), Some(from(1, 1, 8)));
    assert_eq!(mpi::request::progress(-1, from(1, 1, 8)), Some(from(1, 1, 8)));
    assert_eq!(mpi::request::arrival(0, 5u8, from(1, 1, 1)), None);
    assert_eq!(mpi::request::arrival(2, 5u8, from(1, 1, 1)), Some((5u8, from(1, 1, 1))));
}
